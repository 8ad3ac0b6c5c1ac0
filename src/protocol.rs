//! The wire protocol shared by every display transport, and the decoding of
//! device identity strings.
//!
//! A frame goes out as three writes: a 16-byte header (the frame-begin magic,
//! then width, height, x and y as big-endian `u16`), the LZ4 block of the
//! big-endian RGB565 pixels with its length prepended, and the frame-end magic.
use vstd::prelude::*;
use crate::text::{parse_u16, parse_u16_spec};

verus! {

/// Frame-begin magic.
pub const IMAGE_AA: u64 = 7596835243154170209;
/// Self-identify opcode sent to an unclaimed serial port.
pub const BOOT_USB: u64 = 7093010483740242786;
/// Frame-end magic.
pub const IMAGE_BB: u64 = 7596835243154170466;
/// The largest compressed payload the device firmware accepts.
pub const MAX_PAYLOAD: usize = 28672;
/// Serial numbers of display devices start with this.
pub const SERIAL_PREFIX: &'static str = "USBSCR";
/// Product string of raw USB display devices.
pub const PRODUCT_NAME: &'static str = "USB Screen";
/// Resolution assumed when the identity string does not give one.
pub const DEFAULT_WIDTH: u16 = 160;
pub const DEFAULT_HEIGHT: u16 = 128;

/// Failures of a display transport.
#[derive(Debug, Clone, Copy, PartialEq, Eq, Structural)]
pub enum TransportError {
    /// A write did not complete in time.
    Timeout,
    /// The device reported a failed transfer.
    DeviceStatus,
    /// The compressed frame is larger than the device can take.
    TooLarge,
}

// ---------------------------------------------------------------- LZ4

/// The LZ4 block, length prepended, that `lz4_flex::compress_prepend_size` makes of some bytes.
pub uninterp spec fn lz4_block(input: Seq<u8>) -> Seq<u8>;

/// What `lz4_flex::decompress_size_prepended` makes of some bytes; `None` for malformed input.
pub uninterp spec fn lz4_unblock(input: Seq<u8>) -> Option<Seq<u8>>;

#[verifier::external_type_specification]
#[verifier::external_body]
pub struct ExDecompressError(lz4_flex::block::DecompressError);

/// Relies on `lz4_flex::compress_prepend_size`: the block depends on the input
/// alone, starts with the input length as four little-endian bytes, and
/// `decompress_size_prepended` gives the input back (the length must fit in
/// those four bytes).
#[verifier::external_body]
pub(crate) fn lz4_compress(input: &[u8]) -> (r: Vec<u8>)
    ensures
        r@ == lz4_block(input@),
        r@.len() >= 4,
        input@.len() <= u32::MAX ==> lz4_unblock(r@) == Some(input@),
{
    lz4_flex::compress_prepend_size(input)
}

/// Relies on `lz4_flex::decompress_size_prepended`: the outcome depends on the
/// input alone; input shorter than the four-byte length is refused.
#[verifier::external_body]
pub(crate) fn lz4_decompress(input: &[u8]) -> (r: Result<Vec<u8>, lz4_flex::block::DecompressError>)
    ensures
        r is Ok <==> lz4_unblock(input@) is Some,
        r is Ok ==> lz4_unblock(input@) == Some(r->Ok_0@),
        input@.len() < 4 ==> r is Err,
{
    lz4_flex::decompress_size_prepended(input)
}

// ---------------------------------------------------------------- framing

/// Big-endian bytes of a `u16`.
pub open spec fn u16_be(v: u16) -> Seq<u8> {
    seq![(v / 256) as u8, (v % 256) as u8]
}

/// Big-endian bytes of a `u64`.
pub open spec fn u64_be(v: u64) -> Seq<u8> {
    Seq::new(8, |i: int| ((v as nat / pow256((7 - i) as nat)) % 256) as u8)
}

pub open spec fn pow256(e: nat) -> nat
    decreases e,
{
    if e == 0 { 1 } else { 256 * pow256((e - 1) as nat) }
}

proof fn lemma_pow256_pos(e: nat)
    ensures
        pow256(e) >= 1,
    decreases e,
{
    if e > 0 {
        lemma_pow256_pos((e - 1) as nat);
    }
}

/// The 16-byte frame header.
pub open spec fn header_seq(width: u16, height: u16, x: u16, y: u16) -> Seq<u8> {
    u64_be(IMAGE_AA) + u16_be(width) + u16_be(height) + u16_be(x) + u16_be(y)
}

/// The three writes of one frame.
#[derive(Debug)]
pub struct FramePackets {
    pub header: Vec<u8>,
    pub payload: Vec<u8>,
    pub footer: Vec<u8>,
}

fn push_u16_be(out: &mut Vec<u8>, v: u16)
    ensures
        final(out)@ == old(out)@ + u16_be(v),
{
    out.push((v / 256) as u8);
    out.push((v % 256) as u8);
    assert(final(out)@ =~= old(out)@ + u16_be(v));
}

/// Big-endian bytes of a `u64`.
pub fn u64_to_be_bytes(v: u64) -> (r: Vec<u8>)
    ensures
        r@ == u64_be(v),
{
    let mut r: Vec<u8> = Vec::new();
    let mut i: usize = 0;
    let mut div: u64 = 72057594037927936;
    proof {
        reveal_with_fuel(pow256, 8);
    }
    assert(pow256(7) == 72057594037927936);
    while i < 8
        invariant
            i <= 8,
            r@.len() == i,
            i < 8 ==> div as nat == pow256((7 - i) as nat),
            div >= 1,
            forall|k: int| 0 <= k < i ==> r@[k] == u64_be(v)[k],
        decreases 8 - i,
    {
        r.push(((v / div) % 256) as u8);
        proof {
            if i < 7 {
                assert(pow256((7 - i) as nat) == 256 * pow256((7 - i - 1) as nat));
                lemma_pow256_pos((7 - i - 1) as nat);
            }
        }
        if i < 7 {
            div = div / 256;
        }
        i = i + 1;
    }
    assert(r@ =~= u64_be(v));
    r
}

/// The frame header for a `width x height` rectangle at `(x, y)`.
pub fn frame_header(width: u16, height: u16, x: u16, y: u16) -> (r: Vec<u8>)
    ensures
        r@ == header_seq(width, height, x, y),
        r@.len() == 16,
{
    let mut r = u64_to_be_bytes(IMAGE_AA);
    push_u16_be(&mut r, width);
    push_u16_be(&mut r, height);
    push_u16_be(&mut r, x);
    push_u16_be(&mut r, y);
    r
}

/// Frames an already compressed payload, refusing one the device cannot take.
pub fn frame_packets(payload: Vec<u8>, x: u16, y: u16, width: u16, height: u16) -> (r: Result<FramePackets, TransportError>)
    ensures
        payload@.len() > MAX_PAYLOAD <==> r == Err::<FramePackets, TransportError>(TransportError::TooLarge),
        payload@.len() <= MAX_PAYLOAD <==> r is Ok,
        r is Ok ==> r->Ok_0.header@ == header_seq(width, height, x, y)
            && r->Ok_0.payload@ == payload@
            && r->Ok_0.footer@ == u64_be(IMAGE_BB),
{
    if payload.len() > MAX_PAYLOAD {
        return Err(TransportError::TooLarge);
    }
    Ok(FramePackets {
        header: frame_header(width, height, x, y),
        payload,
        footer: u64_to_be_bytes(IMAGE_BB),
    })
}

/// Compresses RGB565 pixels and frames them. A payload over the device limit
/// is refused with `TooLarge` and nothing is produced to send.
pub fn encode_frame(rgb565: &[u8], x: u16, y: u16, width: u16, height: u16) -> (r: Result<FramePackets, TransportError>)
    ensures
        lz4_block(rgb565@).len() > MAX_PAYLOAD <==> r == Err::<FramePackets, TransportError>(TransportError::TooLarge),
        lz4_block(rgb565@).len() <= MAX_PAYLOAD <==> r is Ok,
        r is Ok ==> r->Ok_0.header@ == header_seq(width, height, x, y)
            && r->Ok_0.payload@ == lz4_block(rgb565@)
            && r->Ok_0.footer@ == u64_be(IMAGE_BB),
{
    let compressed = lz4_compress(rgb565);
    frame_packets(compressed, x, y, width, height)
}

/// A frame larger than the device's declared resolution is dropped, not sent.
pub fn frame_fits(screen_width: u16, screen_height: u16, width: u32, height: u32) -> (r: bool)
    ensures
        r == (width <= screen_width && height <= screen_height),
{
    width <= screen_width as u32 && height <= screen_height as u32
}

// ---------------------------------------------------------------- identity strings

/// The first index at or after `start` holding `c1` or `c2`, or the length.
pub open spec fn first_index_from(s: Seq<char>, start: int, c1: char, c2: char) -> int
    decreases s.len() - start,
{
    if start < 0 || start >= s.len() {
        s.len() as int
    } else if s[start] == c1 || s[start] == c2 {
        start
    } else {
        first_index_from(s, start + 1, c1, c2)
    }
}

proof fn lemma_first_index_bounds(s: Seq<char>, start: int, c1: char, c2: char)
    requires
        0 <= start <= s.len(),
    ensures
        start <= first_index_from(s, start, c1, c2) <= s.len(),
    decreases s.len() - start,
{
    if start < s.len() && !(s[start] == c1 || s[start] == c2) {
        lemma_first_index_bounds(s, start + 1, c1, c2);
    }
}

fn find_from(s: &str, start: usize, c1: char, c2: char) -> (r: usize)
    requires
        start <= s@.len(),
    ensures
        r == first_index_from(s@, start as int, c1, c2),
        start <= r <= s@.len(),
{
    proof { lemma_first_index_bounds(s@, start as int, c1, c2); }
    let n = s.unicode_len();
    let mut i = start;
    while i < n
        invariant
            n == s@.len(),
            start <= i <= n,
            first_index_from(s@, start as int, c1, c2) == first_index_from(s@, i as int, c1, c2),
        decreases n - i,
    {
        let c = s.get_char(i);
        if c == c1 || c == c2 {
            return i;
        }
        i = i + 1;
    }
    i
}

/// Where the size field of an identity string ends: at the first `;`, or
/// after at most seven characters when there is none.
pub open spec fn size_field_end(sn: Seq<char>) -> int {
    let k = first_index_from(sn, 0, ';', ';');
    if k < sn.len() { k } else if sn.len() < 13 { sn.len() as int } else { 13 }
}

/// The resolution an identity string `PREFIX{width}X{height};...` declares;
/// `x` or `X` separates, and a part that does not parse gives the default.
pub open spec fn screen_size_spec(sn: Seq<char>) -> (u16, u16) {
    let seg = sn.subrange(6, size_field_end(sn));
    let p = first_index_from(seg, 0, 'x', 'X');
    let w = match parse_u16_spec(seg.subrange(0, p)) { Some(v) => v, None => DEFAULT_WIDTH };
    let h = if p < seg.len() {
        match parse_u16_spec(seg.subrange(p + 1, first_index_from(seg, p + 1, 'x', 'X'))) {
            Some(v) => v,
            None => DEFAULT_HEIGHT,
        }
    } else {
        DEFAULT_HEIGHT
    };
    (w, h)
}

/// The prefix is six characters and none of them is a `;`.
pub open spec fn has_identity_prefix(sn: Seq<char>) -> bool {
    sn.len() >= 6 && forall|k: int| 0 <= k < 6 ==> sn[k] != ';'
}

/// Decodes the declared resolution from a device identity string.
#[verifier::rlimit(60)]
pub fn get_screen_size_from_serial_number(serial_number: &str) -> (r: (u16, u16))
    requires
        has_identity_prefix(serial_number@),
    ensures
        r == screen_size_spec(serial_number@),
{
    let sn = serial_number;
    let n = sn.unicode_len();
    let k = find_from(sn, 0, ';', ';');
    proof {
        reveal_with_fuel(first_index_from, 7);
        assert(sn@[0] != ';' && sn@[1] != ';' && sn@[2] != ';' && sn@[3] != ';' && sn@[4] != ';' && sn@[5] != ';');
        assert(first_index_from(sn@, 0, ';', ';') == first_index_from(sn@, 6, ';', ';'));
        lemma_first_index_bounds(sn@, 6, ';', ';');
    }
    let end = if k < n { k } else if n < 13 { n } else { 13 };
    let seg = sn.substring_char(6, end);
    let m = seg.unicode_len();
    let p = find_from(seg, 0, 'x', 'X');
    let w = match parse_u16(seg.substring_char(0, p)) {
        Some(v) => v,
        None => DEFAULT_WIDTH,
    };
    let h = if p < m {
        let q = find_from(seg, p + 1, 'x', 'X');
        match parse_u16(seg.substring_char(p + 1, q)) {
            Some(v) => v,
            None => DEFAULT_HEIGHT,
        }
    } else {
        DEFAULT_HEIGHT
    };
    (w, h)
}

} // verus!
