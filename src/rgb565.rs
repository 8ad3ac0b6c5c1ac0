//! RGB888 to RGB565 pixel packing, as the display controllers expect it.
use vstd::prelude::*;

verus! {

/// The packed 16-bit value of one pixel: 5 bits red, 6 bits green, 5 bits blue.
pub open spec fn rgb565_of(r: u8, g: u8, b: u8) -> u16 {
    (((r as u16) & 0xF8u16) << 8u16) | (((g as u16) & 0xFCu16) << 3u16) | ((b as u16) >> 3u16)
}

/// Channels recovered from a packed value, each scaled back to 8 bits.
pub open spec fn rgb565_channels(v: u16) -> (u8, u8, u8) {
    (
        (((v >> 11u16) & 0x1Fu16) << 3u16) as u8,
        (((v >> 5u16) & 0x3Fu16) << 2u16) as u8,
        ((v & 0x1Fu16) << 3u16) as u8,
    )
}

/// The big-endian RGB565 stream of a packed RGB888 buffer: two bytes per pixel.
pub open spec fn rgb565_be_seq(img: Seq<u8>) -> Seq<u8> {
    Seq::new(
        ((img.len() / 3) * 2) as nat,
        |k: int|
            {
                let i = k / 2;
                let v = rgb565_of(img[3 * i], img[3 * i + 1], img[3 * i + 2]);
                if k % 2 == 0 {
                    (v >> 8u16) as u8
                } else {
                    (v & 0xFFu16) as u8
                }
            },
    )
}

/// Packs one pixel.
pub fn rgb_to_rgb565(r: u8, g: u8, b: u8) -> (v: u16)
    ensures
        v == rgb565_of(r, g, b),
{
    ((r as u16 & 0xF8u16) << 8u16) | ((g as u16 & 0xFCu16) << 3u16) | (b as u16 >> 3u16)
}

/// Unpacks one pixel; each channel keeps its high bits.
pub fn rgb565_to_rgb(v: u16) -> (c: (u8, u8, u8))
    ensures
        c == rgb565_channels(v),
{
    assert(((v >> 11u16) & 0x1Fu16) << 3u16 <= 255) by (bit_vector);
    assert(((v >> 5u16) & 0x3Fu16) << 2u16 <= 255) by (bit_vector);
    assert((v & 0x1Fu16) << 3u16 <= 255) by (bit_vector);
    assert(((v >> 11u16) & 0x1Fu16) << 3u16 <= 255) by (bit_vector);
    assert(((v >> 5u16) & 0x3Fu16) << 2u16 <= 255) by (bit_vector);
    assert((v & 0x1Fu16) << 3u16 <= 255) by (bit_vector);
    (
        (((v >> 11u16) & 0x1Fu16) << 3u16) as u8,
        (((v >> 5u16) & 0x3Fu16) << 2u16) as u8,
        ((v & 0x1Fu16) << 3u16) as u8,
    )
}

/// Packing then unpacking loses at most one quantisation step per channel:
/// under 8 for red and blue (5 bits), under 4 for green (6 bits), never rounding up.
pub proof fn lemma_rgb565_round_trip(r: u8, g: u8, b: u8)
    ensures
        ({
            let c = rgb565_channels(rgb565_of(r, g, b));
            &&& c.0 <= r && r - c.0 < 8
            &&& c.1 <= g && g - c.1 < 4
            &&& c.2 <= b && b - c.2 < 8
        }),
{
    let v = rgb565_of(r, g, b);
    let rr: u16 = r as u16;
    let gg: u16 = g as u16;
    let bb: u16 = b as u16;
    let x: u16 = (rr & 0xF8u16) << 8u16;
    let y: u16 = (gg & 0xFCu16) << 3u16;
    let z: u16 = bb >> 3u16;
    assert(v == x | y | z);
    assert(((v >> 11u16) & 0x1Fu16) << 3u16 == rr & 0xF8u16) by (bit_vector)
        requires
            v == x | y | z,
            x == (rr & 0xF8u16) << 8u16,
            y == (gg & 0xFCu16) << 3u16,
            z == bb >> 3u16,
            bb <= 255,
            gg <= 255,
    ;
    assert(((v >> 5u16) & 0x3Fu16) << 2u16 == gg & 0xFCu16) by (bit_vector)
        requires
            v == x | y | z,
            x == (rr & 0xF8u16) << 8u16,
            y == (gg & 0xFCu16) << 3u16,
            z == bb >> 3u16,
            bb <= 255,
            gg <= 255,
    ;
    assert((v & 0x1Fu16) << 3u16 == bb & 0xF8u16) by (bit_vector)
        requires
            v == x | y | z,
            x == (rr & 0xF8u16) << 8u16,
            y == (gg & 0xFCu16) << 3u16,
            z == bb >> 3u16,
            bb <= 255,
    ;
    assert(rr & 0xF8u16 <= rr && rr < (rr & 0xF8u16) + 8) by (bit_vector)
        requires
            rr <= 255,
    ;
    assert(gg & 0xFCu16 <= gg && gg < (gg & 0xFCu16) + 4) by (bit_vector)
        requires
            gg <= 255,
    ;
    assert(bb & 0xF8u16 <= bb && bb < (bb & 0xF8u16) + 8) by (bit_vector)
        requires
            bb <= 255,
    ;
}

/// Converts a packed RGB888 buffer to big-endian RGB565, two bytes per pixel.
pub fn rgb888_to_rgb565_be(img: &[u8], width: usize, height: usize) -> (out: Vec<u8>)
    requires
        img@.len() % 3 == 0,
    ensures
        out@ == rgb565_be_seq(img@),
{
    let n = img.len() / 3;
    let mut out: Vec<u8> = Vec::new();
    let mut i: usize = 0;
    while i < n
        invariant
            n == img@.len() / 3,
            img@.len() % 3 == 0,
            i <= n,
            out@.len() == 2 * i,
            forall|k: int| 0 <= k < 2 * i ==> out@[k] == rgb565_be_seq(img@)[k],
        decreases n - i,
    {
        assert(3 * i + 2 < img@.len()) by (nonlinear_arith)
            requires
                i < n,
                n == img@.len() / 3,
        ;
        let v = rgb_to_rgb565(img[3 * i], img[3 * i + 1], img[3 * i + 2]);
        assert(v >> 8u16 <= 255) by (bit_vector);
        assert(v & 0xFFu16 <= 255) by (bit_vector);
        out.push((v >> 8u16) as u8);
        out.push((v & 0xFFu16) as u8);
        proof {
            assert((2 * i as int) / 2 == i as int);
            assert((2 * i as int + 1) / 2 == i as int);
        }
        i = i + 1;
    }
    assert(out@ =~= rgb565_be_seq(img@));
    out
}

} // verus!
