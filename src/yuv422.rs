//! YUYV 4:2:2 camera frames to packed RGB888.
use vstd::prelude::*;

verus! {

/// Four-character codes of the capture formats a camera may offer.
pub const YUYV: [u8; 4] = [89, 85, 89, 86];
pub const RGB3: [u8; 4] = [82, 71, 66, 51];
pub const MJPG: [u8; 4] = [77, 74, 80, 71];

/// Why a YUYV stream could not be converted.
#[derive(Debug, Clone, Copy, PartialEq, Eq, Structural)]
pub enum YuvError {
    /// The stream length is not a multiple of four bytes.
    NotYuv422,
    /// The destination buffer does not hold six bytes per four input bytes.
    WrongDestinationSize,
}

pub open spec fn clamp_255_spec(i: int) -> u8 {
    if i > 255 { 255 } else if i < 0 { 0 } else { i as u8 }
}

/// A bound on the inputs under which the integer formula cannot overflow.
pub open spec fn yuv_in_range(x: i32) -> bool {
    -1_000_000 <= x <= 1_000_000
}

pub open spec fn yuv_r(y: i32, u: i32, v: i32) -> i32 {
    (((y - 16) * 298 + 409 * (v - 128) + 128) as i32) >> 8i32
}

pub open spec fn yuv_g(y: i32, u: i32, v: i32) -> i32 {
    (((y - 16) * 298 - 100 * (u - 128) - 208 * (v - 128) + 128) as i32) >> 8i32
}

pub open spec fn yuv_b(y: i32, u: i32, v: i32) -> i32 {
    (((y - 16) * 298 + 516 * (u - 128) + 128) as i32) >> 8i32
}

/// The RGB pixel of one luma sample with its chroma pair.
pub open spec fn yuv_pixel(y: i32, u: i32, v: i32) -> [u8; 3] {
    [
        clamp_255_spec(yuv_r(y, u, v) as int),
        clamp_255_spec(yuv_g(y, u, v) as int),
        clamp_255_spec(yuv_b(y, u, v) as int),
    ]
}

/// Byte `k` of the RGB888 stream decoded from a YUYV stream: each 4-byte
/// group `y1 u y2 v` yields the pixels of `(y1, u, v)` and `(y2, u, v)`.
pub open spec fn yuyv_rgb_byte(data: Seq<u8>, k: int) -> u8 {
    let g = k / 6;
    let p = (k % 6) / 3;
    let c = k % 3;
    let y = if p == 0 { data[4 * g] } else { data[4 * g + 2] };
    yuv_pixel(y as i32, data[4 * g + 1] as i32, data[4 * g + 3] as i32)@[c]
}

pub open spec fn yuyv_rgb_seq(data: Seq<u8>) -> Seq<u8> {
    Seq::new(((data.len() / 4) * 6) as nat, |k: int| yuyv_rgb_byte(data, k))
}

/// Saturates to the byte range.
pub fn clamp_255(i: i32) -> (r: u8)
    ensures
        r == clamp_255_spec(i as int),
{
    if i > 255 {
        255
    } else if i < 0 {
        0
    } else {
        i as u8
    }
}

/// Converts one YCbCr 4:4:4 sample to RGB888 with the usual integer formula.
pub fn yuyv444_to_rgb(y: i32, u: i32, v: i32) -> (rgb: [u8; 3])
    requires
        yuv_in_range(y),
        yuv_in_range(u),
        yuv_in_range(v),
    ensures
        rgb == yuv_pixel(y, u, v),
{
    let c298 = (y - 16) * 298;
    let d = u - 128;
    let e = v - 128;
    let r = (c298 + 409 * e + 128) >> 8i32;
    let g = (c298 - 100 * d - 208 * e + 128) >> 8i32;
    let b = (c298 + 516 * d + 128) >> 8i32;
    let rgb = [clamp_255(r), clamp_255(g), clamp_255(b)];
    assert(rgb@ =~= yuv_pixel(y, u, v)@);
    rgb
}

/// Converts a YUYV stream into `dest`, which must hold six bytes for every four input bytes.
pub fn buf_yuyv422_to_rgb(data: &[u8], dest: &mut [u8]) -> (res: Result<(), YuvError>)
    ensures
        data@.len() % 4 != 0 ==> res == Err::<(), YuvError>(YuvError::NotYuv422) && final(dest)@ == old(dest)@,
        data@.len() % 4 == 0 && old(dest)@.len() != (data@.len() / 4) * 6 ==> res == Err::<(), YuvError>(YuvError::WrongDestinationSize)
            && final(dest)@ == old(dest)@,
        data@.len() % 4 == 0 && old(dest)@.len() == (data@.len() / 4) * 6 ==> res is Ok && final(dest)@ == yuyv_rgb_seq(data@),
{
    if data.len() % 4 != 0 {
        return Err(YuvError::NotYuv422);
    }
    let len = data.len();
    let dlen = dest.len();
    let groups = len / 4;
    if dest.len() % 6 != 0 || dest.len() / 6 != groups {
        return Err(YuvError::WrongDestinationSize);
    }
    let mut g: usize = 0;
    while g < groups
        invariant
            groups == data@.len() / 4,
            len == data@.len(),
            dlen == dest@.len(),
            data@.len() % 4 == 0,
            dest@.len() == groups * 6,
            g <= groups,
            forall|k: int| 0 <= k < 6 * g ==> dest@[k] == yuyv_rgb_byte(data@, k),
        decreases groups - g,
    {
        assert(4 * g + 3 < data@.len() && 6 * g + 5 < dest@.len()) by (nonlinear_arith)
            requires
                g < groups,
                groups == data@.len() / 4,
                dest@.len() == groups * 6,
        ;
        let y1 = data[4 * g] as i32;
        let u = data[4 * g + 1] as i32;
        let y2 = data[4 * g + 2] as i32;
        let v = data[4 * g + 3] as i32;
        let p1 = yuyv444_to_rgb(y1, u, v);
        let p2 = yuyv444_to_rgb(y2, u, v);
        let base = 6 * g;
        dest[base] = p1[0];
        dest[base + 1] = p1[1];
        dest[base + 2] = p1[2];
        dest[base + 3] = p2[0];
        dest[base + 4] = p2[1];
        dest[base + 5] = p2[2];
        proof {
            assert forall|k: int| 6 * g <= k < 6 * g + 6 implies dest@[k] == yuyv_rgb_byte(data@, k) by {
                assert(k / 6 == g as int);
            }
        }
        g = g + 1;
    }
    assert(dest@ =~= yuyv_rgb_seq(data@));
    Ok(())
}

/// Converts a YUYV stream to a new RGB888 buffer.
pub fn yuyv422_to_rgb(data: &[u8]) -> (res: Result<Vec<u8>, YuvError>)
    requires
        (data@.len() / 4) * 6 <= usize::MAX,
    ensures
        data@.len() % 4 != 0 <==> res == Err::<Vec<u8>, YuvError>(YuvError::NotYuv422),
        data@.len() % 4 == 0 <==> res is Ok,
        res is Ok ==> res->Ok_0@ == yuyv_rgb_seq(data@),
{
    let rgb_buf_size = (data.len() / 4) * 6;
    let mut dest: Vec<u8> = vec![0u8; rgb_buf_size];
    match buf_yuyv422_to_rgb(data, dest.as_mut_slice()) {
        Ok(()) => Ok(dest),
        Err(e) => Err(e),
    }
}

} // verus!
