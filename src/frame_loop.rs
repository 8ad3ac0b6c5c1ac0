//! Pacing of frame dispatch and the frame-rate policy.
use vstd::prelude::*;
use crate::devices::UsbScreenInfo;
use crate::protocol::{encode_frame, frame_fits, header_seq, lz4_block, u64_be, FramePackets, TransportError, IMAGE_BB, MAX_PAYLOAD};

verus! {

/// The highest frame rate of panels larger than 160x128.
pub const LARGE_PANEL_MAX_FPS: u32 = 12;

/// Milliseconds between dispatched frames; a zero rate never dispatches.
pub open spec fn interval_spec(fps: u32) -> u64 {
    if fps == 0 { u64::MAX } else { (1000u32 / fps) as u64 }
}

pub fn frame_interval_ms(fps: u32) -> (r: u64)
    ensures
        r == interval_spec(fps),
{
    if fps == 0 { u64::MAX } else { (1000u32 / fps) as u64 }
}

/// A frame goes out once at least one interval has passed since the last one.
pub fn should_dispatch(last_ms: Option<u64>, now_ms: u64, fps: u32) -> (r: bool)
    ensures
        r == match last_ms {
            None => true,
            Some(last) => now_ms >= last && now_ms - last >= interval_spec(fps),
        },
{
    match last_ms {
        None => true,
        Some(last) => now_ms >= last && now_ms - last >= frame_interval_ms(fps),
    }
}

/// Larger panels are held to a lower frame rate.
pub fn clamp_fps(width: u32, height: u32, fps: u32) -> (r: u32)
    ensures
        r == (if width > 160 && height > 128 && fps > LARGE_PANEL_MAX_FPS { LARGE_PANEL_MAX_FPS } else { fps }),
{
    if width > 160 && height > 128 && fps > LARGE_PANEL_MAX_FPS { LARGE_PANEL_MAX_FPS } else { fps }
}

/// Prepares a frame for a USB display: a frame larger than the display is
/// dropped (`Ok(None)`), one whose compressed payload is too large is refused
/// with `TooLarge`, anything else is framed for sending.
pub fn prepare_usb_frame(info: &UsbScreenInfo, x: u16, y: u16, width: u32, height: u32, rgb565: &[u8]) -> (r: Result<Option<FramePackets>, TransportError>)
    ensures
        !(width <= info.width && height <= info.height) ==> r == Ok::<Option<FramePackets>, TransportError>(None),
        width <= info.width && height <= info.height ==> {
            &&& lz4_block(rgb565@).len() > MAX_PAYLOAD <==> r == Err::<Option<FramePackets>, TransportError>(TransportError::TooLarge)
            &&& lz4_block(rgb565@).len() <= MAX_PAYLOAD <==> (r is Ok && r->Ok_0 is Some)
            &&& r is Ok ==> r->Ok_0 is Some
                && r->Ok_0->Some_0.header@ == header_seq(width as u16, height as u16, x, y)
                && r->Ok_0->Some_0.payload@ == lz4_block(rgb565@)
                && r->Ok_0->Some_0.footer@ == u64_be(IMAGE_BB)
        },
{
    if !frame_fits(info.width, info.height, width, height) {
        return Ok(None);
    }
    match encode_frame(rgb565, x, y, width as u16, height as u16) {
        Ok(p) => Ok(Some(p)),
        Err(e) => Err(e),
    }
}

/// A `width x height` RGB888 frame of one colour, as sent to clear a display.
pub fn clear_screen(color: [u8; 3], width: u16, height: u16) -> (r: Vec<u8>)
    requires
        width as int * height as int * 3 <= usize::MAX,
    ensures
        r@.len() == width as int * height as int * 3,
        forall|k: int| 0 <= k < r@.len() ==> r@[k] == color[k % 3],
{
    assert(width as int * height as int <= usize::MAX) by (nonlinear_arith)
        requires
            width as int * height as int * 3 <= usize::MAX,
    ;
    let n: usize = width as usize * height as usize;
    let mut r: Vec<u8> = Vec::new();
    let mut i: usize = 0;
    while i < n
        invariant
            n == width as int * height as int,
            n * 3 <= usize::MAX,
            i <= n,
            r@.len() == 3 * i,
            forall|k: int| 0 <= k < r@.len() ==> r@[k] == color[k % 3],
        decreases n - i,
    {
        assert((3 * i as int) % 3 == 0 && (3 * i as int + 1) % 3 == 1 && (3 * i as int + 2) % 3 == 2);
        r.push(color[0]);
        r.push(color[1]);
        r.push(color[2]);
        i = i + 1;
    }
    r
}

} // verus!
