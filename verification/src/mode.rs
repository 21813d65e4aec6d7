//! The display modes that the hardware can be put in. The engine reads no
//! more of a mode than its width and height.

use vstd::prelude::*;
use crate::framebuffer::Framebuffer;

verus! {

/// A display mode: its size, its colour depth in bits per pixel, and the
/// number that the hardware knows it by. For a text mode the size is in
/// character cells.
#[derive(Clone, Copy, PartialEq, Eq, Structural, Debug)]
pub struct VideoMode {
    pub width: usize,
    pub height: usize,
    pub bpp: u8,
    pub mode_id: u8,
}

/// The 320 by 200 mode with 256 colours, the one the engine draws in.
pub open spec fn mode_13h() -> VideoMode {
    VideoMode { width: 320, height: 200, bpp: 8, mode_id: 0x13 }
}

/// The 640 by 480 mode with two colours.
pub open spec fn mode_12h() -> VideoMode {
    VideoMode { width: 640, height: 480, bpp: 1, mode_id: 0x12 }
}

/// The text mode of 80 by 25 cells.
pub open spec fn mode_03h() -> VideoMode {
    VideoMode { width: 80, height: 25, bpp: 4, mode_id: 0x03 }
}

/// The modes that are known, the drawing mode first.
pub fn video_modes() -> (modes: [VideoMode; 3])
    ensures
        modes@ == seq![mode_13h(), mode_12h(), mode_03h()],
{
    let modes: [VideoMode; 3] = [
        VideoMode { width: 320, height: 200, bpp: 8, mode_id: 0x13 },
        VideoMode { width: 640, height: 480, bpp: 1, mode_id: 0x12 },
        VideoMode { width: 80, height: 25, bpp: 4, mode_id: 0x03 },
    ];
    assert(modes@ =~= seq![mode_13h(), mode_12h(), mode_03h()]);
    modes
}

/// A rendering context of the size of a mode, or `None` where the mode
/// has more pixels than can be addressed.
pub fn framebuffer_for_mode(mode: &VideoMode) -> (fb: Option<Framebuffer>)
    ensures
        fb.is_some() == (mode.width * mode.height <= usize::MAX),
        fb matches Some(f) ==> {
            &&& f.wf()
            &&& f.width() == mode.width
            &&& f.height() == mode.height
            &&& !f.double_buffered()
            &&& f.frame_counter() == 0
            &&& forall|x: int, y: int| #[trigger] f.visible().pixel(x, y) == 0
            &&& forall|x: int, y: int| #[trigger] f.offscreen().pixel(x, y) == 0
        },
{
    match mode.width.checked_mul(mode.height) {
        Some(_) => Some(Framebuffer::new(mode.width, mode.height)),
        None => None,
    }
}

} // verus!
