//! The buffer manager: a visible surface, an off-screen surface, and the flag
//! that decides which of the two drawing lands on.

use vstd::prelude::*;
use crate::surface::PixelSurface;

verus! {

/// The rendering context. It owns both surfaces, the double-buffering flag
/// and the frame counter that paces animations.
pub struct Framebuffer {
    front: PixelSurface,
    back: PixelSurface,
    double_buffered: bool,
    ticks: u32,
}

impl Framebuffer {
    /// The surface that the display shows.
    pub closed spec fn visible(&self) -> PixelSurface {
        self.front
    }

    /// The surface that collects a frame while double buffering is on.
    pub closed spec fn offscreen(&self) -> PixelSurface {
        self.back
    }

    /// Whether drawing lands on the off-screen surface.
    pub closed spec fn double_buffered(&self) -> bool {
        self.double_buffered
    }

    /// The number of frames counted so far, modulo 2^32.
    pub closed spec fn frame_counter(&self) -> u32 {
        self.ticks
    }

    /// Both surfaces are well formed and of one size.
    pub open spec fn wf(&self) -> bool {
        &&& self.visible().wf()
        &&& self.offscreen().wf()
        &&& self.visible().same_size(&self.offscreen())
    }

    /// The surface that drawing lands on.
    pub open spec fn target(&self) -> PixelSurface {
        if self.double_buffered() {
            self.offscreen()
        } else {
            self.visible()
        }
    }

    /// The number of columns of either surface.
    pub open spec fn width(&self) -> int {
        self.visible().width() as int
    }

    /// The number of rows of either surface.
    pub open spec fn height(&self) -> int {
        self.visible().height() as int
    }

    /// Whether `(x, y)` names a pixel of the surfaces.
    pub open spec fn inside(&self, x: int, y: int) -> bool {
        0 <= x < self.width() && 0 <= y < self.height()
    }

    /// The colour of the drawing target at `(x, y)`, 0 outside the surface.
    pub open spec fn px(&self, x: int, y: int) -> u8 {
        self.target().pixel(x, y)
    }

    /// What every drawing routine leaves alone: the size, the buffering
    /// flag, the frame counter, and the surface that is not the target. With
    /// double buffering on, that is the visible surface.
    pub open spec fn drew_on(&self, before: &Framebuffer) -> bool {
        &&& self.wf()
        &&& self.width() == before.width()
        &&& self.height() == before.height()
        &&& self.double_buffered() == before.double_buffered()
        &&& self.frame_counter() == before.frame_counter()
        &&& before.double_buffered() ==> self.visible() == before.visible()
        &&& !before.double_buffered() ==> self.offscreen() == before.offscreen()
    }

    /// A context of the given size: both surfaces all 0, double buffering
    /// off, the frame counter at 0.
    pub fn new(width: usize, height: usize) -> (fb: Framebuffer)
        requires
            width * height <= usize::MAX,
        ensures
            fb.wf(),
            fb.width() == width,
            fb.height() == height,
            !fb.double_buffered(),
            fb.frame_counter() == 0,
            forall|x: int, y: int| #[trigger] fb.visible().pixel(x, y) == 0,
            forall|x: int, y: int| #[trigger] fb.offscreen().pixel(x, y) == 0,
    {
        Framebuffer {
            front: PixelSurface::new(width, height),
            back: PixelSurface::new(width, height),
            double_buffered: false,
            ticks: 0,
        }
    }
}

/// While double buffering is on, drawing stays hidden: whatever a drawing
/// routine does to the context, every pixel of the visible surface is what
/// it was, and the drawing shows on the off-screen surface alone.
pub proof fn lemma_drawing_is_hidden(before: &Framebuffer, after: &Framebuffer)
    requires
        before.double_buffered(),
        after.drew_on(before),
    ensures
        after.visible() == before.visible(),
        forall|x: int, y: int| after.visible().pixel(x, y) == before.visible().pixel(x, y),
        forall|x: int, y: int| #[trigger] after.px(x, y) == after.offscreen().pixel(x, y),
{
}

/// The number of columns.
pub fn fb_width(fb: &Framebuffer) -> (w: usize)
    ensures
        w == fb.width(),
{
    fb.front.width()
}

/// The number of rows.
pub fn fb_height(fb: &Framebuffer) -> (h: usize)
    ensures
        h == fb.height(),
{
    fb.front.height()
}

/// Whether double buffering is on.
pub fn fb_is_double_buffered(fb: &Framebuffer) -> (on: bool)
    ensures
        on == fb.double_buffered(),
{
    fb.double_buffered
}

/// Turns double buffering on or off. Turning it on zeroes the off-screen
/// surface; turning it off leaves both surfaces as they are. The visible
/// surface never changes here.
pub fn fb_enable_double_buffer(fb: &mut Framebuffer, enable: bool)
    requires
        old(fb).wf(),
    ensures
        final(fb).wf(),
        final(fb).width() == old(fb).width(),
        final(fb).height() == old(fb).height(),
        final(fb).double_buffered() == enable,
        final(fb).frame_counter() == old(fb).frame_counter(),
        final(fb).visible() == old(fb).visible(),
        enable ==> forall|x: int, y: int| #[trigger] final(fb).offscreen().pixel(x, y) == 0,
        !enable ==> final(fb).offscreen() == old(fb).offscreen(),
{
    fb.double_buffered = enable;
    if enable {
        fb.back.fill(0);
    }
}

/// The surface that drawing currently lands on.
pub fn get_draw_buffer(fb: &Framebuffer) -> (s: &PixelSurface)
    ensures
        *s == fb.target(),
{
    if fb.double_buffered {
        &fb.back
    } else {
        &fb.front
    }
}

/// The visible surface, whatever the buffering mode.
pub fn fb_visible(fb: &Framebuffer) -> (s: &PixelSurface)
    ensures
        *s == fb.visible(),
{
    &fb.front
}

/// Presents the frame. With double buffering on, the visible surface becomes
/// a copy of the off-screen one, made in storage order; with it off, nothing
/// changes. The off-screen surface is only read.
pub fn fb_swap_buffers(fb: &mut Framebuffer)
    requires
        old(fb).wf(),
    ensures
        final(fb).wf(),
        final(fb).width() == old(fb).width(),
        final(fb).height() == old(fb).height(),
        final(fb).double_buffered() == old(fb).double_buffered(),
        final(fb).frame_counter() == old(fb).frame_counter(),
        final(fb).offscreen() == old(fb).offscreen(),
        !old(fb).double_buffered() ==> *final(fb) == *old(fb),
        old(fb).double_buffered() ==> final(fb).visible()@ == old(fb).offscreen()@,
        old(fb).double_buffered() ==> forall|x: int, y: int| #[trigger]
            final(fb).visible().pixel(x, y) == old(fb).offscreen().pixel(x, y),
{
    if fb.double_buffered {
        fb.front.copy_from(&fb.back);
    }
}

/// Writes `color` at `(x, y)` of the drawing target. A coordinate outside
/// the surface is dropped: the context is left exactly as it was.
pub fn fb_set_pixel_enhanced(fb: &mut Framebuffer, x: usize, y: usize, color: u8)
    requires
        old(fb).wf(),
    ensures
        final(fb).drew_on(old(fb)),
        forall|i: int, j: int| #[trigger]
            final(fb).px(i, j) == if i == x && j == y && old(fb).inside(i, j) {
                color
            } else {
                old(fb).px(i, j)
            },
        !old(fb).inside(x as int, y as int) ==> *final(fb) == *old(fb),
{
    if fb.double_buffered {
        fb.back.set(x, y, color);
    } else {
        fb.front.set(x, y, color);
    }
}

/// Writes `color` at `(x, y)` of the drawing target; the same operation as
/// [`fb_set_pixel_enhanced`].
pub fn fb_set_pixel(fb: &mut Framebuffer, x: usize, y: usize, color: u8)
    requires
        old(fb).wf(),
    ensures
        final(fb).drew_on(old(fb)),
        forall|i: int, j: int| #[trigger]
            final(fb).px(i, j) == if i == x && j == y && old(fb).inside(i, j) {
                color
            } else {
                old(fb).px(i, j)
            },
        !old(fb).inside(x as int, y as int) ==> *final(fb) == *old(fb),
{
    fb_set_pixel_enhanced(fb, x, y, color);
}

/// Writes `color` at a signed coordinate of the drawing target, or nothing
/// where the coordinate is off the surface.
pub(crate) fn plot_wide(fb: &mut Framebuffer, x: i128, y: i128, color: u8)
    requires
        old(fb).wf(),
    ensures
        final(fb).drew_on(old(fb)),
        forall|i: int, j: int| #[trigger]
            final(fb).px(i, j) == if i == x && j == y && old(fb).inside(i, j) {
                color
            } else {
                old(fb).px(i, j)
            },
{
    if 0 <= x && 0 <= y {
        let w: usize = fb_width(fb);
        let h: usize = fb_height(fb);
        if x < w as i128 && y < h as i128 {
            fb_set_pixel_enhanced(fb, x as usize, y as usize, color);
        }
    }
}

/// Reads the drawing target at `(x, y)`; outside the surface the result is 0.
pub fn fb_get_pixel(fb: &Framebuffer, x: usize, y: usize) -> (c: u8)
    requires
        fb.wf(),
    ensures
        c == fb.px(x as int, y as int),
        !fb.inside(x as int, y as int) ==> c == 0,
{
    if fb.double_buffered {
        fb.back.get(x, y)
    } else {
        fb.front.get(x, y)
    }
}

/// Writes `color` to every pixel of the drawing target.
pub fn fb_clear_enhanced(fb: &mut Framebuffer, color: u8)
    requires
        old(fb).wf(),
    ensures
        final(fb).drew_on(old(fb)),
        forall|i: int, j: int| #[trigger]
            final(fb).px(i, j) == if old(fb).inside(i, j) {
                color
            } else {
                0
            },
{
    if fb.double_buffered {
        fb.back.fill(color);
    } else {
        fb.front.fill(color);
    }
}

/// Writes `color` to every pixel of the drawing target; the same operation
/// as [`fb_clear_enhanced`].
pub fn fb_clear(fb: &mut Framebuffer, color: u8)
    requires
        old(fb).wf(),
    ensures
        final(fb).drew_on(old(fb)),
        forall|i: int, j: int| #[trigger]
            final(fb).px(i, j) == if old(fb).inside(i, j) {
                color
            } else {
                0
            },
{
    fb_clear_enhanced(fb, color);
}

/// Counts one more frame. The counter wraps from 2^32 - 1 to 0. No pixel
/// changes.
pub fn fb_update_frame_counter(fb: &mut Framebuffer)
    ensures
        final(fb).frame_counter() as int == (old(fb).frame_counter() + 1) % 0x1_0000_0000,
        final(fb).visible() == old(fb).visible(),
        final(fb).offscreen() == old(fb).offscreen(),
        final(fb).double_buffered() == old(fb).double_buffered(),
{
    fb.ticks = fb.ticks.wrapping_add(1);
}

/// The number of frames counted so far.
pub fn fb_get_frame_counter(fb: &Framebuffer) -> (t: u32)
    ensures
        t == fb.frame_counter(),
{
    fb.ticks
}

} // verus!
