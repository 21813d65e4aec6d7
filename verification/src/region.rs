//! Region operations: copying a rectangle of the surface onto another place
//! of the same surface, and scrolling the whole surface up or down.

use vstd::prelude::*;
use crate::framebuffer::{
    fb_clear_enhanced, fb_get_pixel, fb_height, fb_set_pixel_enhanced, fb_width, Framebuffer,
};
use crate::raster::{fill_box, room};

verus! {

/// How the surface looks after scrolling up by `n` rows: each pixel shows
/// what stood `n` rows below it, and where no row stood there, `fill`.
pub open spec fn scrolled_up(before: &Framebuffer, after: &Framebuffer, n: int, fill: u8) -> bool {
    forall|i: int, j: int| #[trigger]
        after.px(i, j) == if !before.inside(i, j) {
            0
        } else if j + n < before.height() {
            before.px(i, j + n)
        } else {
            fill
        }
}

/// How the surface looks after scrolling down by `n` rows: each pixel shows
/// what stood `n` rows above it, and where no row stood there, `fill`.
pub open spec fn scrolled_down(before: &Framebuffer, after: &Framebuffer, n: int, fill: u8) -> bool {
    forall|i: int, j: int| #[trigger]
        after.px(i, j) == if !before.inside(i, j) {
            0
        } else if j >= n {
            before.px(i, j - n)
        } else {
            fill
        }
}

/// Scrolling up by `n` rows and then down by `n` rows, with one fill
/// colour, restores every row but the top `n`, which scrolled off: those
/// hold the fill colour.
pub proof fn lemma_scroll_up_then_down(
    start: &Framebuffer,
    middle: &Framebuffer,
    end: &Framebuffer,
    n: int,
    fill: u8,
)
    requires
        n >= 0,
        middle.drew_on(start),
        scrolled_up(start, middle, n, fill),
        scrolled_down(middle, end, n, fill),
    ensures
        forall|i: int, j: int|
            start.inside(i, j) ==> #[trigger] end.px(i, j) == if j < n {
                fill
            } else {
                start.px(i, j)
            },
{
    assert forall|i: int, j: int| start.inside(i, j) implies #[trigger] end.px(i, j) == if j < n {
        fill
    } else {
        start.px(i, j)
    } by {
        if j >= n {
            assert(middle.px(i, j - n) == start.px(i, j));
        }
    }
}

/// Scrolling down by `n` rows and then up by `n` rows, with one fill
/// colour, restores every row but the bottom `n`, which scrolled off: those
/// hold the fill colour.
pub proof fn lemma_scroll_down_then_up(
    start: &Framebuffer,
    middle: &Framebuffer,
    end: &Framebuffer,
    n: int,
    fill: u8,
)
    requires
        n >= 0,
        middle.drew_on(start),
        scrolled_down(start, middle, n, fill),
        scrolled_up(middle, end, n, fill),
    ensures
        forall|i: int, j: int|
            start.inside(i, j) ==> #[trigger] end.px(i, j) == if j + n >= start.height() {
                fill
            } else {
                start.px(i, j)
            },
{
    assert forall|i: int, j: int| start.inside(i, j) implies #[trigger] end.px(i, j) == if j + n
        >= start.height() {
        fill
    } else {
        start.px(i, j)
    } by {
        if j + n < start.height() {
            assert(middle.px(i, j + n) == start.px(i, j));
        }
    }
}

/// Scrolls the drawing target up by `lines` rows. Row `y` moves to row
/// `y - lines`; the bottom `lines` rows take `fill_color`. With `lines` at
/// least the height, the whole surface takes `fill_color`.
pub fn fb_scroll_up(fb: &mut Framebuffer, lines: usize, fill_color: u8)
    requires
        old(fb).wf(),
    ensures
        final(fb).drew_on(old(fb)),
        scrolled_up(old(fb), final(fb), lines as int, fill_color),
{
    let w: usize = fb_width(fb);
    let h: usize = fb_height(fb);
    if lines >= h {
        fb_clear_enhanced(fb, fill_color);
        return ;
    }
    let mut y: usize = lines;
    while y < h
        invariant
            fb.drew_on(old(fb)),
            w == fb.width(),
            h == fb.height(),
            lines <= y <= h,
            forall|i: int, j: int| #[trigger]
                fb.px(i, j) == if old(fb).inside(i, j) && j < y - lines {
                    old(fb).px(i, j + lines)
                } else {
                    old(fb).px(i, j)
                },
        decreases h - y,
    {
        let mut x: usize = 0;
        while x < w
            invariant
                fb.drew_on(old(fb)),
                w == fb.width(),
                h == fb.height(),
                lines <= y < h,
                x <= w,
                forall|i: int, j: int| #[trigger]
                    fb.px(i, j) == if old(fb).inside(i, j) && (j < y - lines || (j == y - lines
                        && i < x)) {
                        old(fb).px(i, j + lines)
                    } else {
                        old(fb).px(i, j)
                    },
            decreases w - x,
        {
            let c: u8 = fb_get_pixel(fb, x, y);
            fb_set_pixel_enhanced(fb, x, y - lines, c);
            x += 1;
        }
        y += 1;
    }
    fill_box(fb, 0, (h - lines) as u128, w as u128, h as u128, fill_color);
}

/// Scrolls the drawing target down by `lines` rows. Row `y` moves to row
/// `y + lines`, the lowest rows first; the top `lines` rows take
/// `fill_color`. With `lines` at least the height, the whole surface takes
/// `fill_color`.
pub fn fb_scroll_down(fb: &mut Framebuffer, lines: usize, fill_color: u8)
    requires
        old(fb).wf(),
    ensures
        final(fb).drew_on(old(fb)),
        scrolled_down(old(fb), final(fb), lines as int, fill_color),
{
    let w: usize = fb_width(fb);
    let h: usize = fb_height(fb);
    if lines >= h {
        fb_clear_enhanced(fb, fill_color);
        return ;
    }
    let mut y: usize = h - lines;
    while y > 0
        invariant
            fb.drew_on(old(fb)),
            w == fb.width(),
            h == fb.height(),
            lines < h,
            y <= h - lines,
            forall|i: int, j: int| #[trigger]
                fb.px(i, j) == if old(fb).inside(i, j) && j >= y + lines {
                    old(fb).px(i, j - lines)
                } else {
                    old(fb).px(i, j)
                },
        decreases y,
    {
        y -= 1;
        let mut x: usize = 0;
        while x < w
            invariant
                fb.drew_on(old(fb)),
                w == fb.width(),
                h == fb.height(),
                lines < h,
                y < h - lines,
                x <= w,
                forall|i: int, j: int| #[trigger]
                    fb.px(i, j) == if old(fb).inside(i, j) && (j > y + lines || (j == y + lines
                        && i < x)) {
                        old(fb).px(i, j - lines)
                    } else {
                        old(fb).px(i, j)
                    },
            decreases w - x,
        {
            let c: u8 = fb_get_pixel(fb, x, y);
            fb_set_pixel_enhanced(fb, x, y + lines, c);
            x += 1;
        }
    }
    fill_box(fb, 0, 0, w as u128, lines as u128, fill_color);
}

/// The geometry of a copy: a rectangle of `w` columns and `h` rows is read
/// at `(src_x, src_y)` and written at `(dst_x, dst_y)` on a surface of
/// `cols` columns and `rows` rows.
pub struct BlitShape {
    pub cols: int,
    pub rows: int,
    pub src_x: int,
    pub src_y: int,
    pub dst_x: int,
    pub dst_y: int,
    pub w: int,
    pub h: int,
}

impl BlitShape {
    /// Whether the copy writes `(i, j)`: the pixel lies in the destination
    /// rectangle and on the surface, and so does the pixel it is read from.
    pub open spec fn writes(&self, i: int, j: int) -> bool {
        &&& self.dst_x <= i < self.dst_x + self.w
        &&& self.dst_y <= j < self.dst_y + self.h
        &&& 0 <= i < self.cols
        &&& 0 <= j < self.rows
        &&& 0 <= i - self.dst_x + self.src_x < self.cols
        &&& 0 <= j - self.dst_y + self.src_y < self.rows
    }

    /// Whether the copy, which runs row by row from the top left, reaches a
    /// pixel as a destination before it reaches it as a source: the
    /// destination lies below the source, or in the same row to its right.
    pub open spec fn smears(&self) -> bool {
        self.dst_y > self.src_y || (self.dst_y == self.src_y && self.dst_x > self.src_x)
    }

    /// The pixel of the surface before the copy whose colour `(i, j)` shows
    /// after it. A pixel that is not written shows itself. A written pixel
    /// shows its source, and where the source was itself overwritten before
    /// it was read, what the source shows.
    pub open spec fn origin(&self, i: int, j: int) -> (int, int)
        decreases j, i,
    {
        if !self.writes(i, j) {
            (i, j)
        } else if self.smears() {
            self.origin(i - self.dst_x + self.src_x, j - self.dst_y + self.src_y)
        } else {
            (i - self.dst_x + self.src_x, j - self.dst_y + self.src_y)
        }
    }
}

/// Where the two rectangles do not get in each other's way, the copy is
/// plain: a written pixel whose source is not itself written shows the
/// old colour of its source.
pub proof fn lemma_blit_plain(shape: BlitShape, i: int, j: int)
    requires
        shape.writes(i, j),
        !shape.writes(i - shape.dst_x + shape.src_x, j - shape.dst_y + shape.src_y),
    ensures
        shape.origin(i, j) == (i - shape.dst_x + shape.src_x, j - shape.dst_y + shape.src_y),
{
    reveal_with_fuel(BlitShape::origin, 2);
}

/// A copy toward the top or the left never reads a pixel that it has
/// written: every written pixel shows the old colour of its source.
pub proof fn lemma_blit_backward(shape: BlitShape, i: int, j: int)
    requires
        shape.writes(i, j),
        !shape.smears(),
    ensures
        shape.origin(i, j) == (i - shape.dst_x + shape.src_x, j - shape.dst_y + shape.src_y),
{
}

/// The shape of a copy on the given context.
pub open spec fn blit_shape(
    fb: &Framebuffer,
    src_x: usize,
    src_y: usize,
    dst_x: usize,
    dst_y: usize,
    w: usize,
    h: usize,
) -> BlitShape {
    BlitShape {
        cols: fb.width(),
        rows: fb.height(),
        src_x: src_x as int,
        src_y: src_y as int,
        dst_x: dst_x as int,
        dst_y: dst_y as int,
        w: w as int,
        h: h as int,
    }
}

/// Copies the rectangle of `w` columns and `h` rows at `(src_x, src_y)` to
/// `(dst_x, dst_y)`, row by row from the top and left to right within a
/// row. A pixel is copied only where both it and its destination lie on the
/// surface. Where the two rectangles overlap, a pixel that was overwritten
/// before it is read passes on its new colour; `BlitShape::origin` says
/// which pixel of the old surface each pixel of the new one shows.
pub fn fb_blit(
    fb: &mut Framebuffer,
    src_x: usize,
    src_y: usize,
    dst_x: usize,
    dst_y: usize,
    w: usize,
    h: usize,
)
    requires
        old(fb).wf(),
    ensures
        final(fb).drew_on(old(fb)),
        forall|i: int, j: int| #[trigger]
            final(fb).px(i, j) == old(fb).px(
                blit_shape(old(fb), src_x, src_y, dst_x, dst_y, w, h).origin(i, j).0,
                blit_shape(old(fb), src_x, src_y, dst_x, dst_y, w, h).origin(i, j).1,
            ),
{
    let cols: usize = fb_width(fb);
    let rows: usize = fb_height(fb);
    let ghost shape = blit_shape(old(fb), src_x, src_y, dst_x, dst_y, w, h);
    let h1: usize = room(src_y, h, rows);
    let h_end: usize = room(dst_y, h1, rows);
    let w1: usize = room(src_x, w, cols);
    let w_end: usize = room(dst_x, w1, cols);
    let mut b: usize = 0;
    while b < h_end
        invariant
            fb.drew_on(old(fb)),
            cols == fb.width(),
            rows == fb.height(),
            shape == blit_shape(old(fb), src_x, src_y, dst_x, dst_y, w, h),
            b <= h_end,
            h_end == 0 || (src_y + h_end <= rows && dst_y + h_end <= rows && h_end <= h),
            w_end == 0 || (src_x + w_end <= cols && dst_x + w_end <= cols && w_end <= w),
            forall|i: int, j: int| shape.writes(i, j) ==> i - dst_x < w_end && j - dst_y < h_end,
            forall|i: int, j: int| #[trigger]
                fb.px(i, j) == if shape.writes(i, j) && j - dst_y < b {
                    old(fb).px(shape.origin(i, j).0, shape.origin(i, j).1)
                } else {
                    old(fb).px(i, j)
                },
        decreases h_end - b,
    {
        let mut a: usize = 0;
        while a < w_end
            invariant
                fb.drew_on(old(fb)),
                cols == fb.width(),
                rows == fb.height(),
                shape == blit_shape(old(fb), src_x, src_y, dst_x, dst_y, w, h),
                b < h_end,
                a <= w_end,
                h_end == 0 || (src_y + h_end <= rows && dst_y + h_end <= rows && h_end <= h),
                w_end == 0 || (src_x + w_end <= cols && dst_x + w_end <= cols && w_end <= w),
                forall|i: int, j: int|
                    shape.writes(i, j) ==> i - dst_x < w_end && j - dst_y < h_end,
                forall|i: int, j: int| #[trigger]
                    fb.px(i, j) == if shape.writes(i, j) && (j - dst_y < b || (j - dst_y == b
                        && i - dst_x < a)) {
                        old(fb).px(shape.origin(i, j).0, shape.origin(i, j).1)
                    } else {
                        old(fb).px(i, j)
                    },
            decreases w_end - a,
        {
            let c: u8 = fb_get_pixel(fb, src_x + a, src_y + b);
            proof {
                let pi = src_x + a;
                let pj = src_y + b;
                let qi = dst_x + a;
                let qj = dst_y + b;
                assert(shape.writes(qi, qj));
                assert(c == old(fb).px(shape.origin(qi, qj).0, shape.origin(qi, qj).1)) by {
                    assert(c == fb.px(pi, pj));
                    if shape.smears() {
                        assert(shape.origin(qi, qj) == shape.origin(pi, pj));
                    } else {
                        assert(shape.origin(qi, qj) == (pi, pj));
                    }
                }
            }
            fb_set_pixel_enhanced(fb, dst_x + a, dst_y + b, c);
            a += 1;
        }
        b += 1;
    }
}

} // verus!
