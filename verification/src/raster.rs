//! Axis-parallel shapes: runs, filled rectangles, rectangle outlines and
//! vertical gradients.

use vstd::prelude::*;
use crate::framebuffer::{fb_height, fb_set_pixel_enhanced, fb_width, Framebuffer};

verus! {

/// Whether `(i, j)` lies in the rectangle of `w` columns and `h` rows whose
/// top left corner is `(x, y)`.
pub open spec fn in_rect(x: int, y: int, w: int, h: int, i: int, j: int) -> bool {
    x <= i < x + w && y <= j < y + h
}

/// The smaller of a wide bound and a surface dimension.
fn clip(v: u128, limit: usize) -> (c: usize)
    ensures
        c == if v < limit {
            v as int
        } else {
            limit as int
        },
{
    if v < limit as u128 {
        v as usize
    } else {
        limit
    }
}

/// How many steps from `at` stay below both `limit` and `at + len`.
pub(crate) fn room(at: usize, len: usize, limit: usize) -> (n: usize)
    ensures
        n == if at >= limit {
            0
        } else if len < limit - at {
            len as int
        } else {
            limit - at
        },
{
    if at >= limit {
        0
    } else if len < limit - at {
        len
    } else {
        limit - at
    }
}

/// Colours the part of the half-open box `[x_lo, x_hi) x [y_lo, y_hi)` that
/// lies on the surface, row by row, each row as one run.
pub(crate) fn fill_box(
    fb: &mut Framebuffer,
    x_lo: u128,
    y_lo: u128,
    x_hi: u128,
    y_hi: u128,
    color: u8,
)
    requires
        old(fb).wf(),
    ensures
        final(fb).drew_on(old(fb)),
        forall|i: int, j: int| #[trigger]
            final(fb).px(i, j) == if old(fb).inside(i, j) && x_lo <= i < x_hi && y_lo <= j
                < y_hi {
                color
            } else {
                old(fb).px(i, j)
            },
{
    let w: usize = fb_width(fb);
    let h: usize = fb_height(fb);
    let x_from: usize = clip(x_lo, w);
    let x_to: usize = clip(x_hi, w);
    let y_from: usize = clip(y_lo, h);
    let y_to: usize = clip(y_hi, h);
    let mut y: usize = y_from;
    while y < y_to
        invariant
            fb.drew_on(old(fb)),
            w == fb.width(),
            h == fb.height(),
            x_from == (if x_lo < w { x_lo as int } else { w as int }),
            x_to == (if x_hi < w { x_hi as int } else { w as int }),
            y_from == (if y_lo < h { y_lo as int } else { h as int }),
            y_to == (if y_hi < h { y_hi as int } else { h as int }),
            y_from <= y,
            forall|i: int, j: int| #[trigger]
                fb.px(i, j) == if old(fb).inside(i, j) && x_lo <= i < x_hi && y_lo <= j < y_hi
                    && j < y {
                    color
                } else {
                    old(fb).px(i, j)
                },
        decreases y_to - y,
    {
        let mut x: usize = x_from;
        while x < x_to
            invariant
                fb.drew_on(old(fb)),
                w == fb.width(),
                h == fb.height(),
                x_from == (if x_lo < w { x_lo as int } else { w as int }),
                x_to == (if x_hi < w { x_hi as int } else { w as int }),
                y_from == (if y_lo < h { y_lo as int } else { h as int }),
                y_to == (if y_hi < h { y_hi as int } else { h as int }),
                y_from <= y < y_to,
                x_from <= x,
                forall|i: int, j: int| #[trigger]
                    fb.px(i, j) == if old(fb).inside(i, j) && x_lo <= i < x_hi && y_lo <= j
                        < y_hi && (j < y || (j == y && i < x)) {
                        color
                    } else {
                        old(fb).px(i, j)
                    },
            decreases x_to - x,
        {
            fb_set_pixel_enhanced(fb, x, y, color);
            x += 1;
        }
        y += 1;
    }
}

/// Colours the run of `width` pixels that starts at `(x, y)` and goes
/// right, as far as it lies on the surface.
pub fn fb_draw_hline(fb: &mut Framebuffer, x: usize, y: usize, width: usize, color: u8)
    requires
        old(fb).wf(),
    ensures
        final(fb).drew_on(old(fb)),
        forall|i: int, j: int| #[trigger]
            final(fb).px(i, j) == if old(fb).inside(i, j) && j == y && x <= i < x + width {
                color
            } else {
                old(fb).px(i, j)
            },
{
    fill_box(fb, x as u128, y as u128, x as u128 + width as u128, y as u128 + 1, color);
}

/// Colours the run of `height` pixels that starts at `(x, y)` and goes
/// down, as far as it lies on the surface.
pub fn fb_draw_vline(fb: &mut Framebuffer, x: usize, y: usize, height: usize, color: u8)
    requires
        old(fb).wf(),
    ensures
        final(fb).drew_on(old(fb)),
        forall|i: int, j: int| #[trigger]
            final(fb).px(i, j) == if old(fb).inside(i, j) && i == x && y <= j < y + height {
                color
            } else {
                old(fb).px(i, j)
            },
{
    fill_box(fb, x as u128, y as u128, x as u128 + 1, y as u128 + height as u128, color);
}

/// Fills the rectangle of `w` columns and `h` rows whose top left corner is
/// `(x, y)`: its pixels on the surface take `color`, and nothing else
/// changes. With `w` or `h` zero nothing is drawn.
pub fn fb_draw_rect_enhanced(fb: &mut Framebuffer, x: usize, y: usize, w: usize, h: usize, color: u8)
    requires
        old(fb).wf(),
    ensures
        final(fb).drew_on(old(fb)),
        forall|i: int, j: int| #[trigger]
            final(fb).px(i, j) == if old(fb).inside(i, j) && in_rect(
                x as int,
                y as int,
                w as int,
                h as int,
                i,
                j,
            ) {
                color
            } else {
                old(fb).px(i, j)
            },
{
    fill_box(fb, x as u128, y as u128, x as u128 + w as u128, y as u128 + h as u128, color);
}

/// Fills a rectangle; the same operation as [`fb_draw_rect_enhanced`].
pub fn fb_draw_rect(fb: &mut Framebuffer, x: usize, y: usize, w: usize, h: usize, color: u8)
    requires
        old(fb).wf(),
    ensures
        final(fb).drew_on(old(fb)),
        forall|i: int, j: int| #[trigger]
            final(fb).px(i, j) == if old(fb).inside(i, j) && in_rect(
                x as int,
                y as int,
                w as int,
                h as int,
                i,
                j,
            ) {
                color
            } else {
                old(fb).px(i, j)
            },
{
    fb_draw_rect_enhanced(fb, x, y, w, h, color);
}

/// Whether `(i, j)` lies on the outline of the given rectangle: in the
/// rectangle, and fewer than `t` pixels away from one of its four sides.
pub open spec fn on_rect_outline(x: int, y: int, w: int, h: int, t: int, i: int, j: int) -> bool {
    in_rect(x, y, w, h, i, j) && (i - x < t || x + w - 1 - i < t || j - y < t || y + h - 1 - j
        < t)
}

/// A thickness of half the width or half the height saturates: from there
/// on the outline is the whole rectangle, whatever the thickness.
pub proof fn lemma_outline_saturates(x: int, y: int, w: int, h: int, t: int, i: int, j: int)
    requires
        2 * t >= w || 2 * t >= h,
    ensures
        on_rect_outline(x, y, w, h, t, i, j) == in_rect(x, y, w, h, i, j),
{
}

/// Draws the outline of a rectangle, `thickness` pixels wide and inset from
/// each side. A thickness of half the width or half the height, or more,
/// fills the whole rectangle; it never reaches outside it.
pub fn fb_draw_rect_outline(
    fb: &mut Framebuffer,
    x: usize,
    y: usize,
    w: usize,
    h: usize,
    color: u8,
    thickness: usize,
)
    requires
        old(fb).wf(),
    ensures
        final(fb).drew_on(old(fb)),
        forall|i: int, j: int| #[trigger]
            final(fb).px(i, j) == if old(fb).inside(i, j) && on_rect_outline(
                x as int,
                y as int,
                w as int,
                h as int,
                thickness as int,
                i,
                j,
            ) {
                color
            } else {
                old(fb).px(i, j)
            },
{
    let left: u128 = x as u128;
    let top: u128 = y as u128;
    let right: u128 = left + w as u128;
    let bottom: u128 = top + h as u128;
    let tw: u128 = if thickness < w {
        thickness as u128
    } else {
        w as u128
    };
    let th: u128 = if thickness < h {
        thickness as u128
    } else {
        h as u128
    };
    fill_box(fb, left, top, right, top + th, color);
    fill_box(fb, left, bottom - th, right, bottom, color);
    fill_box(fb, left, top, left + tw, bottom, color);
    fill_box(fb, right - tw, top, right, bottom, color);
}

/// The colour of row `r` of a gradient over `h` rows from `start` to `end`:
/// `start` moved toward `end` by `((r * 255 / h) * |end - start|) / 255`,
/// each division rounding down.
pub open spec fn gradient_color(h: int, start: u8, end: u8, r: int) -> int {
    let ratio = (r * 255) / h;
    if start < end {
        start + (ratio * (end - start)) / 255
    } else {
        start - (ratio * (start - end)) / 255
    }
}

/// The colour of one gradient row.
pub fn gradient_row_color(h: usize, start: u8, end: u8, r: usize) -> (c: u8)
    requires
        r < h,
    ensures
        c == gradient_color(h as int, start, end, r as int),
        start <= c <= end || end <= c <= start,
{
    let ratio: u128 = (r as u128 * 255) / (h as u128);
    let diff: u128 = if start < end {
        (end - start) as u128
    } else {
        (start - end) as u128
    };
    proof {
        assert(ratio <= 255) by (nonlinear_arith)
            requires
                ratio == (r * 255) / (h as int),
                0 <= r < h,
        ;
        assert(ratio * diff <= 255 * diff) by (nonlinear_arith)
            requires
                0 <= ratio <= 255,
                0 <= diff,
        ;
        assert(0 <= ratio * diff) by (nonlinear_arith)
            requires
                0 <= ratio,
                0 <= diff,
        ;
    }
    let step: u128 = (ratio * diff) / 255;
    if start < end {
        start + step as u8
    } else {
        start - step as u8
    }
}

/// Fills a rectangle with a vertical gradient: row `r` of the rectangle, from
/// the top, takes `gradient_color(h, start_color, end_color, r)` over its
/// whole width. Colour indices are interpolated as numbers.
pub fn fb_draw_gradient_rect(
    fb: &mut Framebuffer,
    x: usize,
    y: usize,
    w: usize,
    h: usize,
    start_color: u8,
    end_color: u8,
)
    requires
        old(fb).wf(),
    ensures
        final(fb).drew_on(old(fb)),
        forall|i: int, j: int| #[trigger]
            final(fb).px(i, j) as int == if old(fb).inside(i, j) && in_rect(
                x as int,
                y as int,
                w as int,
                h as int,
                i,
                j,
            ) {
                gradient_color(h as int, start_color, end_color, j - y)
            } else {
                old(fb).px(i, j) as int
            },
{
    let rows: usize = fb_height(fb);
    let right: u128 = x as u128 + w as u128;
    let avail: usize = if y < rows {
        rows - y
    } else {
        0
    };
    let mut row: usize = 0;
    while row < h && row < avail
        invariant
            fb.drew_on(old(fb)),
            rows == fb.height(),
            avail == (if y < rows { rows - y } else { 0 }),
            right == x + w,
            row <= h,
            forall|i: int, j: int| #[trigger]
                fb.px(i, j) as int == if old(fb).inside(i, j) && in_rect(
                    x as int,
                    y as int,
                    w as int,
                    h as int,
                    i,
                    j,
                ) && j < y + row {
                    gradient_color(h as int, start_color, end_color, j - y)
                } else {
                    old(fb).px(i, j) as int
                },
        decreases h - row,
    {
        let c: u8 = gradient_row_color(h, start_color, end_color, row);
        let j: u128 = y as u128 + row as u128;
        fill_box(fb, x as u128, j, right, j + 1, c);
        row += 1;
    }
}

} // verus!
