//! Two composed shapes: a button with a centred label and a window frame
//! with a title bar.

use vstd::prelude::*;
use vstd::slice::slice_subrange;
use vstd::string::StringSliceAdditionalSpecFns;
use crate::framebuffer::Framebuffer;
use crate::raster::{fb_draw_rect, fb_draw_rect_outline, in_rect, on_rect_outline};
use crate::text::{draw_text_wide, text_covers};

verus! {

/// The number of bytes of a label that a button of width `w` shows: as
/// many glyphs of eight columns as fit, and no more than the label has.
pub open spec fn button_label_len(text_len: int, w: int) -> int {
    if text_len < w / 8 {
        text_len
    } else {
        w / 8
    }
}

/// The column at which the label of `n` bytes starts, so that it is
/// centred in a button of width `w` at column `x`.
pub open spec fn button_label_x(x: int, w: int, n: int) -> int {
    x + (w - n * 8) / 2
}

/// The row at which the label starts, so that it is centred in a button of
/// height `h` at row `y`. A button lower than a glyph has its label at the
/// top.
pub open spec fn button_label_y(y: int, h: int) -> int {
    if h >= 8 {
        y + (h - 8) / 2
    } else {
        y
    }
}

/// Draws a button: the rectangle filled with `bg_color`, then a border one
/// pixel wide in `border_color`, then the label in `text_color`, cut to
/// the bytes that fit the width and centred.
pub fn fb_draw_button(
    fb: &mut Framebuffer,
    x: usize,
    y: usize,
    w: usize,
    h: usize,
    text: &str,
    bg_color: u8,
    text_color: u8,
    border_color: u8,
)
    requires
        old(fb).wf(),
    ensures
        final(fb).drew_on(old(fb)),
        forall|i: int, j: int| #[trigger]
            final(fb).px(i, j) == if !old(fb).inside(i, j) {
                old(fb).px(i, j)
            } else if text_covers(
                old(fb).width(),
                old(fb).height(),
                button_label_x(
                    x as int,
                    w as int,
                    button_label_len(text.spec_bytes().len() as int, w as int),
                ),
                button_label_y(y as int, h as int),
                text.spec_bytes().subrange(
                    0,
                    button_label_len(text.spec_bytes().len() as int, w as int),
                ),
                button_label_len(text.spec_bytes().len() as int, w as int) as nat,
                i,
                j,
            ) {
                text_color
            } else if on_rect_outline(x as int, y as int, w as int, h as int, 1, i, j) {
                border_color
            } else if in_rect(x as int, y as int, w as int, h as int, i, j) {
                bg_color
            } else {
                old(fb).px(i, j)
            },
{
    fb_draw_rect(fb, x, y, w, h, bg_color);
    fb_draw_rect_outline(fb, x, y, w, h, border_color, 1);
    let bytes: &[u8] = text.as_bytes();
    let n: usize = if bytes.len() < w / 8 {
        bytes.len()
    } else {
        w / 8
    };
    let label: &[u8] = slice_subrange(bytes, 0, n);
    let label_x: u128 = x as u128 + ((w - n * 8) / 2) as u128;
    let label_y: u128 = if h >= 8 {
        y as u128 + ((h - 8) / 2) as u128
    } else {
        y as u128
    };
    draw_text_wide(fb, label_x, label_y, label, text_color);
}

/// Draws a window frame: the rectangle filled with `bg_color`, a title bar
/// of sixteen rows in `title_bg` over its top, a border two pixels wide in
/// `border_color`, and the title in colour 0, four pixels in from the
/// corner.
pub fn fb_draw_window(
    fb: &mut Framebuffer,
    x: usize,
    y: usize,
    w: usize,
    h: usize,
    title: &str,
    bg_color: u8,
    title_bg: u8,
    border_color: u8,
)
    requires
        old(fb).wf(),
    ensures
        final(fb).drew_on(old(fb)),
        forall|i: int, j: int| #[trigger]
            final(fb).px(i, j) == if !old(fb).inside(i, j) {
                old(fb).px(i, j)
            } else if text_covers(
                old(fb).width(),
                old(fb).height(),
                x + 4,
                y + 4,
                title.spec_bytes(),
                title.spec_bytes().len(),
                i,
                j,
            ) {
                0
            } else if on_rect_outline(x as int, y as int, w as int, h as int, 2, i, j) {
                border_color
            } else if in_rect(x as int, y as int, w as int, 16, i, j) {
                title_bg
            } else if in_rect(x as int, y as int, w as int, h as int, i, j) {
                bg_color
            } else {
                old(fb).px(i, j)
            },
{
    fb_draw_rect(fb, x, y, w, h, bg_color);
    fb_draw_rect(fb, x, y, w, 16, title_bg);
    fb_draw_rect_outline(fb, x, y, w, h, border_color, 2);
    draw_text_wide(fb, x as u128 + 4, y as u128 + 4, title.as_bytes(), 0);
}

} // verus!
