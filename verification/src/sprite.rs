//! Sprites: indexed-colour pictures written as rows of decimal digits, each
//! digit naming an entry of a palette, and animations that pick one picture
//! of a sequence by the frame counter.

use vstd::prelude::*;
use vstd::string::StrSliceExecFns;
use crate::framebuffer::{
    fb_get_frame_counter, fb_height, fb_set_pixel_enhanced, fb_width, Framebuffer,
};
use crate::raster::room;

verus! {

/// How to read sprite rows: at most `width` columns of at most `height`
/// rows, and the digit that stands for a see-through pixel.
#[derive(Clone, Copy)]
pub struct Sprite {
    pub width: usize,
    pub height: usize,
    pub transparent_color: u8,
}

/// One picture of an animation and the time it is meant to be shown.
#[derive(Clone, Copy)]
pub struct AnimationFrame<'a> {
    pub sprite_data: &'a [&'a str],
    pub duration_ms: u32,
}

/// The number of ticks of the frame counter that each animation frame
/// stays on.
pub const FRAME_PACE: u32 = 10;

/// The value of a decimal digit, or `None` for any other character.
pub open spec fn digit_value(ch: char) -> Option<u8> {
    if '0' <= ch <= '9' {
        Some((ch as u32 - '0' as u32) as u8)
    } else {
        None
    }
}

/// Decodes one character of a sprite row.
pub fn decode_digit(ch: char) -> (d: Option<u8>)
    ensures
        d == digit_value(ch),
        d matches Some(v) ==> v <= 9,
{
    let v: u32 = ch as u32;
    if 48 <= v && v <= 57 {
        Some((v - 48) as u8)
    } else {
        None
    }
}

/// The colour that a sprite puts at column `col` of row `row`, counted from
/// its corner, or `None` where it draws nothing: outside the declared size
/// or the rows given, at a character that is no digit, at the see-through
/// digit, and at a digit that the palette has no entry for.
pub open spec fn sprite_color(
    sprite: Sprite,
    data: Seq<&str>,
    colors: Seq<u8>,
    row: int,
    col: int,
) -> Option<u8> {
    if 0 <= row < sprite.height && row < data.len() && 0 <= col < sprite.width && col
        < data[row]@.len() {
        match digit_value(data[row]@[col]) {
            Some(d) => if d != sprite.transparent_color && d < colors.len() {
                Some(colors[d as int])
            } else {
                None
            },
            None => None,
        }
    } else {
        None
    }
}

/// The smaller of two lengths.
fn shorter(a: usize, b: usize) -> (m: usize)
    ensures
        m == if a < b {
            a
        } else {
            b
        },
{
    if a < b {
        a
    } else {
        b
    }
}

/// Draws a sprite with its corner at `(x, y)`: each pixel for which
/// `sprite_color` gives a colour takes it, and nothing else changes. Rows
/// and columns off the surface are skipped.
pub fn fb_draw_sprite_enhanced(
    fb: &mut Framebuffer,
    x: usize,
    y: usize,
    sprite: &Sprite,
    sprite_data: &[&str],
    colors: &[u8],
)
    requires
        old(fb).wf(),
    ensures
        final(fb).drew_on(old(fb)),
        forall|i: int, j: int| #[trigger]
            final(fb).px(i, j) == if old(fb).inside(i, j) && sprite_color(
                *sprite,
                sprite_data@,
                colors@,
                j - y,
                i - x,
            ) is Some {
                sprite_color(*sprite, sprite_data@, colors@, j - y, i - x).unwrap()
            } else {
                old(fb).px(i, j)
            },
{
    let cols: usize = fb_width(fb);
    let rows: usize = fb_height(fb);
    let h_end: usize = room(y, shorter(sprite.height, sprite_data.len()), rows);
    let w_max: usize = room(x, sprite.width, cols);
    let mut r: usize = 0;
    while r < h_end
        invariant
            fb.drew_on(old(fb)),
            cols == fb.width(),
            rows == fb.height(),
            r <= h_end,
            h_end == 0 || (y + h_end <= rows && h_end <= sprite.height && h_end
                <= sprite_data@.len()),
            w_max == 0 || (x + w_max <= cols && w_max <= sprite.width),
            forall|i: int, j: int|
                old(fb).inside(i, j) && (#[trigger] sprite_color(
                    *sprite,
                    sprite_data@,
                    colors@,
                    j - y,
                    i - x,
                )) is Some ==> i - x < w_max && j - y < h_end,
            forall|i: int, j: int| #[trigger]
                fb.px(i, j) == if old(fb).inside(i, j) && j - y < r && sprite_color(
                    *sprite,
                    sprite_data@,
                    colors@,
                    j - y,
                    i - x,
                ) is Some {
                    sprite_color(*sprite, sprite_data@, colors@, j - y, i - x).unwrap()
                } else {
                    old(fb).px(i, j)
                },
        decreases h_end - r,
    {
        let line: &str = sprite_data[r];
        let w_end: usize = shorter(w_max, line.unicode_len());
        let mut c: usize = 0;
        while c < w_end
            invariant
                fb.drew_on(old(fb)),
                cols == fb.width(),
                rows == fb.height(),
                r < h_end,
                c <= w_end,
                line == sprite_data@[r as int],
                w_end == (if w_max < line@.len() { w_max as int } else { line@.len() as int }),
                h_end == 0 || (y + h_end <= rows && h_end <= sprite.height && h_end
                    <= sprite_data@.len()),
                w_max == 0 || (x + w_max <= cols && w_max <= sprite.width),
                forall|i: int, j: int|
                    old(fb).inside(i, j) && (#[trigger] sprite_color(
                        *sprite,
                        sprite_data@,
                        colors@,
                        j - y,
                        i - x,
                    )) is Some ==> i - x < w_max && j - y < h_end,
                forall|i: int, j: int| #[trigger]
                    fb.px(i, j) == if old(fb).inside(i, j) && (j - y < r || (j - y == r && i - x
                        < c)) && sprite_color(*sprite, sprite_data@, colors@, j - y, i - x)
                        is Some {
                        sprite_color(*sprite, sprite_data@, colors@, j - y, i - x).unwrap()
                    } else {
                        old(fb).px(i, j)
                    },
            decreases w_end - c,
        {
            match decode_digit(line.get_char(c)) {
                Some(d) => {
                    if d != sprite.transparent_color && (d as usize) < colors.len() {
                        fb_set_pixel_enhanced(fb, x + c, y + r, colors[d as usize]);
                    }
                },
                None => {},
            }
            c += 1;
        }
        r += 1;
    }
}

/// The descriptor of a sprite without a declared size whose see-through
/// digit is 0.
pub open spec fn plain_sprite() -> Sprite {
    Sprite { width: usize::MAX, height: usize::MAX, transparent_color: 0 }
}

/// Draws a sprite as large as its rows, with digit 0 see-through.
pub fn fb_draw_sprite(fb: &mut Framebuffer, x: usize, y: usize, sprite_data: &[&str], colors: &[u8])
    requires
        old(fb).wf(),
    ensures
        final(fb).drew_on(old(fb)),
        forall|i: int, j: int| #[trigger]
            final(fb).px(i, j) == if old(fb).inside(i, j) && sprite_color(
                plain_sprite(),
                sprite_data@,
                colors@,
                j - y,
                i - x,
            ) is Some {
                sprite_color(plain_sprite(), sprite_data@, colors@, j - y, i - x).unwrap()
            } else {
                old(fb).px(i, j)
            },
{
    let sprite = Sprite { width: usize::MAX, height: usize::MAX, transparent_color: 0 };
    fb_draw_sprite_enhanced(fb, x, y, &sprite, sprite_data, colors);
}

/// The frame of an animation that is on at a tick: frames follow each
/// other every `FRAME_PACE` ticks and start over after the last.
pub open spec fn frame_at(tick: u32, frame_count: int) -> int {
    (tick as int / FRAME_PACE as int) % frame_count
}

/// Picks the frame of an animation of `frame_count` frames for a tick.
pub fn animation_frame_index(tick: u32, frame_count: usize) -> (idx: usize)
    requires
        frame_count > 0,
    ensures
        idx == frame_at(tick, frame_count as int),
        idx < frame_count,
{
    (tick / FRAME_PACE) as usize % frame_count
}

/// Draws the frame of an animation that the frame counter selects, as a
/// sprite with its corner at `(x, y)`. An animation without frames draws
/// nothing. The frame counter is only read.
pub fn fb_draw_animation(
    fb: &mut Framebuffer,
    x: usize,
    y: usize,
    frames: &[AnimationFrame],
    sprite: &Sprite,
    colors: &[u8],
)
    requires
        old(fb).wf(),
    ensures
        final(fb).drew_on(old(fb)),
        frames@.len() == 0 ==> *final(fb) == *old(fb),
        frames@.len() > 0 ==> forall|i: int, j: int| #[trigger]
            final(fb).px(i, j) == if old(fb).inside(i, j) && sprite_color(
                *sprite,
                frames@[frame_at(old(fb).frame_counter(), frames@.len() as int)].sprite_data@,
                colors@,
                j - y,
                i - x,
            ) is Some {
                sprite_color(
                    *sprite,
                    frames@[frame_at(old(fb).frame_counter(), frames@.len() as int)].sprite_data@,
                    colors@,
                    j - y,
                    i - x,
                ).unwrap()
            } else {
                old(fb).px(i, j)
            },
{
    if frames.len() > 0 {
        let idx: usize = animation_frame_index(fb_get_frame_counter(fb), frames.len());
        fb_draw_sprite_enhanced(fb, x, y, sprite, frames[idx].sprite_data, colors);
    }
}

} // verus!
