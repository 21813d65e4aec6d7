//! Monochrome bitmaps and text: bitmaps are drawn as an overlay, set bits in
//! the foreground colour and clear bits left alone; text is laid out glyph
//! by glyph with line breaks and wrapping at the right edge.

use vstd::prelude::*;
use vstd::string::StringSliceAdditionalSpecFns;
use crate::font::{get_font_char, glyph_rows};
use crate::framebuffer::{fb_height, fb_set_pixel_enhanced, fb_width, Framebuffer};
use crate::raster::{fill_box, in_rect, on_rect_outline, room};

verus! {

/// Whether bit number `bit` of `b` is set, bit 0 being the lowest.
pub open spec fn bit_set(b: u8, bit: u8) -> bool {
    b & (1u8 << bit) != 0
}

/// Whether a bitmap of `w` columns has a set pixel at `(col, row)`. Each
/// row takes `(w + 7) / 8` bytes, and within a byte the leftmost pixel is
/// the highest bit. A pixel whose byte lies past the end of the data is
/// clear.
pub open spec fn bitmap_bit(bitmap: Seq<u8>, w: int, row: int, col: int) -> bool {
    let idx = row * ((w + 7) / 8) + col / 8;
    0 <= idx < bitmap.len() && bit_set(bitmap[idx], (7 - col % 8) as u8)
}

/// Tests one pixel of a bitmap.
fn bitmap_test(bitmap: &[u8], w: usize, row: usize, col: usize) -> (hit: bool)
    ensures
        hit == bitmap_bit(bitmap@, w as int, row as int, col as int),
{
    let stride: u128 = (w as u128 + 7) / 8;
    assert(row * stride <= 0xFFFF_FFFF_FFFF_FFFF * 0x2000_0000_0000_0000) by (nonlinear_arith)
        requires
            0 <= row <= 0xFFFF_FFFF_FFFF_FFFF,
            0 <= stride <= 0x2000_0000_0000_0000,
    ;
    assert(0 <= row * stride) by (nonlinear_arith)
        requires
            0 <= row,
            0 <= stride,
    ;
    let idx: u128 = row as u128 * stride + (col / 8) as u128;
    if idx < bitmap.len() as u128 {
        let byte: u8 = bitmap[idx as usize];
        let bit: u8 = 7 - (col % 8) as u8;
        byte & (1u8 << bit) != 0
    } else {
        false
    }
}

/// Draws a bitmap of `w` columns and `h` rows with its top left corner at
/// `(x, y)`: where the bitmap has a set pixel, the surface takes `color`;
/// everywhere else it stays as it was. Rows and columns off the surface are
/// skipped.
pub fn fb_blit_bitmap_enhanced(
    fb: &mut Framebuffer,
    x: usize,
    y: usize,
    w: usize,
    h: usize,
    bitmap: &[u8],
    color: u8,
)
    requires
        old(fb).wf(),
    ensures
        final(fb).drew_on(old(fb)),
        forall|i: int, j: int| #[trigger]
            final(fb).px(i, j) == if old(fb).inside(i, j) && in_rect(
                x as int,
                y as int,
                w as int,
                h as int,
                i,
                j,
            ) && bitmap_bit(bitmap@, w as int, j - y, i - x) {
                color
            } else {
                old(fb).px(i, j)
            },
{
    let cols: usize = fb_width(fb);
    let rows: usize = fb_height(fb);
    let h_end: usize = room(y, h, rows);
    let w_end: usize = room(x, w, cols);
    let mut r: usize = 0;
    while r < h_end
        invariant
            fb.drew_on(old(fb)),
            cols == fb.width(),
            rows == fb.height(),
            r <= h_end,
            h_end == 0 || (y + h_end <= rows && h_end <= h),
            w_end == 0 || (x + w_end <= cols && w_end <= w),
            forall|i: int, j: int|
                old(fb).inside(i, j) && #[trigger] in_rect(
                    x as int,
                    y as int,
                    w as int,
                    h as int,
                    i,
                    j,
                ) ==> i - x < w_end && j - y < h_end,
            forall|i: int, j: int| #[trigger]
                fb.px(i, j) == if old(fb).inside(i, j) && in_rect(
                    x as int,
                    y as int,
                    w as int,
                    h as int,
                    i,
                    j,
                ) && j - y < r && bitmap_bit(bitmap@, w as int, j - y, i - x) {
                    color
                } else {
                    old(fb).px(i, j)
                },
        decreases h_end - r,
    {
        let mut c: usize = 0;
        while c < w_end
            invariant
                fb.drew_on(old(fb)),
                cols == fb.width(),
                rows == fb.height(),
                r < h_end,
                c <= w_end,
                h_end == 0 || (y + h_end <= rows && h_end <= h),
                w_end == 0 || (x + w_end <= cols && w_end <= w),
                forall|i: int, j: int|
                    old(fb).inside(i, j) && #[trigger] in_rect(
                        x as int,
                        y as int,
                        w as int,
                        h as int,
                        i,
                        j,
                    ) ==> i - x < w_end && j - y < h_end,
                forall|i: int, j: int| #[trigger]
                    fb.px(i, j) == if old(fb).inside(i, j) && in_rect(
                        x as int,
                        y as int,
                        w as int,
                        h as int,
                        i,
                        j,
                    ) && (j - y < r || (j - y == r && i - x < c)) && bitmap_bit(
                        bitmap@,
                        w as int,
                        j - y,
                        i - x,
                    ) {
                        color
                    } else {
                        old(fb).px(i, j)
                    },
            decreases w_end - c,
        {
            if bitmap_test(bitmap, w, r, c) {
                fb_set_pixel_enhanced(fb, x + c, y + r, color);
            }
            c += 1;
        }
        r += 1;
    }
}

/// Draws a bitmap; the same operation as [`fb_blit_bitmap_enhanced`].
pub fn fb_blit_bitmap(
    fb: &mut Framebuffer,
    x: usize,
    y: usize,
    w: usize,
    h: usize,
    bitmap: &[u8],
    color: u8,
)
    requires
        old(fb).wf(),
    ensures
        final(fb).drew_on(old(fb)),
        forall|i: int, j: int| #[trigger]
            final(fb).px(i, j) == if old(fb).inside(i, j) && in_rect(
                x as int,
                y as int,
                w as int,
                h as int,
                i,
                j,
            ) && bitmap_bit(bitmap@, w as int, j - y, i - x) {
                color
            } else {
                old(fb).px(i, j)
            },
{
    fb_blit_bitmap_enhanced(fb, x, y, w, h, bitmap, color);
}

/// The text cursor: where the next glyph would go, and whether the layout
/// is still running.
pub struct TextCursor {
    pub x: int,
    pub y: int,
    pub live: bool,
}

/// The cursor one text row further down, back at the starting column. The
/// layout stops when that row lies wholly below a surface of `rows` rows.
pub open spec fn text_next_row(rows: int, x0: int, cur: TextCursor) -> TextCursor {
    TextCursor { x: x0, y: cur.y + 8, live: cur.y + 8 < rows }
}

/// Where a glyph lands when the cursor stands at `cur`: on the next row if
/// the glyph would cross the right edge of a surface of `cols` columns,
/// else at the cursor.
pub open spec fn text_wrap(cols: int, rows: int, x0: int, cur: TextCursor) -> TextCursor {
    if cur.x + 8 > cols {
        text_next_row(rows, x0, cur)
    } else {
        cur
    }
}

/// The cursor after one byte of text. A line feed goes to the next row, a
/// carriage return goes back to the starting column, and any other byte
/// puts its glyph where `text_wrap` says and moves eight columns on. Once
/// the layout has stopped, nothing moves.
pub open spec fn text_step(cols: int, rows: int, x0: int, cur: TextCursor, c: u8) -> TextCursor {
    if !cur.live {
        cur
    } else if c == 0x0A {
        text_next_row(rows, x0, cur)
    } else if c == 0x0D {
        TextCursor { x: x0, y: cur.y, live: true }
    } else {
        let spot = text_wrap(cols, rows, x0, cur);
        if spot.live {
            TextCursor { x: spot.x + 8, y: spot.y, live: true }
        } else {
            spot
        }
    }
}

/// The cursor after the first `k` bytes of `text`, for a layout that
/// starts at `(x0, y0)`.
pub open spec fn text_walk(cols: int, rows: int, x0: int, y0: int, text: Seq<u8>, k: nat)
    -> TextCursor
    decreases k,
{
    if k == 0 {
        TextCursor { x: x0, y: y0, live: true }
    } else {
        text_step(
            cols,
            rows,
            x0,
            text_walk(cols, rows, x0, y0, text, (k - 1) as nat),
            text[k - 1],
        )
    }
}

/// Whether the glyph of byte `c`, met with the cursor at `cur`, has a set
/// pixel at `(i, j)`.
pub open spec fn glyph_covers(
    cols: int,
    rows: int,
    x0: int,
    cur: TextCursor,
    c: u8,
    i: int,
    j: int,
) -> bool {
    let spot = text_wrap(cols, rows, x0, cur);
    &&& cur.live
    &&& c != 0x0A
    &&& c != 0x0D
    &&& spot.live
    &&& in_rect(spot.x, spot.y, 8, 8, i, j)
    &&& bitmap_bit(glyph_rows(c), 8, j - spot.y, i - spot.x)
}

/// Whether one of the first `k` bytes of `text` puts a set glyph pixel at
/// `(i, j)`.
pub open spec fn text_covers(
    cols: int,
    rows: int,
    x0: int,
    y0: int,
    text: Seq<u8>,
    k: nat,
    i: int,
    j: int,
) -> bool
    decreases k,
{
    if k == 0 {
        false
    } else {
        text_covers(cols, rows, x0, y0, text, (k - 1) as nat, i, j) || glyph_covers(
            cols,
            rows,
            x0,
            text_walk(cols, rows, x0, y0, text, (k - 1) as nat),
            text[k - 1],
            i,
            j,
        )
    }
}

/// Once the layout has stopped, the rest of the text draws nothing.
pub proof fn lemma_text_stopped(
    cols: int,
    rows: int,
    x0: int,
    y0: int,
    text: Seq<u8>,
    k: nat,
    n: nat,
    i: int,
    j: int,
)
    requires
        k <= n,
        !text_walk(cols, rows, x0, y0, text, k).live,
    ensures
        !text_walk(cols, rows, x0, y0, text, n).live,
        text_covers(cols, rows, x0, y0, text, n, i, j) == text_covers(
            cols,
            rows,
            x0,
            y0,
            text,
            k,
            i,
            j,
        ),
    decreases n,
{
    if n > k {
        lemma_text_stopped(cols, rows, x0, y0, text, k, (n - 1) as nat, i, j);
    }
}

/// The largest starting coordinate that the wide layout is run on.
pub open spec fn text_limit() -> int {
    0x2_0000_0000_0000_0000
}

/// Lays out text from a starting point of up to 65 bits.
pub(crate) fn draw_text_wide(fb: &mut Framebuffer, x0: u128, y0: u128, text: &[u8], color: u8)
    requires
        old(fb).wf(),
        x0 <= text_limit(),
        y0 <= text_limit(),
    ensures
        final(fb).drew_on(old(fb)),
        forall|i: int, j: int| #[trigger]
            final(fb).px(i, j) == if old(fb).inside(i, j) && text_covers(
                old(fb).width(),
                old(fb).height(),
                x0 as int,
                y0 as int,
                text@,
                text@.len(),
                i,
                j,
            ) {
                color
            } else {
                old(fb).px(i, j)
            },
{
    let cols: usize = fb_width(fb);
    let rows: usize = fb_height(fb);
    let n: usize = text.len();
    let mut x: u128 = x0;
    let mut y: u128 = y0;
    let mut live: bool = true;
    let mut k: usize = 0;
    while k < n && live
        invariant
            fb.drew_on(old(fb)),
            cols == fb.width(),
            rows == fb.height(),
            n == text@.len(),
            k <= n,
            x0 <= text_limit(),
            y0 <= text_limit(),
            x <= x0 + 8 || x <= cols,
            live ==> y <= y0 || y < rows,
            y <= y0 + 8 || y <= rows + 8,
            text_walk(cols as int, rows as int, x0 as int, y0 as int, text@, k as nat) == (
            TextCursor { x: x as int, y: y as int, live }),
            forall|i: int, j: int| #[trigger]
                fb.px(i, j) == if old(fb).inside(i, j) && text_covers(
                    cols as int,
                    rows as int,
                    x0 as int,
                    y0 as int,
                    text@,
                    k as nat,
                    i,
                    j,
                ) {
                    color
                } else {
                    old(fb).px(i, j)
                },
        decreases n - k,
    {
        let c: u8 = text[k];
        if c == 0x0A {
            y += 8;
            x = x0;
            live = y < rows as u128;
        } else if c == 0x0D {
            x = x0;
        } else {
            if x + 8 > cols as u128 {
                y += 8;
                x = x0;
                live = y < rows as u128;
            }
            if live {
                if x < cols as u128 && y < rows as u128 {
                    let glyph: [u8; 8] = get_font_char(c);
                    fb_blit_bitmap_enhanced(fb, x as usize, y as usize, 8, 8, glyph.as_slice(), color);
                }
                x += 8;
            }
        }
        k += 1;
    }
    proof {
        if k < n {
            assert forall|i: int, j: int|
                text_covers(
                    cols as int,
                    rows as int,
                    x0 as int,
                    y0 as int,
                    text@,
                    n as nat,
                    i,
                    j,
                ) == #[trigger] text_covers(
                    cols as int,
                    rows as int,
                    x0 as int,
                    y0 as int,
                    text@,
                    k as nat,
                    i,
                    j,
                ) by {
                lemma_text_stopped(
                    cols as int,
                    rows as int,
                    x0 as int,
                    y0 as int,
                    text@,
                    k as nat,
                    n as nat,
                    i,
                    j,
                );
            }
        }
    }
}

/// Draws text with its first glyph at `(x, y)`, in `color`, as an overlay:
/// only the set pixels of each glyph are written. Glyphs follow each other
/// at a pitch of eight columns. A line feed moves to the next row of eight
/// pixels and back to column `x`; a carriage return moves back to column
/// `x`. A glyph that would cross the right edge goes to the next row
/// first. When a new row would start below the surface the rest of the text
/// is dropped. Bytes without a glyph leave a blank cell.
pub fn fb_draw_text_enhanced(fb: &mut Framebuffer, x: usize, y: usize, text: &str, color: u8)
    requires
        old(fb).wf(),
    ensures
        final(fb).drew_on(old(fb)),
        forall|i: int, j: int| #[trigger]
            final(fb).px(i, j) == if old(fb).inside(i, j) && text_covers(
                old(fb).width(),
                old(fb).height(),
                x as int,
                y as int,
                text.spec_bytes(),
                text.spec_bytes().len(),
                i,
                j,
            ) {
                color
            } else {
                old(fb).px(i, j)
            },
{
    draw_text_wide(fb, x as u128, y as u128, text.as_bytes(), color);
}

/// Draws text; the same operation as [`fb_draw_text_enhanced`].
pub fn fb_draw_text(fb: &mut Framebuffer, x: usize, y: usize, text: &str, color: u8)
    requires
        old(fb).wf(),
    ensures
        final(fb).drew_on(old(fb)),
        forall|i: int, j: int| #[trigger]
            final(fb).px(i, j) == if old(fb).inside(i, j) && text_covers(
                old(fb).width(),
                old(fb).height(),
                x as int,
                y as int,
                text.spec_bytes(),
                text.spec_bytes().len(),
                i,
                j,
            ) {
                color
            } else {
                old(fb).px(i, j)
            },
{
    fb_draw_text_enhanced(fb, x, y, text, color);
}

} // verus!
