use kernel_gfx::{
    fb_blit_bitmap, fb_blit_bitmap_enhanced, fb_clear, fb_draw_button, fb_draw_text,
    fb_draw_text_enhanced, fb_draw_window, fb_enable_double_buffer, fb_get_pixel, fb_height,
    fb_visible, fb_width, get_font_char, Framebuffer,
};

fn grid(fb: &Framebuffer) -> Vec<Vec<u8>> {
    let mut out = Vec::new();
    for y in 0..fb_height(fb) {
        let mut row = Vec::new();
        for x in 0..fb_width(fb) {
            row.push(fb_get_pixel(fb, x, y));
        }
        out.push(row);
    }
    out
}

fn stamp(canvas: &mut Vec<Vec<u8>>, x: usize, y: usize, c: u8, color: u8) {
    let rows = get_font_char(c);
    for r in 0..8 {
        for col in 0..8 {
            if rows[r] & (0x80 >> col) != 0 && y + r < canvas.len() && x + col < canvas[0].len() {
                canvas[y + r][x + col] = color;
            }
        }
    }
}

fn paint(canvas: &mut Vec<Vec<u8>>, x: usize, y: usize, w: usize, h: usize, color: u8) {
    for j in y..y + h {
        for i in x..x + w {
            if j < canvas.len() && i < canvas[0].len() {
                canvas[j][i] = color;
            }
        }
    }
}

#[test]
fn font_has_the_letter_a() {
    assert_eq!(get_font_char(b'A'), [0x30, 0x78, 0xCC, 0xCC, 0xFC, 0xCC, 0xCC, 0x00]);
    assert_eq!(get_font_char(b'z'), [0x00, 0x00, 0xFC, 0x98, 0x30, 0x64, 0xFC, 0x00]);
    assert_eq!(get_font_char(b'0'), [0x7C, 0xC6, 0xCE, 0xDE, 0xF6, 0xE6, 0x7C, 0x00]);
    assert_eq!(get_font_char(b'@'), [0x7C, 0xC6, 0xDE, 0xDE, 0xDE, 0xC0, 0x78, 0x00]);
    assert_eq!(get_font_char(b'!'), [0x30, 0x78, 0x78, 0x30, 0x30, 0x00, 0x30, 0x00]);
}

#[test]
fn font_is_blank_for_unmapped_bytes() {
    for c in [0u8, 9, 10, 13, 31, b' ', b'[', b'\\', b']', b'^', b'_', b'`', b'{', b'~', 127, 128, 255] {
        assert_eq!(get_font_char(c), [0u8; 8]);
    }
}

#[test]
fn font_has_a_glyph_for_every_letter_and_digit() {
    for c in (b'a'..=b'z').chain(b'A'..=b'Z').chain(b'0'..=b'9') {
        assert_ne!(get_font_char(c), [0u8; 8]);
    }
}

#[test]
fn bitmap_sets_only_the_set_bits() {
    let mut fb = Framebuffer::new(10, 4);
    fb_clear(&mut fb, 1);
    fb_blit_bitmap(&mut fb, 1, 1, 8, 2, &[0b1010_0001, 0b0000_1111], 7);
    assert_eq!(
        grid(&fb),
        vec![
            vec![1, 1, 1, 1, 1, 1, 1, 1, 1, 1],
            vec![1, 7, 1, 7, 1, 1, 1, 1, 7, 1],
            vec![1, 1, 1, 1, 1, 7, 7, 7, 7, 1],
            vec![1, 1, 1, 1, 1, 1, 1, 1, 1, 1],
        ]
    );
}

#[test]
fn bitmap_rows_take_whole_bytes() {
    let mut fb = Framebuffer::new(12, 3);
    fb_blit_bitmap_enhanced(&mut fb, 0, 0, 10, 2, &[0xFF, 0xFF, 0x01, 0x40], 7);
    assert_eq!(
        grid(&fb),
        vec![
            vec![7, 7, 7, 7, 7, 7, 7, 7, 7, 7, 0, 0],
            vec![0, 0, 0, 0, 0, 0, 0, 7, 0, 7, 0, 0],
            vec![0, 0, 0, 0, 0, 0, 0, 0, 0, 0, 0, 0],
        ]
    );
}

#[test]
fn bitmap_shorter_than_its_size_is_clear_past_the_data() {
    let mut fb = Framebuffer::new(8, 3);
    fb_blit_bitmap(&mut fb, 0, 0, 8, 3, &[0xFF], 7);
    assert_eq!(grid(&fb), vec![vec![7u8; 8], vec![0u8; 8], vec![0u8; 8]]);
    let mut fb = Framebuffer::new(8, 3);
    fb_blit_bitmap(&mut fb, 0, 0, 8, 3, &[], 7);
    fb_blit_bitmap(&mut fb, 0, 0, usize::MAX, usize::MAX, &[0x00, 0x00], 7);
    assert_eq!(grid(&fb), vec![vec![0u8; 8]; 3]);
}

#[test]
fn bitmap_is_clipped_at_the_edges() {
    let mut fb = Framebuffer::new(4, 2);
    fb_blit_bitmap_enhanced(&mut fb, 2, 1, 8, 8, &[0xFF; 8], 7);
    assert_eq!(grid(&fb), vec![vec![0, 0, 0, 0], vec![0, 0, 7, 7]]);
    fb_blit_bitmap_enhanced(&mut fb, 4, 0, 8, 8, &[0xFF; 8], 9);
    fb_blit_bitmap_enhanced(&mut fb, 0, 2, 8, 8, &[0xFF; 8], 9);
    assert_eq!(grid(&fb), vec![vec![0, 0, 0, 0], vec![0, 0, 7, 7]]);
}

#[test]
fn text_is_an_overlay_at_a_pitch_of_eight() {
    let mut fb = Framebuffer::new(40, 10);
    fb_clear(&mut fb, 2);
    fb_draw_text(&mut fb, 3, 1, "Hi!", 15);
    let mut want = vec![vec![2u8; 40]; 10];
    stamp(&mut want, 3, 1, b'H', 15);
    stamp(&mut want, 11, 1, b'i', 15);
    stamp(&mut want, 19, 1, b'!', 15);
    assert_eq!(grid(&fb), want);
    assert_eq!(fb_get_pixel(&fb, 3, 1), 15);
    assert_eq!(fb_get_pixel(&fb, 5, 1), 2);
}

#[test]
fn text_wraps_when_a_glyph_would_cross_the_right_edge() {
    let mut fb = Framebuffer::new(40, 24);
    fb_draw_text_enhanced(&mut fb, 0, 0, "ABCDEF", 5);
    let mut want = vec![vec![0u8; 40]; 24];
    stamp(&mut want, 0, 0, b'A', 5);
    stamp(&mut want, 8, 0, b'B', 5);
    stamp(&mut want, 16, 0, b'C', 5);
    stamp(&mut want, 24, 0, b'D', 5);
    stamp(&mut want, 32, 0, b'E', 5);
    stamp(&mut want, 0, 8, b'F', 5);
    assert_eq!(grid(&fb), want);
}

#[test]
fn text_wraps_back_to_the_starting_column() {
    let mut fb = Framebuffer::new(30, 24);
    fb_draw_text_enhanced(&mut fb, 10, 2, "ABCD", 5);
    let mut want = vec![vec![0u8; 30]; 24];
    stamp(&mut want, 10, 2, b'A', 5);
    stamp(&mut want, 18, 2, b'B', 5);
    stamp(&mut want, 10, 10, b'C', 5);
    stamp(&mut want, 18, 10, b'D', 5);
    assert_eq!(grid(&fb), want);
}

#[test]
fn line_feed_starts_a_new_row_at_the_starting_column() {
    let mut fb = Framebuffer::new(40, 24);
    fb_draw_text(&mut fb, 3, 2, "AB\nC\n\nD", 5);
    let mut want = vec![vec![0u8; 40]; 24];
    stamp(&mut want, 3, 2, b'A', 5);
    stamp(&mut want, 11, 2, b'B', 5);
    stamp(&mut want, 3, 10, b'C', 5);
    assert_eq!(grid(&fb), want);
    let mut fb = Framebuffer::new(40, 27);
    fb_draw_text(&mut fb, 3, 2, "AB\nC\n\nD", 5);
    let mut want = vec![vec![0u8; 40]; 27];
    stamp(&mut want, 3, 2, b'A', 5);
    stamp(&mut want, 11, 2, b'B', 5);
    stamp(&mut want, 3, 10, b'C', 5);
    stamp(&mut want, 3, 26, b'D', 5);
    assert_eq!(grid(&fb), want);
}

#[test]
fn carriage_return_goes_back_to_the_starting_column() {
    let mut fb = Framebuffer::new(40, 12);
    fb_draw_text(&mut fb, 4, 0, "AB\rC", 5);
    let mut want = vec![vec![0u8; 40]; 12];
    stamp(&mut want, 4, 0, b'A', 5);
    stamp(&mut want, 12, 0, b'B', 5);
    stamp(&mut want, 4, 0, b'C', 5);
    assert_eq!(grid(&fb), want);
}

#[test]
fn text_stops_when_a_row_would_start_below_the_surface() {
    let mut fb = Framebuffer::new(16, 16);
    fb_draw_text(&mut fb, 0, 0, "ABCDEFGH", 5);
    let mut want = vec![vec![0u8; 16]; 16];
    stamp(&mut want, 0, 0, b'A', 5);
    stamp(&mut want, 8, 0, b'B', 5);
    stamp(&mut want, 0, 8, b'C', 5);
    stamp(&mut want, 8, 8, b'D', 5);
    assert_eq!(grid(&fb), want);
}

#[test]
fn text_after_the_stop_is_dropped() {
    let mut fb = Framebuffer::new(16, 8);
    fb_draw_text(&mut fb, 0, 0, "A\nB\rC", 5);
    let mut want = vec![vec![0u8; 16]; 8];
    stamp(&mut want, 0, 0, b'A', 5);
    assert_eq!(grid(&fb), want);
}

#[test]
fn last_text_row_is_clipped_at_the_bottom() {
    let mut fb = Framebuffer::new(16, 12);
    fb_draw_text(&mut fb, 0, 0, "ABCD", 5);
    let mut want = vec![vec![0u8; 16]; 12];
    stamp(&mut want, 0, 0, b'A', 5);
    stamp(&mut want, 8, 0, b'B', 5);
    stamp(&mut want, 0, 8, b'C', 5);
    stamp(&mut want, 8, 8, b'D', 5);
    assert_eq!(grid(&fb), want);
    assert_eq!(fb_get_pixel(&fb, 2, 8), 5);
}

#[test]
fn text_starting_past_the_right_edge_wraps_every_glyph() {
    let mut fb = Framebuffer::new(12, 24);
    fb_draw_text(&mut fb, 6, 0, "HHH", 5);
    let mut want = vec![vec![0u8; 12]; 24];
    stamp(&mut want, 6, 8, b'H', 5);
    stamp(&mut want, 6, 16, b'H', 5);
    assert_eq!(grid(&fb), want);
    assert_eq!(fb_get_pixel(&fb, 6, 8), 5);
}

#[test]
fn unmapped_bytes_take_a_blank_cell() {
    let mut fb = Framebuffer::new(40, 8);
    fb_draw_text(&mut fb, 0, 0, "A[~\tB", 5);
    let mut want = vec![vec![0u8; 40]; 8];
    stamp(&mut want, 0, 0, b'A', 5);
    stamp(&mut want, 32, 0, b'B', 5);
    assert_eq!(grid(&fb), want);
}

#[test]
fn empty_text_draws_nothing() {
    let mut fb = Framebuffer::new(8, 8);
    fb_draw_text(&mut fb, 0, 0, "", 5);
    assert_eq!(grid(&fb), vec![vec![0u8; 8]; 8]);
}

#[test]
fn text_far_off_the_surface_draws_nothing() {
    let mut fb = Framebuffer::new(8, 8);
    fb_draw_text(&mut fb, usize::MAX, usize::MAX, "AB\nC", 5);
    fb_draw_text(&mut fb, 0, usize::MAX, "AB", 5);
    assert_eq!(grid(&fb), vec![vec![0u8; 8]; 8]);
}

#[test]
fn button_has_background_border_and_centred_label() {
    let mut fb = Framebuffer::new(64, 32);
    fb_draw_button(&mut fb, 4, 4, 40, 16, "OK", 2, 15, 1);
    let mut want = vec![vec![0u8; 64]; 32];
    paint(&mut want, 4, 4, 40, 16, 1);
    paint(&mut want, 5, 5, 38, 14, 2);
    stamp(&mut want, 16, 8, b'O', 15);
    stamp(&mut want, 24, 8, b'K', 15);
    assert_eq!(grid(&fb), want);
}

#[test]
fn button_label_is_cut_to_the_width() {
    let mut fb = Framebuffer::new(64, 32);
    fb_draw_button(&mut fb, 1, 2, 20, 12, "Cancel", 2, 15, 1);
    let mut want = vec![vec![0u8; 64]; 32];
    paint(&mut want, 1, 2, 20, 12, 1);
    paint(&mut want, 2, 3, 18, 10, 2);
    stamp(&mut want, 3, 4, b'C', 15);
    stamp(&mut want, 11, 4, b'a', 15);
    assert_eq!(grid(&fb), want);
}

#[test]
fn button_lower_than_a_glyph_has_its_label_at_the_top() {
    let mut fb = Framebuffer::new(32, 16);
    fb_draw_button(&mut fb, 0, 2, 16, 4, "A", 2, 15, 1);
    let mut want = vec![vec![0u8; 32]; 16];
    paint(&mut want, 0, 2, 16, 4, 1);
    paint(&mut want, 1, 3, 14, 2, 2);
    stamp(&mut want, 4, 2, b'A', 15);
    assert_eq!(grid(&fb), want);
}

#[test]
fn window_has_title_bar_border_and_title() {
    let mut fb = Framebuffer::new(64, 48);
    fb_draw_window(&mut fb, 2, 2, 40, 30, "Hi", 7, 3, 9);
    let mut want = vec![vec![0u8; 64]; 48];
    paint(&mut want, 2, 2, 40, 30, 9);
    paint(&mut want, 4, 4, 36, 26, 7);
    paint(&mut want, 4, 4, 36, 14, 3);
    stamp(&mut want, 6, 6, b'H', 0);
    stamp(&mut want, 14, 6, b'i', 0);
    assert_eq!(grid(&fb), want);
    assert_eq!(fb_get_pixel(&fb, 6, 6), 0);
    assert_eq!(fb_get_pixel(&fb, 8, 6), 3);
}

#[test]
fn text_is_hidden_while_double_buffering() {
    let mut fb = Framebuffer::new(32, 16);
    fb_enable_double_buffer(&mut fb, true);
    fb_draw_text(&mut fb, 0, 0, "AB", 5);
    fb_blit_bitmap(&mut fb, 0, 8, 8, 1, &[0xFF], 6);
    fb_draw_button(&mut fb, 16, 0, 16, 16, "x", 1, 2, 3);
    for y in 0..16 {
        for x in 0..32 {
            assert_eq!(fb_visible(&fb).get(x, y), 0);
        }
    }
    assert_eq!(fb_get_pixel(&fb, 0, 8), 6);
}
