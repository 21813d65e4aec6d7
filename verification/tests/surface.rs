use kernel_gfx::{
    fb_clear, fb_clear_enhanced, fb_enable_double_buffer, fb_get_frame_counter, fb_get_pixel,
    fb_height, fb_is_double_buffered, fb_set_pixel, fb_set_pixel_enhanced, fb_swap_buffers,
    fb_update_frame_counter, fb_visible, fb_width, framebuffer_for_mode, get_draw_buffer,
    get_palette_color, video_modes, Framebuffer, PixelSurface, VideoMode,
};

fn snapshot(s: &PixelSurface) -> Vec<u8> {
    let mut out = Vec::new();
    for y in 0..s.height() {
        for x in 0..s.width() {
            out.push(s.get(x, y));
        }
    }
    out
}

#[test]
fn new_surface_is_zeroed() {
    let s = PixelSurface::new(5, 3);
    assert_eq!(s.width(), 5);
    assert_eq!(s.height(), 3);
    assert_eq!(snapshot(&s), vec![0u8; 15]);
}

#[test]
fn empty_surface_accepts_every_call() {
    let mut s = PixelSurface::new(0, 7);
    s.set(0, 0, 4);
    s.fill(9);
    assert_eq!(s.get(0, 0), 0);
    assert_eq!(snapshot(&s), Vec::<u8>::new());
}

#[test]
fn set_then_get_round_trips() {
    let mut s = PixelSurface::new(4, 3);
    s.set(3, 2, 200);
    s.set(0, 0, 7);
    assert_eq!(s.get(3, 2), 200);
    assert_eq!(s.get(0, 0), 7);
    assert_eq!(s.get(1, 0), 0);
    let mut want = vec![0u8; 12];
    want[0] = 7;
    want[11] = 200;
    assert_eq!(snapshot(&s), want);
}

#[test]
fn set_outside_leaves_every_pixel_unchanged() {
    let mut s = PixelSurface::new(4, 3);
    s.set(1, 1, 5);
    s.set(2, 0, 6);
    let before = snapshot(&s);
    s.set(4, 0, 9);
    s.set(0, 3, 9);
    s.set(4, 3, 9);
    s.set(usize::MAX, 1, 9);
    s.set(1, usize::MAX, 9);
    assert_eq!(snapshot(&s), before);
}

#[test]
fn set_just_past_a_row_does_not_spill_into_the_next() {
    let mut s = PixelSurface::new(4, 3);
    s.set(4, 0, 9);
    assert_eq!(s.get(0, 1), 0);
    s.set(5, 1, 9);
    assert_eq!(s.get(1, 2), 0);
}

#[test]
fn get_outside_returns_zero() {
    let mut s = PixelSurface::new(2, 2);
    s.fill(9);
    assert_eq!(s.get(2, 0), 0);
    assert_eq!(s.get(0, 2), 0);
    assert_eq!(s.get(usize::MAX, usize::MAX), 0);
    assert_eq!(s.get(1, 1), 9);
}

#[test]
fn fill_overwrites_every_pixel() {
    let mut s = PixelSurface::new(3, 2);
    s.set(1, 1, 5);
    s.fill(8);
    assert_eq!(snapshot(&s), vec![8u8; 6]);
}

#[test]
fn copy_from_takes_every_pixel() {
    let mut a = PixelSurface::new(3, 2);
    let mut b = PixelSurface::new(3, 2);
    a.fill(1);
    b.set(0, 0, 4);
    b.set(2, 1, 6);
    a.copy_from(&b);
    assert_eq!(snapshot(&a), vec![4, 0, 0, 0, 0, 6]);
    assert_eq!(snapshot(&b), vec![4, 0, 0, 0, 0, 6]);
}

#[test]
fn new_context_draws_on_the_visible_surface() {
    let mut fb = Framebuffer::new(6, 4);
    assert_eq!(fb_width(&fb), 6);
    assert_eq!(fb_height(&fb), 4);
    assert!(!fb_is_double_buffered(&fb));
    assert_eq!(fb_get_frame_counter(&fb), 0);
    fb_set_pixel(&mut fb, 2, 1, 3);
    assert_eq!(fb_visible(&fb).get(2, 1), 3);
    assert_eq!(fb_get_pixel(&fb, 2, 1), 3);
    assert_eq!(get_draw_buffer(&fb).get(2, 1), 3);
}

#[test]
fn context_set_outside_is_dropped() {
    let mut fb = Framebuffer::new(6, 4);
    fb_set_pixel_enhanced(&mut fb, 1, 1, 3);
    let before = snapshot(fb_visible(&fb));
    fb_set_pixel_enhanced(&mut fb, 6, 1, 9);
    fb_set_pixel_enhanced(&mut fb, 1, 4, 9);
    fb_set_pixel(&mut fb, 7, 0, 9);
    assert_eq!(snapshot(fb_visible(&fb)), before);
    assert_eq!(fb_get_pixel(&fb, 6, 1), 0);
}

#[test]
fn drawing_is_hidden_until_the_buffers_are_swapped() {
    let mut fb = Framebuffer::new(6, 4);
    fb_set_pixel(&mut fb, 0, 0, 1);
    fb_enable_double_buffer(&mut fb, true);
    assert!(fb_is_double_buffered(&fb));
    let shown = snapshot(fb_visible(&fb));
    fb_set_pixel(&mut fb, 2, 2, 7);
    fb_clear(&mut fb, 4);
    fb_set_pixel_enhanced(&mut fb, 5, 3, 8);
    assert_eq!(snapshot(fb_visible(&fb)), shown);
    assert_eq!(fb_get_pixel(&fb, 5, 3), 8);
    assert_eq!(fb_get_pixel(&fb, 0, 0), 4);
    fb_swap_buffers(&mut fb);
    let mut want = vec![4u8; 24];
    want[23] = 8;
    assert_eq!(snapshot(fb_visible(&fb)), want);
    assert_eq!(snapshot(get_draw_buffer(&fb)), want);
}

#[test]
fn enabling_double_buffering_zeroes_the_offscreen_surface() {
    let mut fb = Framebuffer::new(3, 2);
    fb_enable_double_buffer(&mut fb, true);
    fb_clear_enhanced(&mut fb, 5);
    fb_enable_double_buffer(&mut fb, true);
    assert_eq!(snapshot(get_draw_buffer(&fb)), vec![0u8; 6]);
}

#[test]
fn disabling_double_buffering_presents_nothing() {
    let mut fb = Framebuffer::new(3, 2);
    fb_enable_double_buffer(&mut fb, true);
    fb_clear_enhanced(&mut fb, 5);
    fb_enable_double_buffer(&mut fb, false);
    assert_eq!(snapshot(fb_visible(&fb)), vec![0u8; 6]);
    fb_set_pixel(&mut fb, 1, 1, 2);
    assert_eq!(fb_visible(&fb).get(1, 1), 2);
}

#[test]
fn swap_without_double_buffering_changes_nothing() {
    let mut fb = Framebuffer::new(3, 2);
    fb_enable_double_buffer(&mut fb, true);
    fb_clear_enhanced(&mut fb, 5);
    fb_enable_double_buffer(&mut fb, false);
    fb_set_pixel(&mut fb, 0, 1, 2);
    fb_swap_buffers(&mut fb);
    assert_eq!(snapshot(fb_visible(&fb)), vec![0, 0, 0, 2, 0, 0]);
}

#[test]
fn frame_counter_counts_and_wraps() {
    let mut fb = Framebuffer::new(1, 1);
    fb_update_frame_counter(&mut fb);
    fb_update_frame_counter(&mut fb);
    assert_eq!(fb_get_frame_counter(&fb), 2);
    fb_set_pixel(&mut fb, 0, 0, 3);
    fb_update_frame_counter(&mut fb);
    assert_eq!(fb_get_frame_counter(&fb), 3);
    assert_eq!(fb_get_pixel(&fb, 0, 0), 3);
}

#[test]
fn palette_has_the_sixteen_hardware_codes() {
    let want: [u8; 16] = [
        0x00, 0x01, 0x02, 0x03, 0x04, 0x05, 0x14, 0x07, 0x38, 0x39, 0x3A, 0x3B, 0x3C, 0x3D, 0x3E,
        0x3F,
    ];
    for i in 0..16u8 {
        assert_eq!(get_palette_color(i), want[i as usize]);
    }
}

#[test]
fn palette_indices_wrap_after_sixteen() {
    assert_eq!(get_palette_color(16), 0x00);
    assert_eq!(get_palette_color(22), 0x14);
    assert_eq!(get_palette_color(31), 0x3F);
    assert_eq!(get_palette_color(255), 0x3F);
    assert_eq!(get_palette_color(248), 0x38);
}

#[test]
fn known_modes_start_with_the_drawing_mode() {
    let modes = video_modes();
    assert_eq!(modes[0], VideoMode { width: 320, height: 200, bpp: 8, mode_id: 0x13 });
    assert_eq!(modes[1], VideoMode { width: 640, height: 480, bpp: 1, mode_id: 0x12 });
    assert_eq!(modes[2], VideoMode { width: 80, height: 25, bpp: 4, mode_id: 0x03 });
}

#[test]
fn context_takes_the_size_of_its_mode() {
    let fb = framebuffer_for_mode(&video_modes()[0]).unwrap();
    assert_eq!((fb_width(&fb), fb_height(&fb)), (320, 200));
    assert!(!fb_is_double_buffered(&fb));
    assert_eq!(fb_get_frame_counter(&fb), 0);
    assert_eq!(fb_get_pixel(&fb, 319, 199), 0);
}

#[test]
fn mode_with_too_many_pixels_gives_no_context() {
    let huge = VideoMode { width: usize::MAX, height: 2, bpp: 8, mode_id: 0 };
    assert!(framebuffer_for_mode(&huge).is_none());
    let flat = VideoMode { width: usize::MAX, height: 0, bpp: 8, mode_id: 0 };
    assert!(framebuffer_for_mode(&flat).is_some());
}
