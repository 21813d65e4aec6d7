use kernel_gfx::{
    fb_draw_circle, fb_draw_filled_circle, fb_draw_line, fb_draw_triangle, fb_get_pixel,
    fb_height, fb_set_pixel, fb_width, Framebuffer,
};

fn lit(fb: &Framebuffer, color: u8) -> Vec<(usize, usize)> {
    let mut out = Vec::new();
    for x in 0..fb_width(fb) {
        for y in 0..fb_height(fb) {
            if fb_get_pixel(fb, x, y) == color {
                out.push((x, y));
            }
        }
    }
    out
}

fn line_points(x0: isize, y0: isize, x1: isize, y1: isize) -> Vec<(usize, usize)> {
    let mut fb = Framebuffer::new(12, 12);
    fb_draw_line(&mut fb, x0, y0, x1, y1, 9);
    lit(&fb, 9)
}

#[test]
fn line_of_one_point() {
    assert_eq!(line_points(4, 5, 4, 5), vec![(4, 5)]);
}

#[test]
fn line_includes_both_ends() {
    let pts = line_points(1, 1, 6, 4);
    assert_eq!(pts, vec![(1, 1), (2, 2), (3, 2), (4, 3), (5, 3), (6, 4)]);
}

#[test]
fn line_shallow_walk() {
    let pts = line_points(0, 0, 7, 3);
    assert_eq!(pts, vec![(0, 0), (1, 0), (2, 1), (3, 1), (4, 2), (5, 2), (6, 3), (7, 3)]);
}

#[test]
fn line_steep_walk_upward() {
    let pts = line_points(3, 7, 1, 0);
    assert_eq!(pts, vec![(1, 0), (1, 1), (2, 2), (2, 3), (2, 4), (2, 5), (3, 6), (3, 7)]);
}

#[test]
fn line_with_a_tie_goes_diagonal_first() {
    assert_eq!(line_points(0, 0, 2, 1), vec![(0, 0), (1, 1), (2, 1)]);
}

#[test]
fn reversed_line_is_the_mirror_image() {
    let there = line_points(0, 0, 2, 1);
    let back = line_points(2, 1, 0, 0);
    assert_eq!(back, vec![(0, 0), (1, 0), (2, 1)]);
    let mut mirrored: Vec<(usize, usize)> = there.iter().map(|&(x, y)| (2 - x, 1 - y)).collect();
    mirrored.sort();
    assert_eq!(back, mirrored);
}

#[test]
fn line_is_the_same_in_both_directions_when_it_mirrors_itself() {
    assert_eq!(line_points(1, 1, 6, 4), line_points(6, 4, 1, 1));
    assert_eq!(line_points(2, 3, 9, 3), line_points(9, 3, 2, 3));
    assert_eq!(line_points(5, 0, 5, 11), line_points(5, 11, 5, 0));
    assert_eq!(line_points(0, 0, 11, 11), line_points(11, 11, 0, 0));
    assert_eq!(line_points(10, 1, 1, 10), line_points(1, 10, 10, 1));
}

#[test]
fn line_skips_points_off_the_surface_and_goes_on() {
    let mut fb = Framebuffer::new(4, 5);
    fb_draw_line(&mut fb, -2, 3, 6, 3, 9);
    assert_eq!(lit(&fb, 9), vec![(0, 3), (1, 3), (2, 3), (3, 3)]);
    let mut fb = Framebuffer::new(4, 5);
    fb_draw_line(&mut fb, -3, -3, 8, 8, 9);
    assert_eq!(lit(&fb, 9), vec![(0, 0), (1, 1), (2, 2), (3, 3)]);
}

#[test]
fn line_wholly_off_the_surface_draws_nothing() {
    let mut fb = Framebuffer::new(4, 5);
    fb_set_pixel(&mut fb, 1, 1, 2);
    fb_draw_line(&mut fb, -5, -1, 9, -1, 9);
    fb_draw_line(&mut fb, 4, 0, 4, 40, 9);
    assert_eq!(lit(&fb, 9), vec![]);
    assert_eq!(lit(&fb, 2), vec![(1, 1)]);
}

#[test]
fn line_leaves_other_pixels_alone() {
    let mut fb = Framebuffer::new(5, 5);
    fb_set_pixel(&mut fb, 0, 4, 3);
    fb_set_pixel(&mut fb, 2, 2, 3);
    fb_draw_line(&mut fb, 0, 0, 4, 4, 9);
    assert_eq!(lit(&fb, 3), vec![(0, 4)]);
    assert_eq!(lit(&fb, 9), vec![(0, 0), (1, 1), (2, 2), (3, 3), (4, 4)]);
}

#[test]
fn triangle_is_three_lines() {
    let mut fb = Framebuffer::new(8, 8);
    fb_draw_triangle(&mut fb, 1, 1, 6, 1, 1, 6, 9);
    let mut want = Framebuffer::new(8, 8);
    fb_draw_line(&mut want, 1, 1, 6, 1, 9);
    fb_draw_line(&mut want, 6, 1, 1, 6, 9);
    fb_draw_line(&mut want, 1, 6, 1, 1, 9);
    assert_eq!(lit(&fb, 9), lit(&want, 9));
    assert_eq!(fb_get_pixel(&fb, 2, 2), 0);
    assert_eq!(fb_get_pixel(&fb, 3, 4), 9);
    assert_eq!(lit(&fb, 9).len(), 15);
}

#[test]
fn circle_outline_of_radius_three() {
    let mut fb = Framebuffer::new(11, 11);
    fb_draw_circle(&mut fb, 5, 5, 3, 9);
    assert_eq!(
        lit(&fb, 9),
        vec![
            (2, 4),
            (2, 5),
            (2, 6),
            (3, 3),
            (3, 7),
            (4, 2),
            (4, 8),
            (5, 2),
            (5, 8),
            (6, 2),
            (6, 8),
            (7, 3),
            (7, 7),
            (8, 4),
            (8, 5),
            (8, 6),
        ]
    );
}

#[test]
fn circle_outline_of_radius_zero_is_the_centre() {
    let mut fb = Framebuffer::new(5, 5);
    fb_draw_circle(&mut fb, 2, 2, 0, 9);
    assert_eq!(lit(&fb, 9), vec![(2, 2)]);
}

#[test]
fn circle_outline_of_radius_one() {
    let mut fb = Framebuffer::new(9, 9);
    fb_draw_circle(&mut fb, 4, 4, 1, 9);
    assert_eq!(
        lit(&fb, 9),
        vec![(3, 3), (3, 4), (3, 5), (4, 3), (4, 5), (5, 3), (5, 4), (5, 5)]
    );
}

#[test]
fn circle_outline_is_clipped_at_the_edges() {
    let mut fb = Framebuffer::new(3, 3);
    fb_draw_circle(&mut fb, 1, 1, 2, 9);
    assert_eq!(lit(&fb, 9), vec![]);
    let mut fb = Framebuffer::new(4, 4);
    fb_draw_circle(&mut fb, 1, 1, 2, 9);
    assert_eq!(lit(&fb, 9), vec![(0, 3), (1, 3), (2, 3), (3, 0), (3, 1), (3, 2)]);
}

#[test]
fn filled_circle_is_exactly_the_disc() {
    let (cx, cy, r) = (6usize, 5usize, 4usize);
    let mut fb = Framebuffer::new(14, 12);
    fb_set_pixel(&mut fb, 0, 0, 3);
    fb_draw_filled_circle(&mut fb, cx, cy, r, 9);
    for x in 0..14usize {
        for y in 0..12usize {
            let dx = x as i64 - cx as i64;
            let dy = y as i64 - cy as i64;
            let inside = dx * dx + dy * dy <= (r * r) as i64;
            let want = if inside {
                9
            } else if (x, y) == (0, 0) {
                3
            } else {
                0
            };
            assert_eq!(fb_get_pixel(&fb, x, y), want);
        }
    }
    assert_eq!(lit(&fb, 9).len(), 49);
}

#[test]
fn filled_circle_of_radius_zero_is_the_centre() {
    let mut fb = Framebuffer::new(5, 5);
    fb_draw_filled_circle(&mut fb, 3, 1, 0, 9);
    assert_eq!(lit(&fb, 9), vec![(3, 1)]);
}

#[test]
fn filled_circle_is_clipped_at_the_edges() {
    let mut fb = Framebuffer::new(3, 3);
    fb_draw_filled_circle(&mut fb, 0, 0, 2, 9);
    assert_eq!(lit(&fb, 9), vec![(0, 0), (0, 1), (0, 2), (1, 0), (1, 1), (2, 0)]);
}

#[test]
fn filled_circle_centred_off_the_surface() {
    let mut fb = Framebuffer::new(3, 3);
    fb_draw_filled_circle(&mut fb, 5, 1, 3, 9);
    assert_eq!(lit(&fb, 9), vec![(2, 1)]);
    let mut fb = Framebuffer::new(3, 3);
    fb_draw_filled_circle(&mut fb, usize::MAX, usize::MAX, 2, 9);
    assert_eq!(lit(&fb, 9), vec![]);
    let mut fb = Framebuffer::new(2, 2);
    fb_draw_filled_circle(&mut fb, 1, 1, usize::MAX, 9);
    assert_eq!(lit(&fb, 9).len(), 4);
}
