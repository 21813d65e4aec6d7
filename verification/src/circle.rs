//! Circles: the outline by the midpoint walk with eightfold symmetry, and the
//! filled disc by a scan of its bounding square.

use vstd::prelude::*;
use crate::framebuffer::{fb_height, fb_set_pixel_enhanced, fb_width, plot_wide, Framebuffer};

verus! {

/// One state of the midpoint walk: an offset from the centre in the first
/// octant, and the error term.
pub struct CircleWalk {
    pub x: int,
    pub y: int,
    pub err: int,
}

/// One step of the walk: `y` grows by one; then, if the error is not
/// positive, it grows by `2 y + 1`, else `x` shrinks by one and the error
/// drops by `2 x + 1`, each with the new value of the coordinate.
pub open spec fn circle_step(s: CircleWalk) -> CircleWalk {
    if s.err <= 0 {
        CircleWalk { x: s.x, y: s.y + 1, err: s.err + 2 * (s.y + 1) + 1 }
    } else {
        CircleWalk { x: s.x - 1, y: s.y + 1, err: s.err - (2 * (s.x - 1) + 1) }
    }
}

/// The state after `k` steps of the walk for radius `r`, which starts at
/// offset `(r, 0)` with error 0.
pub open spec fn circle_walk(r: int, k: nat) -> CircleWalk
    decreases k,
{
    if k == 0 {
        CircleWalk { x: r, y: 0, err: 0 }
    } else {
        circle_step(circle_walk(r, (k - 1) as nat))
    }
}

/// Whether `(px, py)` is one of the eight images of the offset `(x, y)`
/// about the centre `(cx, cy)`.
pub open spec fn octant_image(cx: int, cy: int, x: int, y: int, px: int, py: int) -> bool {
    ||| (px == cx + x && py == cy + y)
    ||| (px == cx + y && py == cy + x)
    ||| (px == cx - y && py == cy + x)
    ||| (px == cx - x && py == cy + y)
    ||| (px == cx - x && py == cy - y)
    ||| (px == cx - y && py == cy - x)
    ||| (px == cx + y && py == cy - x)
    ||| (px == cx + x && py == cy - y)
}

/// Whether step `k` of the walk plots `(px, py)`: the walk is still in the
/// first octant (`x >= y`) and the point is an image of its offset.
pub open spec fn circle_at(cx: int, cy: int, r: int, k: nat, px: int, py: int) -> bool {
    circle_walk(r, k).x >= circle_walk(r, k).y && octant_image(
        cx,
        cy,
        circle_walk(r, k).x,
        circle_walk(r, k).y,
        px,
        py,
    )
}

/// The points of the circle outline with centre `(cx, cy)` and radius `r`.
pub open spec fn on_circle(cx: int, cy: int, r: int, px: int, py: int) -> bool {
    exists|k: nat| #[trigger] circle_at(cx, cy, r, k, px, py)
}

/// Whether one of the first `k` steps plots `(px, py)`.
pub open spec fn circle_hits(cx: int, cy: int, r: int, k: nat, px: int, py: int) -> bool
    decreases k,
{
    if k == 0 {
        false
    } else {
        circle_hits(cx, cy, r, (k - 1) as nat, px, py) || circle_at(
            cx,
            cy,
            r,
            (k - 1) as nat,
            px,
            py,
        )
    }
}

/// Once the walk has left the first octant it does not come back.
pub proof fn lemma_circle_leaves(r: int, k: nat, m: nat)
    requires
        circle_walk(r, k).x < circle_walk(r, k).y,
        k <= m,
    ensures
        circle_walk(r, m).x < circle_walk(r, m).y,
    decreases m,
{
    if m > k {
        lemma_circle_leaves(r, k, (m - 1) as nat);
    }
}

/// A point plotted at a step below `n` is a hit among the first `n`.
pub proof fn lemma_circle_hits_of_at(
    cx: int,
    cy: int,
    r: int,
    m: nat,
    n: nat,
    px: int,
    py: int,
)
    requires
        m < n,
        circle_at(cx, cy, r, m, px, py),
    ensures
        circle_hits(cx, cy, r, n, px, py),
    decreases n,
{
    if m < n - 1 {
        lemma_circle_hits_of_at(cx, cy, r, m, (n - 1) as nat, px, py);
    }
}

/// A hit among the first `n` steps is a point of the outline.
pub proof fn lemma_circle_hits_on_circle(cx: int, cy: int, r: int, n: nat, px: int, py: int)
    requires
        circle_hits(cx, cy, r, n, px, py),
    ensures
        on_circle(cx, cy, r, px, py),
    decreases n,
{
    if n > 0 {
        if circle_at(cx, cy, r, (n - 1) as nat, px, py) {
        } else {
            lemma_circle_hits_on_circle(cx, cy, r, (n - 1) as nat, px, py);
        }
    }
}

/// When the walk has left the first octant after `k` steps, the points
/// plotted by those steps are the whole outline.
pub proof fn lemma_circle_complete(cx: int, cy: int, r: int, k: nat)
    requires
        circle_walk(r, k).x < circle_walk(r, k).y,
    ensures
        forall|px: int, py: int|
            circle_hits(cx, cy, r, k, px, py) == #[trigger] on_circle(cx, cy, r, px, py),
{
    assert forall|px: int, py: int|
        circle_hits(cx, cy, r, k, px, py) == #[trigger] on_circle(cx, cy, r, px, py) by {
        if on_circle(cx, cy, r, px, py) {
            let m = choose|m: nat| #[trigger] circle_at(cx, cy, r, m, px, py);
            if m < k {
                lemma_circle_hits_of_at(cx, cy, r, m, k, px, py);
            } else {
                lemma_circle_leaves(r, k, m);
            }
        }
        if circle_hits(cx, cy, r, k, px, py) {
            lemma_circle_hits_on_circle(cx, cy, r, k, px, py);
        }
    }
}

/// The outline has the eightfold symmetry of the circle: with a point at
/// offset `(a, b)` from the centre it holds the points at `(b, a)` and at
/// `(-a, b)`, and so, by turns, all eight images of the point.
pub proof fn lemma_circle_symmetric(cx: int, cy: int, r: int, a: int, b: int)
    requires
        on_circle(cx, cy, r, cx + a, cy + b),
    ensures
        on_circle(cx, cy, r, cx + b, cy + a),
        on_circle(cx, cy, r, cx - a, cy + b),
{
    let k = choose|k: nat| #[trigger] circle_at(cx, cy, r, k, cx + a, cy + b);
    assert(circle_at(cx, cy, r, k, cx + b, cy + a));
    assert(circle_at(cx, cy, r, k, cx - a, cy + b));
}

/// Draws the outline of the circle with centre `(cx, cy)` and the given
/// radius: every point of the outline that lies on the surface takes
/// `color`, and nothing else changes.
pub fn fb_draw_circle(fb: &mut Framebuffer, cx: usize, cy: usize, radius: usize, color: u8)
    requires
        old(fb).wf(),
    ensures
        final(fb).drew_on(old(fb)),
        forall|i: int, j: int| #[trigger]
            final(fb).px(i, j) == if old(fb).inside(i, j) && on_circle(
                cx as int,
                cy as int,
                radius as int,
                i,
                j,
            ) {
                color
            } else {
                old(fb).px(i, j)
            },
{
    let r: i128 = radius as i128;
    let mx: i128 = cx as i128;
    let my: i128 = cy as i128;
    let mut x: i128 = r;
    let mut y: i128 = 0;
    let mut err: i128 = 0;
    let ghost mut k: nat = 0;
    while x >= y
        invariant
            fb.drew_on(old(fb)),
            r == radius,
            mx == cx,
            my == cy,
            -1 <= x <= r,
            0 <= y <= r + 1,
            -2 * r - 1 <= err <= 2 * r + 3,
            y >= 1 || err == 0,
            circle_walk(r as int, k) == (CircleWalk { x: x as int, y: y as int, err: err as int }),
            forall|i: int, j: int| #[trigger]
                fb.px(i, j) == if old(fb).inside(i, j) && circle_hits(
                    cx as int,
                    cy as int,
                    radius as int,
                    k,
                    i,
                    j,
                ) {
                    color
                } else {
                    old(fb).px(i, j)
                },
        decreases x - y + 2,
    {
        plot_wide(fb, mx + x, my + y, color);
        plot_wide(fb, mx + y, my + x, color);
        plot_wide(fb, mx - y, my + x, color);
        plot_wide(fb, mx - x, my + y, color);
        plot_wide(fb, mx - x, my - y, color);
        plot_wide(fb, mx - y, my - x, color);
        plot_wide(fb, mx + y, my - x, color);
        plot_wide(fb, mx + x, my - y, color);
        y += 1;
        if err <= 0 {
            err += 2 * y + 1;
        } else {
            x -= 1;
            err -= 2 * x + 1;
        }
        proof {
            k = k + 1;
        }
    }
    proof {
        lemma_circle_complete(cx as int, cy as int, radius as int, k);
    }
}

/// Whether `(px, py)` lies in the closed disc with centre `(cx, cy)` and
/// radius `r`.
pub open spec fn in_disc(cx: int, cy: int, r: int, px: int, py: int) -> bool {
    (px - cx) * (px - cx) + (py - cy) * (py - cy) <= r * r
}

/// A point of the disc lies in its bounding square.
pub proof fn lemma_disc_in_square(cx: int, cy: int, r: int, px: int, py: int)
    requires
        r >= 0,
        in_disc(cx, cy, r, px, py),
    ensures
        cx - r <= px <= cx + r,
        cy - r <= py <= cy + r,
{
    let dx = px - cx;
    let dy = py - cy;
    assert(dx * dx >= 0 && dy * dy >= 0) by (nonlinear_arith);
    assert(dx * dx <= r * r ==> -r <= dx <= r) by (nonlinear_arith)
        requires
            r >= 0,
    ;
    assert(dy * dy <= r * r ==> -r <= dy <= r) by (nonlinear_arith)
        requires
            r >= 0,
    ;
}

/// The distance between two unsigned coordinates.
fn span(a: usize, b: usize) -> (d: u128)
    ensures
        d == if a <= b {
            b - a
        } else {
            a - b
        },
{
    if a <= b {
        (b - a) as u128
    } else {
        (a - b) as u128
    }
}

/// Decides whether a surface point within the bounding square lies in the
/// disc.
fn disc_test(cx: usize, cy: usize, radius: usize, x: usize, y: usize) -> (hit: bool)
    requires
        cx - radius <= x <= cx + radius,
        cy - radius <= y <= cy + radius,
    ensures
        hit == in_disc(cx as int, cy as int, radius as int, x as int, y as int),
{
    let r: u128 = radius as u128;
    let dx: u128 = span(cx, x);
    let dy: u128 = span(cy, y);
    proof {
        let lim: int = 0xFFFF_FFFF_FFFF_FFFF;
        assert(r * r <= lim * lim) by (nonlinear_arith)
            requires
                0 <= r <= lim,
        ;
        assert(dx * dx <= r * r) by (nonlinear_arith)
            requires
                0 <= dx <= r,
        ;
        assert(dy * dy <= r * r) by (nonlinear_arith)
            requires
                0 <= dy <= r,
        ;
        assert((x - cx) * (x - cx) == dx * dx) by (nonlinear_arith)
            requires
                dx == x - cx || dx == cx - x,
        ;
        assert((y - cy) * (y - cy) == dy * dy) by (nonlinear_arith)
            requires
                dy == y - cy || dy == cy - y,
        ;
    }
    let rr: u128 = r * r;
    let xx: u128 = dx * dx;
    let yy: u128 = dy * dy;
    yy <= rr - xx
}

/// Draws the filled disc with centre `(cx, cy)` and the given radius: a
/// point of the surface takes `color` exactly when the square of its
/// distance from the centre is at most the square of the radius, and
/// nothing else changes. Radius 0 colours the centre alone.
pub fn fb_draw_filled_circle(fb: &mut Framebuffer, cx: usize, cy: usize, radius: usize, color: u8)
    requires
        old(fb).wf(),
    ensures
        final(fb).drew_on(old(fb)),
        forall|i: int, j: int| #[trigger]
            final(fb).px(i, j) == if old(fb).inside(i, j) && in_disc(
                cx as int,
                cy as int,
                radius as int,
                i,
                j,
            ) {
                color
            } else {
                old(fb).px(i, j)
            },
{
    let w: usize = fb_width(fb);
    let h: usize = fb_height(fb);
    let x_lo: usize = if cx >= radius {
        cx - radius
    } else {
        0
    };
    let y_lo: usize = if cy >= radius {
        cy - radius
    } else {
        0
    };
    let x_hi: usize = if cx < w && radius < w - cx {
        cx + radius + 1
    } else {
        w
    };
    let y_hi: usize = if cy < h && radius < h - cy {
        cy + radius + 1
    } else {
        h
    };
    proof {
        assert forall|i: int, j: int|
            old(fb).inside(i, j) && #[trigger] in_disc(cx as int, cy as int, radius as int, i, j)
            implies x_lo <= i < x_hi && y_lo <= j < y_hi by {
            lemma_disc_in_square(cx as int, cy as int, radius as int, i, j);
        }
    }
    let mut y: usize = y_lo;
    while y < y_hi
        invariant
            fb.drew_on(old(fb)),
            w == fb.width(),
            h == fb.height(),
            x_lo == (if cx >= radius { cx - radius } else { 0 }),
            y_lo == (if cy >= radius { cy - radius } else { 0 }),
            x_hi <= w,
            y_hi <= h,
            x_hi <= cx + radius + 1,
            y_hi <= cy + radius + 1,
            y_lo <= y,
            forall|i: int, j: int| #[trigger]
                fb.px(i, j) == if old(fb).inside(i, j) && in_disc(
                    cx as int,
                    cy as int,
                    radius as int,
                    i,
                    j,
                ) && y_lo <= j < y && x_lo <= i < x_hi {
                    color
                } else {
                    old(fb).px(i, j)
                },
        decreases y_hi - y,
    {
        let mut x: usize = x_lo;
        while x < x_hi
            invariant
                fb.drew_on(old(fb)),
                w == fb.width(),
                h == fb.height(),
                x_lo == (if cx >= radius { cx - radius } else { 0 }),
                y_lo == (if cy >= radius { cy - radius } else { 0 }),
                x_hi <= w,
                y_hi <= h,
                x_hi <= cx + radius + 1,
                y_hi <= cy + radius + 1,
                y_lo <= y < y_hi,
                x_lo <= x,
                x <= x_hi || x == x_lo,
                forall|i: int, j: int| #[trigger]
                    fb.px(i, j) == if old(fb).inside(i, j) && in_disc(
                        cx as int,
                        cy as int,
                        radius as int,
                        i,
                        j,
                    ) && ((y_lo <= j < y && x_lo <= i < x_hi) || (j == y && x_lo <= i < x)) {
                        color
                    } else {
                        old(fb).px(i, j)
                    },
            decreases x_hi - x,
        {
            if disc_test(cx, cy, radius, x, y) {
                fb_set_pixel_enhanced(fb, x, y, color);
            }
            x += 1;
        }
        y += 1;
    }
}

} // verus!
