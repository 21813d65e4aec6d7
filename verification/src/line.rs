//! Straight lines by the integer error-accumulator walk, and the wireframe
//! triangle built from three of them.

use vstd::prelude::*;
use crate::framebuffer::{fb_height, fb_set_pixel_enhanced, fb_width, Framebuffer};

verus! {

/// One state of the walk: the current point and the error accumulator.
pub struct LineWalk {
    pub x: int,
    pub y: int,
    pub err: int,
}

/// The distance between two coordinates.
pub open spec fn dist(a: int, b: int) -> int {
    if a <= b {
        b - a
    } else {
        a - b
    }
}

/// The unit step from `from` toward `to`; it is -1 when they are equal.
pub open spec fn toward(from: int, to: int) -> int {
    if from < to {
        1
    } else {
        -1
    }
}

/// Whether `v` lies between `a` and `b`, ends included, in either order.
pub open spec fn between(a: int, v: int, b: int) -> bool {
    (a <= v <= b) || (b <= v <= a)
}

/// The walk starts at `(x0, y0)` with error `dx - dy`, where `dx` and `dy`
/// are the distances along the two axes.
pub open spec fn line_start(x0: int, y0: int, x1: int, y1: int) -> LineWalk {
    LineWalk { x: x0, y: y0, err: dist(x0, x1) - dist(y0, y1) }
}

/// One step of the walk. At the end point the walk rests. Elsewhere, with
/// `e2` twice the error: if `e2 >= -dy` the point moves one column toward
/// `x1` and the error drops by `dy`; if `e2 <= dx` the point moves one row
/// toward `y1` and the error grows by `dx`. Both may happen in one step.
pub open spec fn line_step(x0: int, y0: int, x1: int, y1: int, s: LineWalk) -> LineWalk {
    let dx = dist(x0, x1);
    let dy = dist(y0, y1);
    if s.x == x1 && s.y == y1 {
        s
    } else {
        let e2 = 2 * s.err;
        let sx = if e2 >= -dy {
            toward(x0, x1)
        } else {
            0
        };
        let ex = if e2 >= -dy {
            -dy
        } else {
            0
        };
        let sy = if e2 <= dx {
            toward(y0, y1)
        } else {
            0
        };
        let ey = if e2 <= dx {
            dx
        } else {
            0
        };
        LineWalk { x: s.x + sx, y: s.y + sy, err: s.err + ex + ey }
    }
}

/// The state of the walk from `(x0, y0)` to `(x1, y1)` after `k` steps.
pub open spec fn line_walk(x0: int, y0: int, x1: int, y1: int, k: nat) -> LineWalk
    decreases k,
{
    if k == 0 {
        line_start(x0, y0, x1, y1)
    } else {
        line_step(x0, y0, x1, y1, line_walk(x0, y0, x1, y1, (k - 1) as nat))
    }
}

/// Whether the walk stands on `(px, py)` after `k` steps.
pub open spec fn line_at(x0: int, y0: int, x1: int, y1: int, k: nat, px: int, py: int) -> bool {
    line_walk(x0, y0, x1, y1, k).x == px && line_walk(x0, y0, x1, y1, k).y == py
}

/// The points of the line from `(x0, y0)` to `(x1, y1)`: those that the
/// walk stands on at some step.
pub open spec fn on_line(x0: int, y0: int, x1: int, y1: int, px: int, py: int) -> bool {
    exists|k: nat| #[trigger] line_at(x0, y0, x1, y1, k, px, py)
}

/// Whether the walk stands on `(px, py)` at one of its first `k` states.
pub open spec fn line_hits(x0: int, y0: int, x1: int, y1: int, k: nat, px: int, py: int) -> bool
    decreases k,
{
    if k == 0 {
        false
    } else {
        line_hits(x0, y0, x1, y1, (k - 1) as nat, px, py) || line_at(
            x0,
            y0,
            x1,
            y1,
            (k - 1) as nat,
            px,
            py,
        )
    }
}

/// What holds of every state of the walk: the point stays in the box
/// spanned by the two ends, the error is determined by the point, and it
/// stays within `-2 dy ..= 2 dx`.
pub open spec fn line_inv(x0: int, y0: int, x1: int, y1: int, s: LineWalk) -> bool {
    let dx = dist(x0, x1);
    let dy = dist(y0, y1);
    &&& between(x0, s.x, x1)
    &&& between(y0, s.y, y1)
    &&& s.err == dx - dy - dist(x0, s.x) * dy + dist(y0, s.y) * dx
    &&& -2 * dy <= s.err <= 2 * dx
}

/// The number of unit moves that still separate a state from the end point.
pub open spec fn line_left(x1: int, y1: int, s: LineWalk) -> int {
    dist(s.x, x1) + dist(s.y, y1)
}

/// A step keeps the invariant, and away from the end point it moves closer.
pub proof fn lemma_line_step(x0: int, y0: int, x1: int, y1: int, s: LineWalk)
    requires
        line_inv(x0, y0, x1, y1, s),
    ensures
        line_inv(x0, y0, x1, y1, line_step(x0, y0, x1, y1, s)),
        !(s.x == x1 && s.y == y1) ==> line_left(x1, y1, line_step(x0, y0, x1, y1, s)) < line_left(
            x1,
            y1,
            s,
        ),
{
    let dx = dist(x0, x1);
    let dy = dist(y0, y1);
    let a = dist(x0, s.x);
    let b = dist(y0, s.y);
    if !(s.x == x1 && s.y == y1) {
        assert((a + 1) * dy == a * dy + dy) by (nonlinear_arith);
        assert((b + 1) * dx == b * dx + dx) by (nonlinear_arith);
        if a == dx {
            assert(b < dy);
            assert(dx - a * dy + b * dx <= 0) by (nonlinear_arith)
                requires
                    a == dx,
                    dx >= 0,
                    b + 1 <= dy,
            ;
            assert(2 * s.err < -dy);
        }
        if b == dy {
            assert(a < dx);
            assert(b * dx - dy - a * dy >= 0) by (nonlinear_arith)
                requires
                    b == dy,
                    dy >= 0,
                    a + 1 <= dx,
            ;
            assert(2 * s.err > dx);
        }
    }
}

/// Every state of the walk satisfies the invariant.
pub proof fn lemma_line_walk_inv(x0: int, y0: int, x1: int, y1: int, k: nat)
    ensures
        line_inv(x0, y0, x1, y1, line_walk(x0, y0, x1, y1, k)),
    decreases k,
{
    if k == 0 {
        assert(0 * dist(y0, y1) == 0) by (nonlinear_arith);
        assert(0 * dist(x0, x1) == 0) by (nonlinear_arith);
    } else {
        lemma_line_walk_inv(x0, y0, x1, y1, (k - 1) as nat);
        lemma_line_step(x0, y0, x1, y1, line_walk(x0, y0, x1, y1, (k - 1) as nat));
    }
}

/// Once the walk has reached the end point it stays there.
pub proof fn lemma_line_rests(x0: int, y0: int, x1: int, y1: int, k: nat, m: nat)
    requires
        line_at(x0, y0, x1, y1, k, x1, y1),
        k <= m,
    ensures
        line_walk(x0, y0, x1, y1, m) == line_walk(x0, y0, x1, y1, k),
    decreases m,
{
    if m > k {
        lemma_line_rests(x0, y0, x1, y1, k, (m - 1) as nat);
    }
}

/// A state among the first `n` is a hit among the first `n`.
pub proof fn lemma_line_hits_of_at(
    x0: int,
    y0: int,
    x1: int,
    y1: int,
    m: nat,
    n: nat,
    px: int,
    py: int,
)
    requires
        m < n,
        line_at(x0, y0, x1, y1, m, px, py),
    ensures
        line_hits(x0, y0, x1, y1, n, px, py),
    decreases n,
{
    if m < n - 1 {
        lemma_line_hits_of_at(x0, y0, x1, y1, m, (n - 1) as nat, px, py);
    }
}

/// A hit among the first `n` states is a point of the line.
pub proof fn lemma_line_hits_on_line(x0: int, y0: int, x1: int, y1: int, n: nat, px: int, py: int)
    requires
        line_hits(x0, y0, x1, y1, n, px, py),
    ensures
        on_line(x0, y0, x1, y1, px, py),
    decreases n,
{
    if n > 0 {
        if line_at(x0, y0, x1, y1, (n - 1) as nat, px, py) {
        } else {
            lemma_line_hits_on_line(x0, y0, x1, y1, (n - 1) as nat, px, py);
        }
    }
}

/// When the walk stands on the end point after `k` steps, its states up to
/// that one are all the points of the line.
pub proof fn lemma_line_complete(x0: int, y0: int, x1: int, y1: int, k: nat)
    requires
        line_at(x0, y0, x1, y1, k, x1, y1),
    ensures
        forall|px: int, py: int|
            line_hits(x0, y0, x1, y1, k + 1, px, py) == #[trigger] on_line(x0, y0, x1, y1, px, py),
{
    assert forall|px: int, py: int|
        line_hits(x0, y0, x1, y1, k + 1, px, py) == #[trigger] on_line(
            x0,
            y0,
            x1,
            y1,
            px,
            py,
        ) by {
        if on_line(x0, y0, x1, y1, px, py) {
            let m = choose|m: nat| #[trigger] line_at(x0, y0, x1, y1, m, px, py);
            if m <= k {
                lemma_line_hits_of_at(x0, y0, x1, y1, m, k + 1, px, py);
            } else {
                lemma_line_rests(x0, y0, x1, y1, k, m);
                lemma_line_hits_of_at(x0, y0, x1, y1, k, k + 1, px, py);
            }
        }
        if line_hits(x0, y0, x1, y1, k + 1, px, py) {
            lemma_line_hits_on_line(x0, y0, x1, y1, k + 1, px, py);
        }
    }
}

/// Both ends are points of the line.
pub proof fn lemma_line_has_start(x0: int, y0: int, x1: int, y1: int)
    ensures
        on_line(x0, y0, x1, y1, x0, y0),
{
    assert(line_at(x0, y0, x1, y1, 0, x0, y0));
}

/// The walk arrives: from any step on, some later step stands on the end
/// point. The result is such a step.
pub proof fn lemma_line_arrives(x0: int, y0: int, x1: int, y1: int, k: nat) -> (m: nat)
    ensures
        k <= m,
        line_at(x0, y0, x1, y1, m, x1, y1),
    decreases line_left(x1, y1, line_walk(x0, y0, x1, y1, k)),
{
    if line_at(x0, y0, x1, y1, k, x1, y1) {
        k
    } else {
        lemma_line_walk_inv(x0, y0, x1, y1, k);
        lemma_line_step(x0, y0, x1, y1, line_walk(x0, y0, x1, y1, k));
        lemma_line_arrives(x0, y0, x1, y1, k + 1)
    }
}

/// The end point is a point of the line.
pub proof fn lemma_line_has_end(x0: int, y0: int, x1: int, y1: int)
    ensures
        on_line(x0, y0, x1, y1, x1, y1),
{
    let m = lemma_line_arrives(x0, y0, x1, y1, 0);
}

/// Every point of the line lies in the box spanned by its two ends.
pub proof fn lemma_line_in_box(x0: int, y0: int, x1: int, y1: int, px: int, py: int)
    requires
        on_line(x0, y0, x1, y1, px, py),
    ensures
        between(x0, px, x1),
        between(y0, py, y1),
{
    let m = choose|m: nat| #[trigger] line_at(x0, y0, x1, y1, m, px, py);
    lemma_line_walk_inv(x0, y0, x1, y1, m);
}

/// The walk from `(x1, y1)` back to `(x0, y0)` is, state by state, the
/// forward walk mirrored through the midpoint of the two ends.
pub proof fn lemma_line_walk_mirrored(x0: int, y0: int, x1: int, y1: int, k: nat)
    ensures
        line_walk(x1, y1, x0, y0, k).x == x0 + x1 - line_walk(x0, y0, x1, y1, k).x,
        line_walk(x1, y1, x0, y0, k).y == y0 + y1 - line_walk(x0, y0, x1, y1, k).y,
        line_walk(x1, y1, x0, y0, k).err == line_walk(x0, y0, x1, y1, k).err,
    decreases k,
{
    if k > 0 {
        let j = (k - 1) as nat;
        lemma_line_walk_mirrored(x0, y0, x1, y1, j);
        lemma_line_walk_inv(x0, y0, x1, y1, j);
        lemma_line_walk_inv(x1, y1, x0, y0, j);
        lemma_line_walk_inv(x0, y0, x1, y1, k);
        lemma_line_walk_inv(x1, y1, x0, y0, k);
    }
}

/// Reversing a line mirrors it: a point lies on the line drawn from
/// `(x1, y1)` to `(x0, y0)` exactly when its mirror image through the
/// midpoint of the two ends lies on the line drawn from `(x0, y0)` to
/// `(x1, y1)`.
pub proof fn lemma_line_reversed(x0: int, y0: int, x1: int, y1: int, px: int, py: int)
    ensures
        on_line(x1, y1, x0, y0, px, py) == on_line(x0, y0, x1, y1, x0 + x1 - px, y0 + y1 - py),
{
    if on_line(x1, y1, x0, y0, px, py) {
        let m = choose|m: nat| #[trigger] line_at(x1, y1, x0, y0, m, px, py);
        lemma_line_walk_mirrored(x0, y0, x1, y1, m);
        assert(line_at(x0, y0, x1, y1, m, x0 + x1 - px, y0 + y1 - py));
    }
    if on_line(x0, y0, x1, y1, x0 + x1 - px, y0 + y1 - py) {
        let m = choose|m: nat| #[trigger] line_at(x0, y0, x1, y1, m, x0 + x1 - px, y0 + y1 - py);
        lemma_line_walk_mirrored(x0, y0, x1, y1, m);
        assert(line_at(x1, y1, x0, y0, m, px, py));
    }
}

/// Whether the line from `(x0, y0)` to `(x1, y1)` is its own mirror image
/// through the midpoint of its ends.
pub open spec fn line_self_mirrored(x0: int, y0: int, x1: int, y1: int) -> bool {
    forall|px: int, py: int| #[trigger]
        on_line(x0, y0, x1, y1, px, py) == on_line(x0, y0, x1, y1, x0 + x1 - px, y0 + y1 - py)
}

/// Whether drawing in either direction gives the same points.
pub open spec fn line_direction_free(x0: int, y0: int, x1: int, y1: int) -> bool {
    forall|px: int, py: int| #[trigger]
        on_line(x0, y0, x1, y1, px, py) == on_line(x1, y1, x0, y0, px, py)
}

/// A line has the same points in both directions exactly when it is its
/// own mirror image through the midpoint of its ends.
pub proof fn lemma_line_symmetry(x0: int, y0: int, x1: int, y1: int)
    ensures
        line_direction_free(x0, y0, x1, y1) == line_self_mirrored(x0, y0, x1, y1),
{
    if line_self_mirrored(x0, y0, x1, y1) {
        assert forall|px: int, py: int| #[trigger]
            on_line(x0, y0, x1, y1, px, py) == on_line(x1, y1, x0, y0, px, py) by {
            lemma_line_reversed(x0, y0, x1, y1, px, py);
        }
    }
    if line_direction_free(x0, y0, x1, y1) {
        assert forall|px: int, py: int| #[trigger]
            on_line(x0, y0, x1, y1, px, py) == on_line(
                x0,
                y0,
                x1,
                y1,
                x0 + x1 - px,
                y0 + y1 - py,
            ) by {
            lemma_line_reversed(x0, y0, x1, y1, px, py);
        }
    }
}

/// A line that is its own mirror image has the same points in both
/// directions.
pub proof fn lemma_line_same_both_ways(x0: int, y0: int, x1: int, y1: int, px: int, py: int)
    requires
        line_self_mirrored(x0, y0, x1, y1),
    ensures
        on_line(x0, y0, x1, y1, px, py) == on_line(x1, y1, x0, y0, px, py),
{
    lemma_line_reversed(x0, y0, x1, y1, px, py);
}

/// Not every line is its own mirror image. Where the error term ties, the
/// walk takes the diagonal step first in either direction: from `(0, 0)`
/// to `(2, 1)` it passes `(1, 1)`, and on the way back it passes `(1, 0)`
/// and not `(1, 1)`.
pub proof fn lemma_line_tie_is_one_sided()
    ensures
        on_line(0, 0, 2, 1, 1, 1),
        !on_line(2, 1, 0, 0, 1, 1),
        !line_direction_free(0, 0, 2, 1),
{
    reveal_with_fuel(line_walk, 4);
    assert(line_at(0, 0, 2, 1, 1, 1, 1));
    assert(line_at(2, 1, 0, 0, 2, 0, 0));
    assert forall|k: nat| !#[trigger] line_at(2, 1, 0, 0, k, 1, 1) by {
        if k >= 2 {
            lemma_line_rests(2, 1, 0, 0, 2, k);
        }
    }
    if line_direction_free(0, 0, 2, 1) {
        assert(on_line(0, 0, 2, 1, 1, 1) == on_line(2, 1, 0, 0, 1, 1));
    }
}

/// Whether the line is horizontal, vertical, or an exact diagonal.
pub open spec fn line_is_straight(x0: int, y0: int, x1: int, y1: int) -> bool {
    x0 == x1 || y0 == y1 || dist(x0, x1) == dist(y0, y1)
}

/// The number of steps that a straight line takes: the larger of the two
/// axis distances.
pub open spec fn straight_steps(x0: int, y0: int, x1: int, y1: int) -> nat {
    if dist(x0, x1) >= dist(y0, y1) {
        dist(x0, x1) as nat
    } else {
        dist(y0, y1) as nat
    }
}

/// The coordinate `k` unit steps from `from` toward `to`, or `from` itself
/// when the two are equal.
pub open spec fn straight_coord(from: int, to: int, k: int) -> int {
    if from < to {
        from + k
    } else if from > to {
        from - k
    } else {
        from
    }
}

/// On a straight line each step moves one unit along every axis on which
/// the ends differ, and the error stays where it started.
pub proof fn lemma_straight_walk(x0: int, y0: int, x1: int, y1: int, k: nat)
    requires
        line_is_straight(x0, y0, x1, y1),
        k <= straight_steps(x0, y0, x1, y1),
    ensures
        line_walk(x0, y0, x1, y1, k) == (LineWalk {
            x: straight_coord(x0, x1, k as int),
            y: straight_coord(y0, y1, k as int),
            err: dist(x0, x1) - dist(y0, y1),
        }),
    decreases k,
{
    if k > 0 {
        lemma_straight_walk(x0, y0, x1, y1, (k - 1) as nat);
    }
}

/// A straight line contains the mirror image of each of its points.
pub proof fn lemma_straight_line_mirrored(x0: int, y0: int, x1: int, y1: int, px: int, py: int)
    requires
        line_is_straight(x0, y0, x1, y1),
        on_line(x0, y0, x1, y1, px, py),
    ensures
        on_line(x0, y0, x1, y1, x0 + x1 - px, y0 + y1 - py),
{
    let n = straight_steps(x0, y0, x1, y1);
    let m = choose|m: nat| #[trigger] line_at(x0, y0, x1, y1, m, px, py);
    lemma_straight_walk(x0, y0, x1, y1, n);
    assert(line_at(x0, y0, x1, y1, n, x1, y1));
    let k = if m <= n {
        m
    } else {
        n
    };
    if m > n {
        lemma_line_rests(x0, y0, x1, y1, n, m);
    }
    lemma_straight_walk(x0, y0, x1, y1, k);
    lemma_straight_walk(x0, y0, x1, y1, (n - k) as nat);
    assert(line_at(x0, y0, x1, y1, (n - k) as nat, x0 + x1 - px, y0 + y1 - py));
}

/// A horizontal, vertical or exactly diagonal line has the same points in
/// both directions.
pub proof fn lemma_straight_line_symmetric(x0: int, y0: int, x1: int, y1: int)
    requires
        line_is_straight(x0, y0, x1, y1),
    ensures
        line_direction_free(x0, y0, x1, y1),
{
    assert forall|px: int, py: int| #[trigger]
        on_line(x0, y0, x1, y1, px, py) == on_line(
            x0,
            y0,
            x1,
            y1,
            x0 + x1 - px,
            y0 + y1 - py,
        ) by {
        if on_line(x0, y0, x1, y1, px, py) {
            lemma_straight_line_mirrored(x0, y0, x1, y1, px, py);
        }
        if on_line(x0, y0, x1, y1, x0 + x1 - px, y0 + y1 - py) {
            lemma_straight_line_mirrored(x0, y0, x1, y1, x0 + x1 - px, y0 + y1 - py);
        }
    }
    lemma_line_symmetry(x0, y0, x1, y1);
}

/// The largest magnitude of a coordinate that the walk is run on.
pub open spec fn coord_limit() -> int {
    0x1_0000_0000_0000_0000
}

/// Draws the line on coordinates of up to 65 bits.
fn draw_line_wide(fb: &mut Framebuffer, x0: i128, y0: i128, x1: i128, y1: i128, color: u8)
    requires
        old(fb).wf(),
        -coord_limit() <= x0 <= coord_limit(),
        -coord_limit() <= y0 <= coord_limit(),
        -coord_limit() <= x1 <= coord_limit(),
        -coord_limit() <= y1 <= coord_limit(),
    ensures
        final(fb).drew_on(old(fb)),
        forall|i: int, j: int| #[trigger]
            final(fb).px(i, j) == if old(fb).inside(i, j) && on_line(
                x0 as int,
                y0 as int,
                x1 as int,
                y1 as int,
                i,
                j,
            ) {
                color
            } else {
                old(fb).px(i, j)
            },
{
    let dx: i128 = if x0 < x1 {
        x1 - x0
    } else {
        x0 - x1
    };
    let dy: i128 = if y0 < y1 {
        y0 - y1
    } else {
        y1 - y0
    };
    let sx: i128 = if x0 < x1 {
        1
    } else {
        -1
    };
    let sy: i128 = if y0 < y1 {
        1
    } else {
        -1
    };
    let w: i128 = fb_width(fb) as i128;
    let h: i128 = fb_height(fb) as i128;
    let mut x: i128 = x0;
    let mut y: i128 = y0;
    let mut err: i128 = dx + dy;
    let ghost mut k: nat = 0;
    if 0 <= x && x < w && 0 <= y && y < h {
        fb_set_pixel_enhanced(fb, x as usize, y as usize, color);
    }
    proof {
        lemma_line_walk_inv(x0 as int, y0 as int, x1 as int, y1 as int, 0);
        assert forall|i: int, j: int|
            #[trigger] line_hits(x0 as int, y0 as int, x1 as int, y1 as int, 1, i, j) == (i == x0
                && j == y0) by {
            reveal_with_fuel(line_hits, 2);
        }
    }
    while !(x == x1 && y == y1)
        invariant
            fb.drew_on(old(fb)),
            -coord_limit() <= x0 <= coord_limit(),
            -coord_limit() <= y0 <= coord_limit(),
            -coord_limit() <= x1 <= coord_limit(),
            -coord_limit() <= y1 <= coord_limit(),
            dx == dist(x0 as int, x1 as int),
            dy == -dist(y0 as int, y1 as int),
            sx == toward(x0 as int, x1 as int),
            sy == toward(y0 as int, y1 as int),
            w == fb.width(),
            h == fb.height(),
            line_walk(x0 as int, y0 as int, x1 as int, y1 as int, k) == (LineWalk {
                x: x as int,
                y: y as int,
                err: err as int,
            }),
            line_inv(
                x0 as int,
                y0 as int,
                x1 as int,
                y1 as int,
                line_walk(x0 as int, y0 as int, x1 as int, y1 as int, k),
            ),
            forall|i: int, j: int| #[trigger]
                fb.px(i, j) == if old(fb).inside(i, j) && line_hits(
                    x0 as int,
                    y0 as int,
                    x1 as int,
                    y1 as int,
                    k + 1,
                    i,
                    j,
                ) {
                    color
                } else {
                    old(fb).px(i, j)
                },
        decreases dist(x as int, x1 as int) + dist(y as int, y1 as int),
    {
        proof {
            lemma_line_step(
                x0 as int,
                y0 as int,
                x1 as int,
                y1 as int,
                line_walk(x0 as int, y0 as int, x1 as int, y1 as int, k),
            );
        }
        let e2: i128 = 2 * err;
        if e2 >= dy {
            err += dy;
            x += sx;
        }
        if e2 <= dx {
            err += dx;
            y += sy;
        }
        proof {
            k = k + 1;
        }
        if 0 <= x && x < w && 0 <= y && y < h {
            fb_set_pixel_enhanced(fb, x as usize, y as usize, color);
        }
    }
    proof {
        lemma_line_complete(x0 as int, y0 as int, x1 as int, y1 as int, k);
    }
}

/// Draws the line from `(x0, y0)` to `(x1, y1)`, both ends included: every
/// point of the walk that lies on the surface takes `color`, and nothing
/// else changes. Points off the surface are skipped and the walk goes on.
pub fn fb_draw_line(fb: &mut Framebuffer, x0: isize, y0: isize, x1: isize, y1: isize, color: u8)
    requires
        old(fb).wf(),
    ensures
        final(fb).drew_on(old(fb)),
        forall|i: int, j: int| #[trigger]
            final(fb).px(i, j) == if old(fb).inside(i, j) && on_line(
                x0 as int,
                y0 as int,
                x1 as int,
                y1 as int,
                i,
                j,
            ) {
                color
            } else {
                old(fb).px(i, j)
            },
{
    draw_line_wide(fb, x0 as i128, y0 as i128, x1 as i128, y1 as i128, color);
}

/// Whether `(px, py)` lies on one of the three sides of the triangle, each
/// drawn in the order first to second, second to third, third to first.
pub open spec fn on_triangle(
    x0: int,
    y0: int,
    x1: int,
    y1: int,
    x2: int,
    y2: int,
    px: int,
    py: int,
) -> bool {
    on_line(x0, y0, x1, y1, px, py) || on_line(x1, y1, x2, y2, px, py) || on_line(
        x2,
        y2,
        x0,
        y0,
        px,
        py,
    )
}

/// Draws the outline of a triangle: three lines joining the corners in
/// pairs. The inside is not filled.
pub fn fb_draw_triangle(
    fb: &mut Framebuffer,
    x0: usize,
    y0: usize,
    x1: usize,
    y1: usize,
    x2: usize,
    y2: usize,
    color: u8,
)
    requires
        old(fb).wf(),
    ensures
        final(fb).drew_on(old(fb)),
        forall|i: int, j: int| #[trigger]
            final(fb).px(i, j) == if old(fb).inside(i, j) && on_triangle(
                x0 as int,
                y0 as int,
                x1 as int,
                y1 as int,
                x2 as int,
                y2 as int,
                i,
                j,
            ) {
                color
            } else {
                old(fb).px(i, j)
            },
{
    draw_line_wide(fb, x0 as i128, y0 as i128, x1 as i128, y1 as i128, color);
    draw_line_wide(fb, x1 as i128, y1 as i128, x2 as i128, y2 as i128, color);
    draw_line_wide(fb, x2 as i128, y2 as i128, x0 as i128, y0 as i128, color);
}

} // verus!
