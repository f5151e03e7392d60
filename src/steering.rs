//! Homing: picking the nearest target and turning toward it.
use vstd::prelude::*;
use crate::angle::{signed_angle, signed_spec};
use crate::geometry::Vector2;
use crate::motion::{approach, step_toward, Motion2DComponent};
use crate::num::{sat, saturate, tdiv, trunc_div};

verus! {

/// Unit direction vectors are given with this many steps per unit.
pub const DIRECTION_SCALE: i32 = 1_000_000;

/// Squared Euclidean distance between two points.
pub open spec fn dist_sq(a: Vector2, b: Vector2) -> int {
    (a.x - b.x) * (a.x - b.x) + (a.y - b.y) * (a.y - b.y)
}

/// Squared distance between two points (exact; ordering by it is ordering
/// by distance).
pub fn get_distance(a: Vector2, b: Vector2) -> (r: i128)
    ensures
        r == dist_sq(a, b),
{
    let dx: i128 = a.x as i128 - b.x as i128;
    let dy: i128 = a.y as i128 - b.y as i128;
    assert(dx * dx <= 0x1_0000_0000 * 0x1_0000_0000) by (nonlinear_arith)
        requires
            -0x1_0000_0000 <= dx <= 0x1_0000_0000,
    ;
    assert(dy * dy <= 0x1_0000_0000 * 0x1_0000_0000) by (nonlinear_arith)
        requires
            -0x1_0000_0000 <= dy <= 0x1_0000_0000,
    ;
    assert(dx * dx >= 0 && dy * dy >= 0) by (nonlinear_arith);
    dx * dx + dy * dy
}

/// Index of the candidate nearest to `p` among the first `n`, scanning in
/// order and replacing the best only on a strictly smaller distance.
pub open spec fn closest_upto(p: Vector2, s: Seq<Vector2>, n: int) -> int
    decreases n,
{
    if n <= 1 {
        0
    } else {
        let b = closest_upto(p, s, n - 1);
        if dist_sq(s[n - 1], p) < dist_sq(s[b], p) {
            n - 1
        } else {
            b
        }
    }
}

/// The nearest candidate to `p`, the first one found on a tie; `None` when
/// there is none.
pub fn closest_target(p: Vector2, candidates: &Vec<Vector2>) -> (r: Option<usize>)
    ensures
        r is None <==> candidates@.len() == 0,
        r is Some ==> r->0 == closest_upto(p, candidates@, candidates@.len() as int),
        r is Some ==> r->0 < candidates@.len(),
{
    if candidates.len() == 0 {
        return None;
    }
    let mut best: usize = 0;
    let mut best_d = get_distance(candidates[0], p);
    let mut i: usize = 1;
    while i < candidates.len()
        invariant
            1 <= i <= candidates@.len(),
            best == closest_upto(p, candidates@, i as int),
            best < i,
            best_d == dist_sq(candidates@[best as int], p),
        decreases candidates@.len() - i,
    {
        let d = get_distance(candidates[i], p);
        if d < best_d {
            best = i;
            best_d = d;
        }
        i = i + 1;
    }
    Some(best)
}

/// The selection is a nearest candidate, and every candidate before it is
/// strictly farther: among equidistant candidates the first in scan order
/// wins.
pub proof fn lemma_closest_is_first_nearest(p: Vector2, s: Seq<Vector2>, n: int)
    requires
        0 < n <= s.len(),
    ensures
        0 <= closest_upto(p, s, n) < n,
        forall|j: int|
            0 <= j < n ==> dist_sq(#[trigger] s[j], p) >= dist_sq(s[closest_upto(p, s, n)], p),
        forall|j: int|
            0 <= j < closest_upto(p, s, n) ==> dist_sq(#[trigger] s[j], p) > dist_sq(
                s[closest_upto(p, s, n)],
                p,
            ),
    decreases n,
{
    if n > 1 {
        lemma_closest_is_first_nearest(p, s, n - 1);
    }
}

/// Of two equidistant candidates, the later one in scan order is never
/// selected: the earlier one, or one before both, is.
pub proof fn lemma_tie_keeps_first(p: Vector2, s: Seq<Vector2>, i: int, j: int)
    requires
        0 <= i < j < s.len(),
        dist_sq(s[i], p) == dist_sq(s[j], p),
    ensures
        closest_upto(p, s, s.len() as int) != j,
{
    lemma_closest_is_first_nearest(p, s, s.len() as int);
    assert(dist_sq(s[i], p) >= dist_sq(s[closest_upto(p, s, s.len() as int)], p));
}

/// The angular velocity after steering from heading `current` toward
/// `desired`: toward full turning speed on the side of the shorter turn,
/// or toward zero when already aligned.
pub open spec fn turned(m: Motion2DComponent, current: int, desired: int) -> Motion2DComponent {
    let diff = signed_spec(desired - current);
    let target = if diff > 0 {
        m.angular_speed as int
    } else if diff < 0 {
        -m.angular_speed
    } else {
        0
    };
    let step = if diff == 0 {
        m.angular_deceleration
    } else {
        m.angular_acceleration
    };
    Motion2DComponent {
        angular_velocity: step_toward(m.angular_velocity as int, target, step as int) as i32,
        ..m
    }
}

/// Steers the angular velocity from heading `current` toward `desired`.
/// The turn is limited by the angular acceleration; the integrator's clamp
/// keeps it under the max angular speed.
pub fn turn_towards_heading(m: &mut Motion2DComponent, current: i32, desired: i32)
    requires
        old(m).wf(),
    ensures
        *final(m) == turned(*old(m), current as int, desired as int),
        final(m).wf(),
{
    let diff = signed_angle(desired as i64 - current as i64);
    let target: i32 = if diff > 0 {
        m.angular_speed
    } else if diff < 0 {
        -m.angular_speed
    } else {
        0
    };
    let step: i32 = if diff == 0 {
        m.angular_deceleration
    } else {
        m.angular_acceleration
    };
    m.angular_velocity = approach(m.angular_velocity, target, step);
}

/// Cruising velocity along a unit direction `f` given in `DIRECTION_SCALE`
/// steps.
pub open spec fn forward_target(speed: int, f: int) -> int {
    sat(tdiv(speed * f, DIRECTION_SCALE as int))
}

pub open spec fn moved_forward(m: Motion2DComponent, fx: int, fy: int) -> Motion2DComponent {
    Motion2DComponent {
        velocity_x: step_toward(
            m.velocity_x as int,
            forward_target(m.speed_x as int, fx),
            m.acceleration_x as int,
        ) as i32,
        velocity_y: step_toward(
            m.velocity_y as int,
            forward_target(m.speed_y as int, fy),
            m.acceleration_y as int,
        ) as i32,
        ..m
    }
}

fn forward_axis(speed: i32, f: i32) -> (r: i32)
    ensures
        r == forward_target(speed as int, f as int),
{
    assert(-0x4000_0000_0000_0000 <= speed as int * f as int <= 0x4000_0000_0000_0000)
        by (nonlinear_arith)
        requires
            i32::MIN <= speed <= i32::MAX,
            i32::MIN <= f <= i32::MAX,
    ;
    let p: i128 = speed as i128 * f as i128;
    saturate(trunc_div(p, DIRECTION_SCALE as i128))
}

/// Accelerates toward cruising speed along the heading whose unit vector
/// is `(fx, fy)`, in `DIRECTION_SCALE` steps.
pub fn move_forward(m: &mut Motion2DComponent, fx: i32, fy: i32)
    requires
        old(m).wf(),
    ensures
        *final(m) == moved_forward(*old(m), fx as int, fy as int),
        final(m).wf(),
{
    let tx = forward_axis(m.speed_x, fx);
    let ty = forward_axis(m.speed_y, fy);
    m.velocity_x = approach(m.velocity_x, tx, m.acceleration_x);
    m.velocity_y = approach(m.velocity_y, ty, m.acceleration_y);
}

} // verus!
