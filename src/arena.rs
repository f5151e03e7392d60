//! The arena's edges: side bounce and the bottom line.
use vstd::prelude::*;
use crate::geometry::{Hitbox2DComponent, Transform};
use crate::motion::Motion2DComponent;
use crate::num::{sat, saturate};

verus! {

/// The playing field: x in `[min_x, max_x]`, y from `min_y` up to
/// `min_y + height`.
#[derive(Clone, Copy, Debug, PartialEq, Eq, Structural)]
pub struct ArenaBounds {
    pub min_x: i32,
    pub max_x: i32,
    pub min_y: i32,
    pub height: i32,
}

/// The hitbox sticks out past the left or the right edge.
pub open spec fn past_side(t: Transform, h: Hitbox2DComponent, b: ArenaBounds) -> bool {
    2 * t.x + h.width > 2 * b.max_x || 2 * t.x - h.width < 2 * b.min_x
}

/// The hitbox sticks out below the bottom edge.
pub open spec fn past_bottom(t: Transform, h: Hitbox2DComponent, b: ArenaBounds) -> bool {
    2 * t.y - h.height < 2 * b.min_y
}

/// The motion after the side bounce: horizontal velocity flips sign when
/// the entity is past a side edge.
pub open spec fn bounced(
    t: Transform,
    h: Hitbox2DComponent,
    m: Motion2DComponent,
    b: ArenaBounds,
) -> Motion2DComponent {
    if past_side(t, h, b) {
        Motion2DComponent { velocity_x: sat(-m.velocity_x) as i32, ..m }
    } else {
        m
    }
}

/// Bounces the entity off the side edges and reports whether it has
/// reached the bottom, where it is to despawn.
pub fn constrain_to_arena(
    t: &Transform,
    h: &Hitbox2DComponent,
    m: &mut Motion2DComponent,
    b: &ArenaBounds,
) -> (reached_bottom: bool)
    ensures
        *final(m) == bounced(*t, *h, *old(m), *b),
        reached_bottom == past_bottom(*t, *h, *b),
{
    let x2: i64 = 2 * t.x as i64;
    let w: i64 = h.width as i64;
    if x2 + w > 2 * b.max_x as i64 || x2 - w < 2 * b.min_x as i64 {
        m.velocity_x = saturate(-(m.velocity_x as i128));
    }
    2 * t.y as i64 - (h.height as i64) < 2 * b.min_y as i64
}

/// An entity moving right at `v` that crosses the right edge moves left at
/// `v` afterwards, with its vertical velocity unchanged.
pub proof fn lemma_boundary_reflection(
    t: Transform,
    h: Hitbox2DComponent,
    m: Motion2DComponent,
    b: ArenaBounds,
)
    requires
        m.velocity_x > 0,
        2 * t.x + h.width > 2 * b.max_x,
    ensures
        bounced(t, h, m, b).velocity_x == -m.velocity_x,
        bounced(t, h, m, b).velocity_y == m.velocity_y,
{
}

} // verus!
