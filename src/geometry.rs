//! Placement of entities in the arena and the axis-aligned overlap test.
//!
//! Lengths are fixed-point integers with `UNIT` steps per world unit.
use vstd::prelude::*;

verus! {

/// Fixed-point steps per world unit.
pub const UNIT: i32 = 1000;

/// A point or a velocity in the plane.
#[derive(Clone, Copy, Debug, PartialEq, Eq, Structural)]
pub struct Vector2 {
    pub x: i32,
    pub y: i32,
}

/// Steps per unit of scale.
pub const SCALE_ONE: i32 = 1000;

/// World position, rotation and scale of an entity. The rotation is in
/// micro-degrees (see `crate::angle::FULL_TURN`), the scale in
/// `SCALE_ONE` steps (drawing only: hitboxes carry their own size).
#[derive(Clone, Copy, Debug, PartialEq, Eq, Structural)]
pub struct Transform {
    pub x: i32,
    pub y: i32,
    pub rotation: i32,
    pub scale: i32,
}

/// Rectangle of an entity, centered on its position plus a local offset.
/// The offset rotation is carried for downstream physics; the overlap test
/// itself stays axis-aligned.
#[derive(Clone, Copy, Debug, PartialEq, Eq, Structural)]
pub struct Hitbox2DComponent {
    pub width: i32,
    pub height: i32,
    pub offset_x: i32,
    pub offset_y: i32,
    pub offset_rotation: i32,
}

/// Twice the world center of a box along x (doubling keeps half extents exact).
pub open spec fn center2_x(t: Transform, h: Hitbox2DComponent) -> int {
    2 * (t.x + h.offset_x)
}

pub open spec fn center2_y(t: Transform, h: Hitbox2DComponent) -> int {
    2 * (t.y + h.offset_y)
}

/// The separating-axis test: the boxes meet on both axes, with
/// `x1 < x2 + w2 && x1 + w1 > x2` for left edges `x1`, `x2`, all doubled.
pub open spec fn overlap_spec(
    ta: Transform,
    ha: Hitbox2DComponent,
    tb: Transform,
    hb: Hitbox2DComponent,
) -> bool {
    &&& center2_x(ta, ha) - ha.width < center2_x(tb, hb) + hb.width
    &&& center2_x(ta, ha) + ha.width > center2_x(tb, hb) - hb.width
    &&& center2_y(ta, ha) - ha.height < center2_y(tb, hb) + hb.height
    &&& center2_y(ta, ha) + ha.height > center2_y(tb, hb) - hb.height
}

/// Tests whether the hitboxes of two entities overlap this frame.
pub fn hitbox_collide(
    ta: &Transform,
    ha: &Hitbox2DComponent,
    tb: &Transform,
    hb: &Hitbox2DComponent,
) -> (r: bool)
    ensures
        r == overlap_spec(*ta, *ha, *tb, *hb),
{
    let ax: i64 = 2 * (ta.x as i64 + ha.offset_x as i64);
    let ay: i64 = 2 * (ta.y as i64 + ha.offset_y as i64);
    let bx: i64 = 2 * (tb.x as i64 + hb.offset_x as i64);
    let by: i64 = 2 * (tb.y as i64 + hb.offset_y as i64);
    ax - (ha.width as i64) < bx + (hb.width as i64) && ax + (ha.width as i64) > bx
        - (hb.width as i64) && ay - (ha.height as i64) < by + (hb.height as i64) && ay
        + (ha.height as i64) > by - (hb.height as i64)
}

/// Overlap does not depend on the order of the two entities.
pub proof fn lemma_overlap_symmetric(
    ta: Transform,
    ha: Hitbox2DComponent,
    tb: Transform,
    hb: Hitbox2DComponent,
)
    ensures
        overlap_spec(ta, ha, tb, hb) == overlap_spec(tb, hb, ta, ha),
{
}

} // verus!
