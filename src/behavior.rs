//! How each kind of mob moves on its own, every tick.
use vstd::prelude::*;
use crate::angle::{signed_angle, signed_spec};
use crate::arena::ArenaBounds;
use crate::geometry::{Hitbox2DComponent, UNIT};
use crate::motion::Motion2DComponent;
use crate::kinds::{EnemyType, MobType};
use crate::steering::{move_forward, moved_forward, turn_towards_heading, turned};
use crate::world::{Entity, MobComponent};

verus! {

/// Depth below the top of the arena where each repeater part stops
/// descending and starts backing up.
pub const REPEATER_BODY_STOP: i32 = 30 * UNIT;

pub const REPEATER_HEAD_STOP: i32 = 67 * UNIT;

pub const REPEATER_LIMB_STOP: i32 = 32 * UNIT;

/// Tilt (micro-degrees, about 0.1 rad) past which a repeater shoulder's
/// swing is set.
pub const SHOULDER_SWING_LIMIT: i32 = 5_729_578;

/// Angular velocity (micro-degrees per second, about 0.05 rad/s) of a
/// repeater shoulder's swing.
pub const SHOULDER_SWING_RATE: i32 = 2_864_789;

/// Steering for a homing mob this tick: the rotation it should face and
/// the unit vector (in `DIRECTION_SCALE` steps) of the way it faces now.
#[derive(Clone, Copy, Debug, PartialEq, Eq, Structural)]
pub struct Guidance {
    pub desired_rotation: i32,
    pub forward_x: i32,
    pub forward_y: i32,
}

/// The motion of a mob that descends and brakes sideways.
pub open spec fn descended(e: Entity) -> Entity {
    Entity { motion: e.motion.moved_down().braked_horizontal(), ..e }
}

/// A repeater part descends until it is `stop` below the top of the arena,
/// then backs up.
pub open spec fn repeater_moved(e: Entity, b: ArenaBounds, stop: int) -> Entity {
    if e.transform.y > b.min_y + b.height - stop {
        Entity { motion: e.motion.moved_down(), ..e }
    } else {
        Entity { motion: e.motion.moved_up(), ..e }
    }
}

/// A repeater shoulder's angular velocity is set once it tilts past the
/// swing limit.
pub open spec fn swung(e: Entity) -> Entity {
    let a = signed_spec(e.transform.rotation as int);
    if a > SHOULDER_SWING_LIMIT {
        Entity {
            motion: Motion2DComponent {
                angular_velocity: SHOULDER_SWING_RATE,
                ..e.motion
            },
            ..e
        }
    } else if a < -SHOULDER_SWING_LIMIT {
        Entity {
            motion: Motion2DComponent {
                angular_velocity: (-SHOULDER_SWING_RATE) as i32,
                ..e.motion
            },
            ..e
        }
    } else {
        e
    }
}

/// A mob after its own movement for this tick.
pub open spec fn moved_mob(e: Entity, mob: MobComponent, g: Option<Guidance>, b: ArenaBounds) -> Entity {
    match mob.mob_type {
        MobType::Enemy(EnemyType::StraferRight) | MobType::Enemy(EnemyType::StraferLeft) => Entity {
            motion: e.motion.moved_down().strafed(),
            ..e
        },
        MobType::Enemy(EnemyType::Missile) => match (mob.target_position, g) {
            (Some(_), Some(gd)) => Entity {
                motion: moved_forward(
                    turned(e.motion, e.transform.rotation as int, gd.desired_rotation as int),
                    gd.forward_x as int,
                    gd.forward_y as int,
                ),
                hitbox: Hitbox2DComponent {
                    offset_rotation: e.transform.rotation,
                    ..e.hitbox
                },
                ..e
            },
            _ => descended(e),
        },
        MobType::Enemy(EnemyType::RepeaterBody) => repeater_moved(e, b, REPEATER_BODY_STOP as int),
        MobType::Enemy(EnemyType::RepeaterHead) => repeater_moved(e, b, REPEATER_HEAD_STOP as int),
        MobType::Enemy(EnemyType::RepeaterLeftShoulder) | MobType::Enemy(
            EnemyType::RepeaterRightShoulder,
        ) => swung(repeater_moved(e, b, REPEATER_LIMB_STOP as int)),
        MobType::Enemy(EnemyType::RepeaterLeftArm) | MobType::Enemy(EnemyType::RepeaterRightArm) => {
            repeater_moved(e, b, REPEATER_LIMB_STOP as int)
        },
        _ => descended(e),
    }
}

fn move_repeater(e: &mut Entity, b: &ArenaBounds, stop: i32)
    requires
        old(e).motion.wf(),
    ensures
        *final(e) == repeater_moved(*old(e), *b, stop as int),
        final(e).motion.wf(),
{
    if e.transform.y as i64 > b.min_y as i64 + b.height as i64 - stop as i64 {
        e.motion.move_down();
    } else {
        e.motion.move_up();
    }
}

/// Applies a mob's own movement for this tick.
pub fn move_enemy(e: &mut Entity, mob: &MobComponent, g: Option<Guidance>, b: &ArenaBounds)
    requires
        old(e).motion.wf(),
    ensures
        *final(e) == moved_mob(*old(e), *mob, g, *b),
        final(e).motion.wf(),
{
    match mob.mob_type {
        MobType::Enemy(EnemyType::StraferRight) | MobType::Enemy(EnemyType::StraferLeft) => {
            e.motion.move_down();
            e.motion.strafe();
        },
        MobType::Enemy(EnemyType::Missile) => {
            match (mob.target_position, g) {
                (Some(_), Some(gd)) => {
                    let rotation = e.transform.rotation;
                    turn_towards_heading(&mut e.motion, rotation, gd.desired_rotation);
                    e.hitbox.offset_rotation = rotation;
                    move_forward(&mut e.motion, gd.forward_x, gd.forward_y);
                },
                _ => {
                    e.motion.move_down();
                    e.motion.brake_horizontal();
                },
            }
        },
        MobType::Enemy(EnemyType::RepeaterBody) => {
            move_repeater(e, b, REPEATER_BODY_STOP);
        },
        MobType::Enemy(EnemyType::RepeaterHead) => {
            move_repeater(e, b, REPEATER_HEAD_STOP);
        },
        MobType::Enemy(EnemyType::RepeaterLeftShoulder) | MobType::Enemy(
            EnemyType::RepeaterRightShoulder,
        ) => {
            move_repeater(e, b, REPEATER_LIMB_STOP);
            let a = signed_angle(e.transform.rotation as i64);
            if a > SHOULDER_SWING_LIMIT {
                e.motion.angular_velocity = SHOULDER_SWING_RATE;
            } else if a < -SHOULDER_SWING_LIMIT {
                e.motion.angular_velocity = -SHOULDER_SWING_RATE;
            }
        },
        MobType::Enemy(EnemyType::RepeaterLeftArm) | MobType::Enemy(EnemyType::RepeaterRightArm) => {
            move_repeater(e, b, REPEATER_LIMB_STOP);
        },
        _ => {
            e.motion.move_down();
            e.motion.brake_horizontal();
        },
    }
}

} // verus!
