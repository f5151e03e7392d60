//! Blasters: what a shot spawns, and the manual fire timer.
use vstd::prelude::*;
use rand::Rng;
use crate::geometry::{Hitbox2DComponent, Transform, Vector2, UNIT};
use crate::health::HealthComponent;
use crate::kinds::BlastType;
use crate::motion::Motion2DComponent;
use crate::num::{sat, saturate, tdiv, trunc_div};
use crate::world::{BlastComponent, Category, Entity};

verus! {

/// Chances are given in millionths.
pub const CHANCE_SCALE: u32 = 1_000_000;

/// Multipliers are given in thousandths.
pub const MULTIPLIER_SCALE: i32 = 1000;

/// Hitbox side of a blast at size multiplier one.
pub const BLAST_HITBOX_DIAMETER: i32 = 2 * UNIT;

/// Speed limit of a blast along each axis.
pub const BLAST_MAX_SPEED: i32 = 1000 * UNIT;

#[derive(Clone, Copy, Debug, PartialEq, Eq, Structural)]
pub struct BlasterComponent {
    /// Blasts per shot.
    pub count: usize,
    pub allied: bool,
    pub shot_velocity: Vector2,
    /// Share of the source's velocity added to the blasts, in thousandths.
    pub velocity_multiplier: i32,
    /// Where blasts spawn, relative to the source's position.
    pub offset: Vector2,
    pub damage: i32,
    pub poison_damage: i32,
    /// Chance of a poison blast, in millionths.
    pub poison_chance: u32,
    /// Chance of a critical blast, in millionths.
    pub crit_chance: u32,
    /// Blast size, in thousandths.
    pub size_multiplier: i32,
    /// Distance between neighbouring blasts of a shot, along x.
    pub spacing: i32,
}

/// Automatic fire period and timer, in milliseconds.
#[derive(Clone, Copy, Debug, PartialEq, Eq, Structural)]
pub struct AutoFireComponent {
    pub period: i32,
    pub timer: i32,
}

/// Manual fire period and timer, in milliseconds, and whether the weapon
/// is ready.
#[derive(Clone, Copy, Debug, PartialEq, Eq, Structural)]
pub struct ManualFireComponent {
    pub period: i32,
    pub timer: i32,
    pub ready: bool,
}

/// The kind of blast a shot makes: poison beats critical, critical beats
/// the blaster's allegiance.
pub open spec fn shot_type(b: BlasterComponent, crit_roll: u32, poison_roll: u32) -> BlastType {
    if poison_roll < b.poison_chance {
        BlastType::AllyPoison
    } else if crit_roll < b.crit_chance {
        BlastType::AllyCritical
    } else if b.allied {
        BlastType::Ally
    } else {
        BlastType::Enemy
    }
}

pub open spec fn shot_blast(b: BlasterComponent, crit_roll: u32, poison_roll: u32) -> BlastComponent {
    BlastComponent {
        blast_type: shot_type(b, crit_roll, poison_roll),
        damage: if crit_roll < b.crit_chance {
            sat(2 * b.damage) as i32
        } else {
            b.damage
        },
        poison_damage: if poison_roll < b.poison_chance {
            b.poison_damage
        } else {
            0
        },
    }
}

pub open spec fn shot_hitbox(b: BlasterComponent) -> Hitbox2DComponent {
    let side = sat(tdiv(BLAST_HITBOX_DIAMETER * b.size_multiplier, MULTIPLIER_SCALE as int)) as i32;
    Hitbox2DComponent { width: side, height: side, offset_x: 0, offset_y: 0, offset_rotation: 0 }
}

/// Blast velocity along one axis: the scaled source velocity plus the shot
/// velocity.
pub open spec fn shot_speed(source: int, multiplier: int, shot: int) -> int {
    sat(tdiv(source * multiplier, MULTIPLIER_SCALE as int) + shot)
}

pub open spec fn shot_motion(b: BlasterComponent, m: Motion2DComponent) -> Motion2DComponent {
    Motion2DComponent {
        velocity_x: shot_speed(m.velocity_x as int, b.velocity_multiplier as int, b.shot_velocity.x as int) as i32,
        velocity_y: shot_speed(m.velocity_y as int, b.velocity_multiplier as int, b.shot_velocity.y as int) as i32,
        acceleration_x: 0,
        acceleration_y: 0,
        deceleration_x: 0,
        deceleration_y: 0,
        speed_x: 0,
        speed_y: 0,
        max_speed_x: BLAST_MAX_SPEED,
        max_speed_y: BLAST_MAX_SPEED,
        angular_velocity: 0,
        angular_acceleration: 0,
        angular_deceleration: 0,
        angular_speed: 0,
        immovable: false,
    }
}

/// The x of the first blast: the shot is centered on the fire position.
pub open spec fn first_x(b: BlasterComponent, t: Transform) -> int {
    let fire_x = t.x + b.offset.x;
    fire_x - if b.count % 2 == 0 {
        tdiv(b.spacing * (b.count - 1), 2)
    } else {
        b.spacing * (b.count / 2)
    }
}

/// Blast `k` of a shot.
pub open spec fn shot_entity(
    b: BlasterComponent,
    m: Motion2DComponent,
    t: Transform,
    crit_roll: u32,
    poison_roll: u32,
    k: int,
) -> Entity {
    Entity {
        category: Category::Blast(shot_blast(b, crit_roll, poison_roll)),
        transform: Transform {
            x: sat(first_x(b, t) + k * b.spacing) as i32,
            y: sat(t.y + b.offset.y) as i32,
            rotation: 0,
            scale: b.size_multiplier,
        },
        hitbox: shot_hitbox(b),
        motion: shot_motion(b, m),
        health: HealthComponent { value: 0, max_value: 0 },
    }
}

/// The blasts of one shot, in order along x.
pub open spec fn shot_of(
    b: BlasterComponent,
    m: Motion2DComponent,
    t: Transform,
    crit_roll: u32,
    poison_roll: u32,
) -> Seq<Entity> {
    Seq::new(b.count as nat, |k: int| shot_entity(b, m, t, crit_roll, poison_roll, k))
}

/// Relies on rand's `Rng::gen_range` on the thread-local generator from
/// `thread_rng`: it returns a value of the half-open range `[0, bound)`,
/// and panics on an empty range, which `bound > 0` rules out. (`thread_rng`
/// itself panics only if the operating system cannot seed it.)
#[verifier::external_body]
fn random_below(bound: u32) -> (r: u32)
    requires
        bound > 0,
    ensures
        r < bound,
{
    rand::thread_rng().gen_range(0..bound)
}

fn scaled_speed(source: i32, multiplier: i32, shot: i32) -> (r: i32)
    ensures
        r == shot_speed(source as int, multiplier as int, shot as int),
{
    assert(-0x4000_0000_0000_0000 <= source as int * multiplier as int <= 0x4000_0000_0000_0000)
        by (nonlinear_arith)
        requires
            i32::MIN <= source <= i32::MAX,
            i32::MIN <= multiplier <= i32::MAX,
    ;
    let p: i128 = source as i128 * multiplier as i128;
    let d = trunc_div(p, MULTIPLIER_SCALE as i128);
    saturate(d + shot as i128)
}

impl BlasterComponent {
    /// The blasts of one shot, given the two chance rolls (in
    /// `[0, CHANCE_SCALE)`): `count` blasts `spacing` apart along x,
    /// centered on the source's position plus the offset.
    pub fn fire_with_rolls(
        &self,
        source_motion: &Motion2DComponent,
        source_transform: &Transform,
        crit_roll: u32,
        poison_roll: u32,
    ) -> (r: Vec<Entity>)
        ensures
            r@ == shot_of(*self, *source_motion, *source_transform, crit_roll, poison_roll),
    {
        let crit = crit_roll < self.crit_chance;
        let poison = poison_roll < self.poison_chance;
        let blast_type = if poison {
            BlastType::AllyPoison
        } else if crit {
            BlastType::AllyCritical
        } else if self.allied {
            BlastType::Ally
        } else {
            BlastType::Enemy
        };
        let blast = BlastComponent {
            blast_type,
            damage: if crit {
                saturate(2 * self.damage as i128)
            } else {
                self.damage
            },
            poison_damage: if poison {
                self.poison_damage
            } else {
                0
            },
        };
        assert(-0x4000_0000_0000_0000 <= BLAST_HITBOX_DIAMETER as int * self.size_multiplier as int
            <= 0x4000_0000_0000_0000) by (nonlinear_arith)
            requires
                i32::MIN <= self.size_multiplier <= i32::MAX,
        ;
        let side = saturate(
            trunc_div(
                BLAST_HITBOX_DIAMETER as i128 * self.size_multiplier as i128,
                MULTIPLIER_SCALE as i128,
            ),
        );
        let hitbox = Hitbox2DComponent {
            width: side,
            height: side,
            offset_x: 0,
            offset_y: 0,
            offset_rotation: 0,
        };
        let motion = Motion2DComponent {
            velocity_x: scaled_speed(
                source_motion.velocity_x,
                self.velocity_multiplier,
                self.shot_velocity.x,
            ),
            velocity_y: scaled_speed(
                source_motion.velocity_y,
                self.velocity_multiplier,
                self.shot_velocity.y,
            ),
            acceleration_x: 0,
            acceleration_y: 0,
            deceleration_x: 0,
            deceleration_y: 0,
            speed_x: 0,
            speed_y: 0,
            max_speed_x: BLAST_MAX_SPEED,
            max_speed_y: BLAST_MAX_SPEED,
            angular_velocity: 0,
            angular_acceleration: 0,
            angular_deceleration: 0,
            angular_speed: 0,
            immovable: false,
        };
        let count: i128 = self.count as i128;
        let spacing: i128 = self.spacing as i128;
        assert(-0x1_0000_0000_0000_0000_0000_0000 <= spacing * (count - 1)
            <= 0x1_0000_0000_0000_0000_0000_0000) by (nonlinear_arith)
            requires
                i32::MIN <= spacing <= i32::MAX,
                0 <= count <= usize::MAX,
        ;
        assert(-0x1_0000_0000_0000_0000_0000_0000 <= spacing * (count / 2)
            <= 0x1_0000_0000_0000_0000_0000_0000) by (nonlinear_arith)
            requires
                i32::MIN <= spacing <= i32::MAX,
                0 <= count / 2 <= usize::MAX,
        ;
        let shift: i128 = if self.count % 2 == 0 {
            trunc_div(spacing * (count - 1), 2)
        } else {
            spacing * (count / 2)
        };
        assert(-0x1_0000_0000_0000_0000_0000_0000 <= shift <= 0x1_0000_0000_0000_0000_0000_0000);
        let first: i128 = source_transform.x as i128 + self.offset.x as i128 - shift;
        let y = saturate(source_transform.y as i128 + self.offset.y as i128);
        let mut r: Vec<Entity> = Vec::new();
        let mut k: usize = 0;
        while k < self.count
            invariant
                k <= self.count,
                count == self.count,
                spacing == self.spacing,
                first == first_x(*self, *source_transform),
                -0x2_0000_0000_0000_0000_0000_0000 <= first <= 0x2_0000_0000_0000_0000_0000_0000,
                y == sat(source_transform.y + self.offset.y),
                blast == shot_blast(*self, crit_roll, poison_roll),
                hitbox == shot_hitbox(*self),
                motion == shot_motion(*self, *source_motion),
                r@.len() == k,
                forall|j: int|
                    0 <= j < k ==> #[trigger] r@[j] == shot_entity(
                        *self,
                        *source_motion,
                        *source_transform,
                        crit_roll,
                        poison_roll,
                        j,
                    ),
            decreases self.count - k,
        {
            assert(-0x1_0000_0000_0000_0000_0000_0000 <= k as int * spacing
                <= 0x1_0000_0000_0000_0000_0000_0000) by (nonlinear_arith)
                requires
                    i32::MIN <= spacing <= i32::MAX,
                    0 <= k <= usize::MAX,
            ;
            let x = saturate(first + k as i128 * spacing);
            r.push(
                Entity {
                    category: Category::Blast(blast),
                    transform: Transform { x, y, rotation: 0, scale: self.size_multiplier },
                    hitbox,
                    motion,
                    health: HealthComponent { value: 0, max_value: 0 },
                },
            );
            k = k + 1;
        }
        assert(r@ =~= shot_of(*self, *source_motion, *source_transform, crit_roll, poison_roll));
        r
    }

    /// Fires one shot: rolls the critical and the poison chance, then
    /// builds the blasts as `fire_with_rolls` does.
    pub fn fire(&self, source_motion: &Motion2DComponent, source_transform: &Transform) -> (r: Vec<
        Entity,
    >)
        ensures
            exists|crit_roll: u32, poison_roll: u32|
                crit_roll < CHANCE_SCALE && poison_roll < CHANCE_SCALE && r@ == #[trigger] shot_of(
                    *self,
                    *source_motion,
                    *source_transform,
                    crit_roll,
                    poison_roll,
                ),
    {
        let crit_roll = random_below(CHANCE_SCALE);
        let poison_roll = random_below(CHANCE_SCALE);
        self.fire_with_rolls(source_motion, source_transform, crit_roll, poison_roll)
    }
}

/// The manual fire timer after `dt` milliseconds: counts down while not
/// ready; once run out, it is rearmed to the period and the weapon is ready.
pub open spec fn fire_ticked(f: ManualFireComponent, dt: int) -> ManualFireComponent {
    if f.timer > 0 && !f.ready {
        ManualFireComponent { timer: sat(f.timer - dt) as i32, ..f }
    } else if !f.ready {
        ManualFireComponent { timer: f.period, ready: true, ..f }
    } else {
        f
    }
}

/// Counts down the manual fire timers.
#[derive(Clone, Copy, Debug, PartialEq, Eq, Structural)]
pub struct ManualBlasterSystem;

impl ManualBlasterSystem {
    pub fn run(&self, fires: &mut Vec<ManualFireComponent>, dt: u32)
        ensures
            final(fires)@.len() == old(fires)@.len(),
            forall|i: int|
                0 <= i < old(fires)@.len() ==> final(fires)@[i] == fire_ticked(
                    #[trigger] old(fires)@[i],
                    dt as int,
                ),
    {
        let n = fires.len();
        let mut i: usize = 0;
        while i < n
            invariant
                i <= n,
                n == old(fires)@.len(),
                fires@.len() == n,
                forall|k: int|
                    0 <= k < i ==> fires@[k] == fire_ticked(#[trigger] old(fires)@[k], dt as int),
                forall|k: int| i <= k < n ==> #[trigger] fires@[k] == old(fires)@[k],
            decreases n - i,
        {
            let mut f = fires[i];
            if f.timer > 0 && !f.ready {
                f.timer = saturate(f.timer as i128 - dt as i128);
            } else if !f.ready {
                f.timer = f.period;
                f.ready = true;
            }
            fires.set(i, f);
            i = i + 1;
        }
    }
}

} // verus!
