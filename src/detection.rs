//! The collision detector: every ordered pair of distinct live entities
//! whose categories are of interest and whose hitboxes overlap yields one
//! event for the subject of the pair. Detection mutates nothing.
use vstd::prelude::*;
use crate::geometry::{hitbox_collide, overlap_spec, Vector2};
use crate::num::{sat, saturate};
use crate::world::{Category, CollisionEvent, Entity, EntityId, EventChannel, World};

verus! {

/// Which side of the pipeline a detection pass feeds.
#[derive(Clone, Copy, Debug, PartialEq, Eq, Structural)]
pub enum Side {
    /// Mob events: a mob against players, mobs, blasts and barriers.
    Mob,
    /// Player events: a player against mobs, blasts, items, consumables
    /// and barriers.
    Player,
}

pub open spec fn is_subject(side: Side, c: Category) -> bool {
    match side {
        Side::Mob => c is Mob,
        Side::Player => c is Player,
    }
}

pub open spec fn is_of_interest(side: Side, c: Category) -> bool {
    match side {
        Side::Mob => c is Player || c is Mob || c is Blast || c is Barrier,
        Side::Player => c is Mob || c is Blast || c is Item || c is Consumable || c is Barrier,
    }
}

/// The event that `a` (in slot `i`) records for touching `b` (in slot `j`).
pub open spec fn event_between(i: int, j: int, a: Entity, b: Entity) -> CollisionEvent {
    CollisionEvent {
        subject: EntityId { index: i as usize },
        subject_velocity: Vector2 { x: a.motion.velocity_x, y: a.motion.velocity_y },
        subject_immovable: a.motion.immovable,
        other: EntityId { index: j as usize },
        other_velocity: Vector2 { x: b.motion.velocity_x, y: b.motion.velocity_y },
        collision_velocity: Some(
            Vector2 {
                x: sat(b.motion.velocity_x - a.motion.velocity_x) as i32,
                y: sat(b.motion.velocity_y - a.motion.velocity_y) as i32,
            },
        ),
        other_immovable: b.motion.immovable,
    }
}

/// The events of the pair (i, j): one, or none.
pub open spec fn pair_events(
    side: Side,
    w: Seq<Option<Entity>>,
    i: int,
    j: int,
) -> Seq<CollisionEvent> {
    if i != j && w[i] is Some && w[j] is Some && is_subject(side, w[i]->0.category)
        && is_of_interest(side, w[j]->0.category) && overlap_spec(
        w[i]->0.transform,
        w[i]->0.hitbox,
        w[j]->0.transform,
        w[j]->0.hitbox,
    ) {
        seq![event_between(i, j, w[i]->0, w[j]->0)]
    } else {
        Seq::empty()
    }
}

/// Events of subject `i` against the first `n` slots, in slot order.
pub open spec fn row_events(side: Side, w: Seq<Option<Entity>>, i: int, n: int) -> Seq<
    CollisionEvent,
>
    decreases n,
{
    if n <= 0 {
        Seq::empty()
    } else {
        row_events(side, w, i, n - 1) + pair_events(side, w, i, n - 1)
    }
}

/// Events of the first `n` subjects, each against every slot.
pub open spec fn detected(side: Side, w: Seq<Option<Entity>>, n: int) -> Seq<CollisionEvent>
    decreases n,
{
    if n <= 0 {
        Seq::empty()
    } else {
        detected(side, w, n - 1) + row_events(side, w, n - 1, w.len() as int)
    }
}

fn subject_matches(side: Side, c: &Category) -> (r: bool)
    ensures
        r == is_subject(side, *c),
{
    match (side, c) {
        (Side::Mob, Category::Mob(_)) => true,
        (Side::Player, Category::Player(_)) => true,
        _ => false,
    }
}

fn interest_matches(side: Side, c: &Category) -> (r: bool)
    ensures
        r == is_of_interest(side, *c),
{
    match (side, c) {
        (_, Category::Mob(_)) => true,
        (_, Category::Blast(_)) => true,
        (_, Category::Barrier(_)) => true,
        (Side::Mob, Category::Player(_)) => true,
        (Side::Player, Category::Item(_)) => true,
        (Side::Player, Category::Consumable(_)) => true,
        _ => false,
    }
}

/// Appends the events of one side, for every subject and every other slot.
pub fn detect_side(side: Side, world: &World, channel: &mut EventChannel<CollisionEvent>)
    ensures
        final(channel)@ == old(channel)@ + detected(side, world@, world@.len() as int),
{
    let n = world.len();
    let mut i: usize = 0;
    while i < n
        invariant
            n == world@.len(),
            i <= n,
            channel@ == old(channel)@ + detected(side, world@, i as int),
        decreases n - i,
    {
        let a = world.get(EntityId { index: i });
        let mut j: usize = 0;
        while j < n
            invariant
                n == world@.len(),
                i < n,
                j <= n,
                a == world@[i as int],
                channel@ == old(channel)@ + detected(side, world@, i as int) + row_events(
                    side,
                    world@,
                    i as int,
                    j as int,
                ),
            decreases n - j,
        {
            let b = world.get(EntityId { index: j });
            let ghost before = channel@;
            match (a, b) {
                (Some(ea), Some(eb)) => {
                    if i != j && subject_matches(side, &ea.category) && interest_matches(
                        side,
                        &eb.category,
                    ) && hitbox_collide(&ea.transform, &ea.hitbox, &eb.transform, &eb.hitbox) {
                        let vx = saturate(
                            eb.motion.velocity_x as i128 - ea.motion.velocity_x as i128,
                        );
                        let vy = saturate(
                            eb.motion.velocity_y as i128 - ea.motion.velocity_y as i128,
                        );
                        channel.single_write(
                            CollisionEvent {
                                subject: EntityId { index: i },
                                subject_velocity: Vector2 {
                                    x: ea.motion.velocity_x,
                                    y: ea.motion.velocity_y,
                                },
                                subject_immovable: ea.motion.immovable,
                                other: EntityId { index: j },
                                other_velocity: Vector2 {
                                    x: eb.motion.velocity_x,
                                    y: eb.motion.velocity_y,
                                },
                                other_immovable: eb.motion.immovable,
                                collision_velocity: Some(Vector2 { x: vx, y: vy }),
                            },
                        );
                    }
                },
                _ => {},
            }
            proof {
                let pe = pair_events(side, world@, i as int, j as int);
                assert(channel@ =~= before + pe);
                assert(row_events(side, world@, i as int, j + 1) == row_events(
                    side,
                    world@,
                    i as int,
                    j as int,
                ) + pe);
                assert(old(channel)@ + detected(side, world@, i as int) + row_events(
                    side,
                    world@,
                    i as int,
                    j + 1,
                ) =~= before + pe);
            }
            j = j + 1;
        }
        proof {
            assert(detected(side, world@, i + 1) == detected(side, world@, i as int) + row_events(
                side,
                world@,
                i as int,
                n as int,
            ));
            assert(old(channel)@ + detected(side, world@, i + 1) =~= old(channel)@ + detected(
                side,
                world@,
                i as int,
            ) + row_events(side, world@, i as int, n as int));
        }
        i = i + 1;
    }
}

/// Detects this frame's overlaps into the mob and the player channels.
#[derive(Clone, Copy, Debug, PartialEq, Eq, Structural)]
pub struct CollisionDetectionSystem;

impl CollisionDetectionSystem {
    pub fn run(
        &self,
        world: &World,
        mob_channel: &mut EventChannel<CollisionEvent>,
        player_channel: &mut EventChannel<CollisionEvent>,
    )
        ensures
            final(mob_channel)@ == old(mob_channel)@ + detected(
                Side::Mob,
                world@,
                world@.len() as int,
            ),
            final(player_channel)@ == old(player_channel)@ + detected(
                Side::Player,
                world@,
                world@.len() as int,
            ),
    {
        detect_side(Side::Mob, world, mob_channel);
        detect_side(Side::Player, world, player_channel);
    }
}

} // verus!
