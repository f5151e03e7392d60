//! Mob upkeep: poison and the bottom line, the health check that marks
//! mobs destroyed, their destruction, and the defense pool.
use vstd::prelude::*;
use crate::arena::{bounced, constrain_to_arena, ArenaBounds};
use crate::geometry::{Hitbox2DComponent, Transform};
use crate::behavior::{move_enemy, moved_mob};
use crate::motion::{integrate, integrated};
use crate::systems::motions_wf;
use crate::health::{damaged_by_all, HealthComponent};
use crate::kinds::{EffectType, SoundEffect};
use crate::world::{
    deleted, lookup, Category, Entity, EntityId, EventChannel, MobDestroyedEvent,
    MobReachedBottomEvent, Notification, ReaderId, World,
};

verus! {

/// The whole hitbox, top edge included, is below the bottom of the arena.
pub open spec fn fully_below(t: Transform, h: Hitbox2DComponent, b: ArenaBounds) -> bool {
    2 * t.y + h.height < 2 * b.min_y
}

/// A slot after the all-in-one mob upkeep of a tick: the side bounce, one
/// integration step, poison; then despawning once wholly below the arena
/// (with a reached-bottom event) or when out of health, zero included
/// (with an explosion, its sound and a loot roll); otherwise the mob's own
/// movement.
pub open spec fn enemy_slot(s: Option<Entity>, b: ArenaBounds, dt: int) -> (
    Option<Entity>,
    Seq<MobReachedBottomEvent>,
    Seq<Notification>,
) {
    match s {
        Some(e) => match e.category {
            Category::Mob(mob) => {
                let m1 = bounced(e.transform, e.hitbox, e.motion, b);
                let t2 = integrated(e.transform, m1, dt);
                let e3 = Entity {
                    transform: t2,
                    motion: m1.clamped(),
                    health: e.health.damaged(mob.poison as int),
                    ..e
                };
                if fully_below(t2, e.hitbox, b) {
                    (None, seq![MobReachedBottomEvent { damage: mob.defense_damage }], Seq::empty())
                } else if e3.health.value <= 0 {
                    (
                        None,
                        Seq::empty(),
                        seq![
                            Notification::SpawnEffect {
                                effect: EffectType::MobExplosion,
                                x: t2.x,
                                y: t2.y,
                            },
                            Notification::PlayAudio(SoundEffect::Explosion),
                            Notification::DropLoot { mob_type: mob.mob_type, x: t2.x, y: t2.y },
                        ],
                    )
                } else {
                    (Some(moved_mob(e3, mob, None, b)), Seq::empty(), Seq::empty())
                }
            },
            _ => (s, Seq::empty(), Seq::empty()),
        },
        None => (s, Seq::empty(), Seq::empty()),
    }
}

pub open spec fn enemy_world(w: Seq<Option<Entity>>, b: ArenaBounds, dt: int) -> Seq<Option<Entity>> {
    Seq::new(w.len(), |i: int| enemy_slot(w[i], b, dt).0)
}

pub open spec fn enemy_events(w: Seq<Option<Entity>>, b: ArenaBounds, dt: int, n: int) -> Seq<
    MobReachedBottomEvent,
>
    decreases n,
{
    if n <= 0 {
        Seq::empty()
    } else {
        enemy_events(w, b, dt, n - 1) + enemy_slot(w[n - 1], b, dt).1
    }
}

pub open spec fn enemy_notes(w: Seq<Option<Entity>>, b: ArenaBounds, dt: int, n: int) -> Seq<
    Notification,
>
    decreases n,
{
    if n <= 0 {
        Seq::empty()
    } else {
        enemy_notes(w, b, dt, n - 1) + enemy_slot(w[n - 1], b, dt).2
    }
}

/// All-in-one per-tick mob upkeep.
#[derive(Clone, Copy, Debug, PartialEq, Eq, Structural)]
pub struct EnemySystem;

impl EnemySystem {
    /// Runs `enemy_slot` over every slot, over `dt` milliseconds.
    pub fn run(
        &self,
        world: &mut World,
        bounds: &ArenaBounds,
        dt: u32,
        reached_bottom: &mut EventChannel<MobReachedBottomEvent>,
        notes: &mut Vec<Notification>,
    )
        requires
            motions_wf(old(world)@),
        ensures
            final(world)@ == enemy_world(old(world)@, *bounds, dt as int),
            final(reached_bottom)@ == old(reached_bottom)@ + enemy_events(
                old(world)@,
                *bounds,
                dt as int,
                old(world)@.len() as int,
            ),
            final(notes)@ == old(notes)@ + enemy_notes(
                old(world)@,
                *bounds,
                dt as int,
                old(world)@.len() as int,
            ),
    {
        let n = world.len();
        let mut i: usize = 0;
        while i < n
            invariant
                i <= n,
                n == old(world)@.len(),
                world@.len() == n,
                motions_wf(old(world)@),
                forall|k: int|
                    0 <= k < i ==> world@[k] == enemy_slot(
                        #[trigger] old(world)@[k],
                        *bounds,
                        dt as int,
                    ).0,
                forall|k: int| i <= k < n ==> #[trigger] world@[k] == old(world)@[k],
                reached_bottom@ == old(reached_bottom)@ + enemy_events(
                    old(world)@,
                    *bounds,
                    dt as int,
                    i as int,
                ),
                notes@ == old(notes)@ + enemy_notes(old(world)@, *bounds, dt as int, i as int),
            decreases n - i,
        {
            let id = EntityId { index: i };
            let ghost events_before = reached_bottom@;
            let ghost notes_before = notes@;
            match world.get(id) {
                Some(e) => {
                    assert(old(world)@[i as int] is Some);
                    match e.category {
                        Category::Mob(mob) => {
                            let mut e = e;
                            let t0 = e.transform;
                            let h0 = e.hitbox;
                            constrain_to_arena(&t0, &h0, &mut e.motion, bounds);
                            integrate(&mut e.transform, &mut e.motion, dt);
                            e.health.take_damage(mob.poison);
                            let t = e.transform;
                            if 2 * (t.y as i64) + (h0.height as i64) < 2 * bounds.min_y as i64 {
                                reached_bottom.single_write(
                                    MobReachedBottomEvent { damage: mob.defense_damage },
                                );
                                world.delete(id);
                            } else if e.health.value <= 0 {
                                notes.push(
                                    Notification::SpawnEffect {
                                        effect: EffectType::MobExplosion,
                                        x: t.x,
                                        y: t.y,
                                    },
                                );
                                notes.push(Notification::PlayAudio(SoundEffect::Explosion));
                                notes.push(
                                    Notification::DropLoot { mob_type: mob.mob_type, x: t.x, y: t.y },
                                );
                                world.delete(id);
                            } else {
                                move_enemy(&mut e, &mob, None, bounds);
                                world.set(id, e);
                            }
                        },
                        _ => {},
                    }
                },
                None => {},
            }
            proof {
                let slot = enemy_slot(old(world)@[i as int], *bounds, dt as int);
                assert(reached_bottom@ =~= events_before + slot.1);
                assert(notes@ =~= notes_before + slot.2);
                assert(old(reached_bottom)@ + enemy_events(old(world)@, *bounds, dt as int, i + 1)
                    =~= events_before + slot.1);
                assert(old(notes)@ + enemy_notes(old(world)@, *bounds, dt as int, i + 1)
                    =~= notes_before + slot.2);
            }
            i = i + 1;
        }
        assert(world@ =~= enemy_world(old(world)@, *bounds, dt as int));
    }
}

pub open spec fn health_constrained_slot(s: Option<Entity>) -> Option<Entity> {
    match s {
        Some(e) => Some(Entity { health: e.health.constrained(), ..e }),
        None => None,
    }
}

pub open spec fn health_constrained_world(w: Seq<Option<Entity>>) -> Seq<Option<Entity>> {
    Seq::new(w.len(), |i: int| health_constrained_slot(w[i]))
}

/// Every live entity's health lies in `[0, max_value]`, where its max is
/// not negative.
pub open spec fn healths_in_range(w: Seq<Option<Entity>>) -> bool {
    forall|i: int|
        0 <= i < w.len() && (#[trigger] w[i]) is Some && w[i]->0.health.max_value >= 0
            ==> w[i]->0.health.in_range()
}

/// The once-per-tick constrain step: brings every live entity's health
/// back into `[0, max_value]` after the tick's damage.
pub fn constrain_all_health(world: &mut World)
    ensures
        final(world)@ == health_constrained_world(old(world)@),
        healths_in_range(final(world)@),
{
    let n = world.len();
    let mut i: usize = 0;
    while i < n
        invariant
            i <= n,
            n == old(world)@.len(),
            world@.len() == n,
            forall|k: int|
                0 <= k < i ==> world@[k] == health_constrained_slot(#[trigger] old(world)@[k]),
            forall|k: int| i <= k < n ==> #[trigger] world@[k] == old(world)@[k],
        decreases n - i,
    {
        let id = EntityId { index: i };
        match world.get(id) {
            Some(e) => {
                assert(old(world)@[i as int] is Some);
                let mut e = e;
                e.health.constrain();
                world.set(id, e);
            },
            None => {},
        }
        i = i + 1;
    }
    assert(world@ =~= health_constrained_world(old(world)@));
}

/// A slot after the health check, and the destroyed event it raises.
pub open spec fn behavior_slot(s: Option<Entity>, i: int) -> (Option<Entity>, Seq<MobDestroyedEvent>) {
    match s {
        Some(e) => match e.category {
            Category::Mob(_) => {
                let h = e.health.constrained();
                (
                    Some(Entity { health: h, ..e }),
                    if h.value <= 0 {
                        seq![MobDestroyedEvent { mob: EntityId { index: i as usize } }]
                    } else {
                        Seq::empty()
                    },
                )
            },
            _ => (s, Seq::empty()),
        },
        None => (s, Seq::empty()),
    }
}

pub open spec fn behavior_events(w: Seq<Option<Entity>>, n: int) -> Seq<MobDestroyedEvent>
    decreases n,
{
    if n <= 0 {
        Seq::empty()
    } else {
        behavior_events(w, n - 1) + behavior_slot(w[n - 1], n - 1).1
    }
}

pub open spec fn behavior_world(w: Seq<Option<Entity>>) -> Seq<Option<Entity>> {
    Seq::new(w.len(), |i: int| behavior_slot(w[i], i).0)
}

/// Handles the health of mobs.
#[derive(Clone, Copy, Debug, PartialEq, Eq, Structural)]
pub struct MobBehaviorSystem;

impl MobBehaviorSystem {
    /// Constrains every mob's health and reports each mob left with none.
    pub fn run(&self, world: &mut World, destroyed: &mut EventChannel<MobDestroyedEvent>)
        ensures
            final(world)@ == behavior_world(old(world)@),
            final(destroyed)@ == old(destroyed)@ + behavior_events(
                old(world)@,
                old(world)@.len() as int,
            ),
    {
        let n = world.len();
        let mut i: usize = 0;
        while i < n
            invariant
                i <= n,
                n == old(world)@.len(),
                world@.len() == n,
                forall|k: int|
                    0 <= k < i ==> world@[k] == behavior_slot(#[trigger] old(world)@[k], k).0,
                forall|k: int| i <= k < n ==> #[trigger] world@[k] == old(world)@[k],
                destroyed@ == old(destroyed)@ + behavior_events(old(world)@, i as int),
            decreases n - i,
        {
            let id = EntityId { index: i };
            let ghost before = destroyed@;
            match world.get(id) {
                Some(e) => {
                    assert(old(world)@[i as int] is Some);
                    match e.category {
                        Category::Mob(_) => {
                            let mut e = e;
                            e.health.constrain();
                            if e.health.value <= 0 {
                                destroyed.single_write(MobDestroyedEvent { mob: id });
                            }
                            world.set(id, e);
                        },
                        _ => {},
                    }
                },
                None => {},
            }
            proof {
                let slot = behavior_slot(old(world)@[i as int], i as int);
                assert(destroyed@ =~= before + slot.1);
                assert(old(destroyed)@ + behavior_events(old(world)@, i + 1) =~= before + slot.1);
            }
            i = i + 1;
        }
        assert(world@ =~= behavior_world(old(world)@));
    }
}

/// What destroying one mob does: an explosion with its sound, giblets of
/// the mob's kind, a loot roll, and deletion. A mob already gone is skipped.
pub open spec fn destroyed_step(w: Seq<Option<Entity>>, ev: MobDestroyedEvent) -> (
    Seq<Option<Entity>>,
    Seq<Notification>,
) {
    match lookup(w, ev.mob) {
        Some(e) => match e.category {
            Category::Mob(mob) => (
                deleted(w, ev.mob),
                seq![
                    Notification::PlayAudio(SoundEffect::Explosion),
                    Notification::SpawnEffect {
                        effect: EffectType::MobExplosion,
                        x: e.transform.x,
                        y: e.transform.y,
                    },
                    Notification::SpawnEffect {
                        effect: EffectType::Giblets(mob.mob_type),
                        x: e.transform.x,
                        y: e.transform.y,
                    },
                    Notification::DropLoot { mob_type: mob.mob_type, x: e.transform.x, y: e.transform.y },
                ],
            ),
            _ => (w, Seq::empty()),
        },
        None => (w, Seq::empty()),
    }
}

pub open spec fn destroyed_all(w: Seq<Option<Entity>>, evs: Seq<MobDestroyedEvent>) -> (
    Seq<Option<Entity>>,
    Seq<Notification>,
)
    decreases evs.len(),
{
    if evs.len() == 0 {
        (w, Seq::empty())
    } else {
        let before = destroyed_all(w, evs.drop_last());
        let last = destroyed_step(before.0, evs.last());
        (last.0, before.1 + last.1)
    }
}

/// Handles the destruction of mobs.
pub struct MobDestroyedSystem {
    pub event_reader: Option<ReaderId>,
}

impl Default for MobDestroyedSystem {
    fn default() -> (r: MobDestroyedSystem)
        ensures
            r.event_reader is None,
    {
        MobDestroyedSystem { event_reader: None }
    }
}

impl MobDestroyedSystem {
    pub fn new() -> (r: MobDestroyedSystem)
        ensures
            r.event_reader is None,
    {
        MobDestroyedSystem { event_reader: None }
    }

    pub fn setup(&mut self, channel: &EventChannel<MobDestroyedEvent>)
        ensures
            final(self).event_reader == Some(ReaderId { cursor: channel@.len() as usize }),
    {
        self.event_reader = Some(channel.register_reader());
    }

    /// Destroys the mobs reported since the last run, in order.
    pub fn run(
        &mut self,
        channel: &EventChannel<MobDestroyedEvent>,
        world: &mut World,
        notes: &mut Vec<Notification>,
    )
        requires
            old(self).event_reader is Some,
            old(self).event_reader->0.cursor <= channel@.len(),
        ensures
            final(self).event_reader == Some(ReaderId { cursor: channel@.len() as usize }),
            final(world)@ == destroyed_all(
                old(world)@,
                channel@.subrange(old(self).event_reader->0.cursor as int, channel@.len() as int),
            ).0,
            final(notes)@ == old(notes)@ + destroyed_all(
                old(world)@,
                channel@.subrange(old(self).event_reader->0.cursor as int, channel@.len() as int),
            ).1,
    {
        let start = self.event_reader.unwrap().cursor;
        let n = channel.len();
        let mut i: usize = start;
        proof {
            assert(channel@.subrange(start as int, start as int) =~= Seq::<MobDestroyedEvent>::empty());
            assert(old(notes)@ + Seq::<Notification>::empty() =~= old(notes)@);
        }
        while i < n
            invariant
                start <= i <= n,
                n == channel@.len(),
                world@ == destroyed_all(old(world)@, channel@.subrange(start as int, i as int)).0,
                notes@ == old(notes)@ + destroyed_all(
                    old(world)@,
                    channel@.subrange(start as int, i as int),
                ).1,
            decreases n - i,
        {
            let ev = channel.event(i);
            let ghost prev = destroyed_all(old(world)@, channel@.subrange(start as int, i as int));
            let ghost notes_before = notes@;
            match world.get(ev.mob) {
                Some(e) => match e.category {
                    Category::Mob(mob) => {
                        notes.push(Notification::PlayAudio(SoundEffect::Explosion));
                        notes.push(
                            Notification::SpawnEffect {
                                effect: EffectType::MobExplosion,
                                x: e.transform.x,
                                y: e.transform.y,
                            },
                        );
                        notes.push(
                            Notification::SpawnEffect {
                                effect: EffectType::Giblets(mob.mob_type),
                                x: e.transform.x,
                                y: e.transform.y,
                            },
                        );
                        notes.push(
                            Notification::DropLoot {
                                mob_type: mob.mob_type,
                                x: e.transform.x,
                                y: e.transform.y,
                            },
                        );
                        world.delete(ev.mob);
                    },
                    _ => {},
                },
                None => {},
            }
            proof {
                let evs = channel@.subrange(start as int, i + 1);
                assert(evs.drop_last() =~= channel@.subrange(start as int, i as int));
                let step = destroyed_step(prev.0, ev);
                assert(notes@ =~= notes_before + step.1);
                assert(notes@ =~= old(notes)@ + (prev.1 + step.1));
            }
            i = i + 1;
        }
        self.event_reader = Some(ReaderId { cursor: n });
    }
}

/// The damage amounts that a run of reached-bottom events carries.
pub open spec fn bottom_damages(evs: Seq<MobReachedBottomEvent>) -> Seq<i32> {
    evs.map_values(|e: MobReachedBottomEvent| e.damage)
}

/// Takes the damage of mobs that got past into the defense pool.
pub struct DefenseSystem {
    pub mob_reached_bottom_event_reader: Option<ReaderId>,
}

impl Default for DefenseSystem {
    fn default() -> (r: DefenseSystem)
        ensures
            r.mob_reached_bottom_event_reader is None,
    {
        DefenseSystem { mob_reached_bottom_event_reader: None }
    }
}

impl DefenseSystem {
    pub fn new() -> (r: DefenseSystem)
        ensures
            r.mob_reached_bottom_event_reader is None,
    {
        DefenseSystem { mob_reached_bottom_event_reader: None }
    }

    pub fn setup(&mut self, channel: &EventChannel<MobReachedBottomEvent>)
        ensures
            final(self).mob_reached_bottom_event_reader == Some(
                ReaderId { cursor: channel@.len() as usize },
            ),
    {
        self.mob_reached_bottom_event_reader = Some(channel.register_reader());
    }

    /// Subtracts the damage of every event since the last run, in order,
    /// then constrains the pool into `[0, max_value]`.
    pub fn run(
        &mut self,
        channel: &EventChannel<MobReachedBottomEvent>,
        defense: &mut HealthComponent,
    )
        requires
            old(self).mob_reached_bottom_event_reader is Some,
            old(self).mob_reached_bottom_event_reader->0.cursor <= channel@.len(),
        ensures
            final(self).mob_reached_bottom_event_reader == Some(
                ReaderId { cursor: channel@.len() as usize },
            ),
            *final(defense) == damaged_by_all(
                *old(defense),
                bottom_damages(
                    channel@.subrange(
                        old(self).mob_reached_bottom_event_reader->0.cursor as int,
                        channel@.len() as int,
                    ),
                ),
            ).constrained(),
    {
        let start = self.mob_reached_bottom_event_reader.unwrap().cursor;
        let n = channel.len();
        let mut i: usize = start;
        proof {
            assert(bottom_damages(channel@.subrange(start as int, start as int)) =~= Seq::<
                i32,
            >::empty());
        }
        while i < n
            invariant
                start <= i <= n,
                n == channel@.len(),
                *defense == damaged_by_all(
                    *old(defense),
                    bottom_damages(channel@.subrange(start as int, i as int)),
                ),
            decreases n - i,
        {
            let ev = channel.event(i);
            defense.take_damage(ev.damage);
            proof {
                let ds = bottom_damages(channel@.subrange(start as int, i + 1));
                assert(ds.drop_last() =~= bottom_damages(channel@.subrange(start as int, i as int)));
                assert(ds.last() == ev.damage);
            }
            i = i + 1;
        }
        defense.constrain();
        self.mob_reached_bottom_event_reader = Some(ReaderId { cursor: n });
    }
}

/// The health check keeps every health in range.
pub proof fn lemma_behavior_keeps_health_range(w: Seq<Option<Entity>>)
    requires
        healths_in_range(w),
    ensures
        healths_in_range(behavior_world(w)),
{
    let r = behavior_world(w);
    assert forall|i: int|
        0 <= i < r.len() && (#[trigger] r[i]) is Some && r[i]->0.health.max_value
            >= 0 implies r[i]->0.health.in_range() by {
        assert(w[i] is Some);
    }
}

/// Destroying mobs only deletes: every health stays in range.
pub proof fn lemma_destroyed_keeps_health_range(w: Seq<Option<Entity>>, evs: Seq<MobDestroyedEvent>)
    requires
        healths_in_range(w),
    ensures
        healths_in_range(destroyed_all(w, evs).0),
        destroyed_all(w, evs).0.len() == w.len(),
    decreases evs.len(),
{
    if evs.len() > 0 {
        lemma_destroyed_keeps_health_range(w, evs.drop_last());
        let before = destroyed_all(w, evs.drop_last()).0;
        let r = destroyed_step(before, evs.last()).0;
        assert forall|i: int|
            0 <= i < r.len() && (#[trigger] r[i]) is Some && r[i]->0.health.max_value
                >= 0 implies r[i]->0.health.in_range() by {
            assert(before[i] is Some);
        }
    }
}

} // verus!
