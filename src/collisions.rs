//! Collision resolvers. Each drains its own reader of one event channel
//! once per tick and applies the consequence for one pair of categories.
//! An event whose entities are gone, or are not of the pair, is skipped.
use vstd::prelude::*;
use crate::health::HealthComponent;
use crate::kinds::{is_missile, mob_is_missile, BlastType, EffectType, SoundEffect};
use crate::detection::event_between;
use crate::motion::{
    barrier_collision, barrier_deflected, immovable_collision, immovable_knocked,
    lemma_standard_knockback_floor, speed_sq, standard_collision, standard_knocked,
    Motion2DComponent,
};
use crate::num::sign;
use crate::world::{
    deleted, lookup, replaced, Category, CollisionEvent, Entity, EventChannel, MobComponent,
    Notification, ReaderId, World,
};

verus! {

/// Tunables supplied by the game's configuration.
#[derive(Clone, Copy, Debug, PartialEq, Eq, Structural)]
pub struct GameParametersResource {
    /// Smallest knockback speed a collision hands out.
    pub min_collision_knockback: i32,
}

/// The pair of categories a resolver handles.
#[derive(Clone, Copy, Debug, PartialEq, Eq, Structural)]
pub enum ResolverKind {
    MobPlayer,
    MobMob,
    MobBlast,
    MobArenaBorder,
    PlayerMob,
    PlayerBlast,
    PlayerItem,
    PlayerConsumable,
    PlayerArenaBorder,
}

/// The store after an event, and the notifications it raised.
pub type Outcome = (Seq<Option<Entity>>, Seq<Notification>);

/// The motion after a knockback by the event's collision velocity, harder
/// when the collider is immovable.
pub open spec fn knocked(
    m: Motion2DComponent,
    ev: CollisionEvent,
    against_immovable: bool,
    k: i32,
) -> Motion2DComponent {
    match ev.collision_velocity {
        Some(c) => if against_immovable {
            immovable_knocked(m, c.x, c.y, k)
        } else {
            standard_knocked(m, c.x, c.y, k)
        },
        None => m,
    }
}

/// A mob's health after contact: a missile detonates (health zero), any
/// other mob takes `damage`.
pub open spec fn contact_damaged(h: HealthComponent, mob: MobComponent, damage: i32) -> HealthComponent {
    if is_missile(mob.mob_type) {
        HealthComponent { value: 0, ..h }
    } else {
        h.damaged(damage as int)
    }
}

/// The explosion an allied blast leaves.
pub open spec fn ally_explosion(t: BlastType) -> EffectType {
    match t {
        BlastType::AllyCritical => EffectType::CriticalBlastExplosion,
        BlastType::AllyPoison => EffectType::PoisonBlastExplosion,
        _ => EffectType::AllyBlastExplosion,
    }
}

pub open spec fn mob_player_step(w: Seq<Option<Entity>>, ev: CollisionEvent, k: i32) -> Outcome {
    match (lookup(w, ev.other), lookup(w, ev.subject)) {
        (Some(o), Some(s)) => match (o.category, s.category) {
            (Category::Player(p), Category::Mob(mob)) => {
                let motion = if s.motion.immovable {
                    s.motion
                } else {
                    knocked(s.motion, ev, false, k)
                };
                let e = Entity {
                    health: contact_damaged(s.health, mob, p.collision_damage),
                    motion,
                    ..s
                };
                (replaced(w, ev.subject, e), seq![Notification::PlayAudio(SoundEffect::MetalCrash)])
            },
            _ => (w, Seq::empty()),
        },
        _ => (w, Seq::empty()),
    }
}

pub open spec fn mob_mob_step(w: Seq<Option<Entity>>, ev: CollisionEvent, k: i32) -> Outcome {
    match (lookup(w, ev.other), lookup(w, ev.subject)) {
        (Some(o), Some(s)) => match (o.category, s.category) {
            (Category::Mob(cm), Category::Mob(mob)) => {
                let motion = if s.motion.immovable {
                    s.motion
                } else {
                    knocked(s.motion, ev, ev.other_immovable, k)
                };
                let e = Entity {
                    health: contact_damaged(s.health, mob, cm.collision_damage),
                    motion,
                    ..s
                };
                (replaced(w, ev.subject, e), seq![Notification::PlayAudio(SoundEffect::MetalCrash)])
            },
            _ => (w, Seq::empty()),
        },
        _ => (w, Seq::empty()),
    }
}

pub open spec fn mob_blast_step(w: Seq<Option<Entity>>, ev: CollisionEvent) -> Outcome {
    match (lookup(w, ev.other), lookup(w, ev.subject)) {
        (Some(o), Some(s)) => match (o.category, s.category) {
            (Category::Blast(b), Category::Mob(_)) => if b.blast_type == BlastType::Enemy {
                (w, Seq::empty())
            } else {
                let e = Entity { health: s.health.damaged(b.damage as int), ..s };
                (
                    deleted(replaced(w, ev.subject, e), ev.other),
                    seq![
                        Notification::PlayAudio(SoundEffect::MetalPing),
                        Notification::SpawnEffect {
                            effect: ally_explosion(b.blast_type),
                            x: o.transform.x,
                            y: o.transform.y,
                        },
                    ],
                )
            },
            _ => (w, Seq::empty()),
        },
        _ => (w, Seq::empty()),
    }
}

pub open spec fn mob_border_step(w: Seq<Option<Entity>>, ev: CollisionEvent) -> Outcome {
    match (lookup(w, ev.other), lookup(w, ev.subject)) {
        (Some(o), Some(s)) => match (o.category, s.category) {
            (Category::Barrier(bar), Category::Mob(mob)) => if !bar.enemies_pass && !is_missile(
                mob.mob_type,
            ) {
                let e = Entity {
                    motion: barrier_deflected(s.motion, bar, s.transform, o.transform),
                    health: s.health.damaged(bar.damage as int),
                    ..s
                };
                (replaced(w, ev.subject, e), seq![Notification::PlayAudio(SoundEffect::ForceField)])
            } else {
                (w, Seq::empty())
            },
            _ => (w, Seq::empty()),
        },
        _ => (w, Seq::empty()),
    }
}

pub open spec fn player_mob_step(w: Seq<Option<Entity>>, ev: CollisionEvent, k: i32) -> Outcome {
    match (lookup(w, ev.other), lookup(w, ev.subject)) {
        (Some(o), Some(s)) => match (o.category, s.category) {
            (Category::Mob(mob), Category::Player(pl)) => {
                let health = if pl.rolling && pl.steel_barrel {
                    s.health
                } else {
                    s.health.damaged(mob.collision_damage as int)
                };
                let e = Entity { health, motion: knocked(s.motion, ev, ev.other_immovable, k), ..s };
                (replaced(w, ev.subject, e), Seq::empty())
            },
            _ => (w, Seq::empty()),
        },
        _ => (w, Seq::empty()),
    }
}

pub open spec fn player_blast_step(w: Seq<Option<Entity>>, ev: CollisionEvent) -> Outcome {
    match (lookup(w, ev.other), lookup(w, ev.subject)) {
        (Some(o), Some(s)) => match (o.category, s.category) {
            (Category::Blast(b), Category::Player(pl)) => if !pl.rolling && b.blast_type
                == BlastType::Enemy {
                let e = Entity { health: s.health.damaged(b.damage as int), ..s };
                (
                    deleted(replaced(w, ev.subject, e), ev.other),
                    seq![
                        Notification::SpawnEffect {
                            effect: EffectType::EnemyBlastExplosion,
                            x: o.transform.x,
                            y: o.transform.y,
                        },
                    ],
                )
            } else {
                (w, Seq::empty())
            },
            _ => (w, Seq::empty()),
        },
        _ => (w, Seq::empty()),
    }
}

pub open spec fn player_item_step(w: Seq<Option<Entity>>, ev: CollisionEvent) -> Outcome {
    match lookup(w, ev.other) {
        Some(o) => match o.category {
            Category::Item(item) => (
                deleted(w, ev.other),
                seq![
                    Notification::ItemGet { player: ev.subject, item },
                    Notification::PlayAudio(SoundEffect::ShotgunCock),
                ],
            ),
            _ => (w, Seq::empty()),
        },
        None => (w, Seq::empty()),
    }
}

pub open spec fn player_consumable_step(w: Seq<Option<Entity>>, ev: CollisionEvent) -> Outcome {
    match lookup(w, ev.other) {
        Some(o) => match o.category {
            Category::Consumable(c) => (
                deleted(w, ev.other),
                seq![
                    Notification::ConsumableGet { player: ev.subject, consumable: c.consumable_type },
                    Notification::PlayAudio(c.sound_effect),
                ],
            ),
            _ => (w, Seq::empty()),
        },
        None => (w, Seq::empty()),
    }
}

pub open spec fn player_border_step(w: Seq<Option<Entity>>, ev: CollisionEvent) -> Outcome {
    match (lookup(w, ev.other), lookup(w, ev.subject)) {
        (Some(o), Some(s)) => match (o.category, s.category) {
            (Category::Barrier(bar), Category::Player(_)) => {
                let e = Entity {
                    motion: barrier_deflected(s.motion, bar, s.transform, o.transform),
                    health: s.health.damaged(bar.damage as int),
                    ..s
                };
                (replaced(w, ev.subject, e), seq![Notification::PlayAudio(SoundEffect::ForceField)])
            },
            _ => (w, Seq::empty()),
        },
        _ => (w, Seq::empty()),
    }
}

/// What resolving one event does, by resolver.
pub open spec fn resolve_one(
    kind: ResolverKind,
    w: Seq<Option<Entity>>,
    ev: CollisionEvent,
    k: i32,
) -> Outcome {
    match kind {
        ResolverKind::MobPlayer => mob_player_step(w, ev, k),
        ResolverKind::MobMob => mob_mob_step(w, ev, k),
        ResolverKind::MobBlast => mob_blast_step(w, ev),
        ResolverKind::MobArenaBorder => mob_border_step(w, ev),
        ResolverKind::PlayerMob => player_mob_step(w, ev, k),
        ResolverKind::PlayerBlast => player_blast_step(w, ev),
        ResolverKind::PlayerItem => player_item_step(w, ev),
        ResolverKind::PlayerConsumable => player_consumable_step(w, ev),
        ResolverKind::PlayerArenaBorder => player_border_step(w, ev),
    }
}

/// What resolving a run of events in order does.
pub open spec fn resolve_all(
    kind: ResolverKind,
    w: Seq<Option<Entity>>,
    evs: Seq<CollisionEvent>,
    k: i32,
) -> Outcome
    decreases evs.len(),
{
    if evs.len() == 0 {
        (w, Seq::empty())
    } else {
        let before = resolve_all(kind, w, evs.drop_last(), k);
        let last = resolve_one(kind, before.0, evs.last(), k);
        (last.0, before.1 + last.1)
    }
}

fn apply_knockback(m: &mut Motion2DComponent, ev: &CollisionEvent, against_immovable: bool, k: i32)
    ensures
        *final(m) == knocked(*old(m), *ev, against_immovable, k),
{
    match ev.collision_velocity {
        Some(c) => {
            if against_immovable {
                immovable_collision(m, c.x, c.y, k);
            } else {
                standard_collision(m, c.x, c.y, k);
            }
        },
        None => {},
    }
}

fn contact_damage(h: &mut HealthComponent, mob: &MobComponent, damage: i32)
    ensures
        *final(h) == contact_damaged(*old(h), *mob, damage),
{
    if mob_is_missile(&mob.mob_type) {
        h.value = 0;
    } else {
        h.take_damage(damage);
    }
}

fn ally_explosion_of(t: BlastType) -> (r: EffectType)
    ensures
        r == ally_explosion(t),
{
    match t {
        BlastType::AllyCritical => EffectType::CriticalBlastExplosion,
        BlastType::AllyPoison => EffectType::PoisonBlastExplosion,
        _ => EffectType::AllyBlastExplosion,
    }
}

/// Applies one event of the given resolver.
fn resolve_event(
    kind: ResolverKind,
    world: &mut World,
    ev: CollisionEvent,
    k: i32,
    notes: &mut Vec<Notification>,
)
    ensures
        final(world)@ == resolve_one(kind, old(world)@, ev, k).0,
        final(notes)@ == old(notes)@ + resolve_one(kind, old(world)@, ev, k).1,
{
    let other = world.get(ev.other);
    let subject = world.get(ev.subject);
    proof {
        assert(old(notes)@ + Seq::<Notification>::empty() =~= old(notes)@);
    }
    match kind {
        ResolverKind::MobPlayer => match (other, subject) {
            (Some(o), Some(s)) => match (o.category, s.category) {
                (Category::Player(p), Category::Mob(mob)) => {
                    let mut e = s;
                    contact_damage(&mut e.health, &mob, p.collision_damage);
                    if !e.motion.immovable {
                        apply_knockback(&mut e.motion, &ev, false, k);
                    }
                    world.set(ev.subject, e);
                    notes.push(Notification::PlayAudio(SoundEffect::MetalCrash));
                },
                _ => {},
            },
            _ => {},
        },
        ResolverKind::MobMob => match (other, subject) {
            (Some(o), Some(s)) => match (o.category, s.category) {
                (Category::Mob(cm), Category::Mob(mob)) => {
                    let mut e = s;
                    contact_damage(&mut e.health, &mob, cm.collision_damage);
                    if !e.motion.immovable {
                        apply_knockback(&mut e.motion, &ev, ev.other_immovable, k);
                    }
                    world.set(ev.subject, e);
                    notes.push(Notification::PlayAudio(SoundEffect::MetalCrash));
                },
                _ => {},
            },
            _ => {},
        },
        ResolverKind::MobBlast => match (other, subject) {
            (Some(o), Some(s)) => match (o.category, s.category) {
                (Category::Blast(b), Category::Mob(_)) => {
                    match b.blast_type {
                        BlastType::Enemy => {},
                        _ => {
                            let mut e = s;
                            e.health.take_damage(b.damage);
                            world.set(ev.subject, e);
                            world.delete(ev.other);
                            notes.push(Notification::PlayAudio(SoundEffect::MetalPing));
                            notes.push(
                                Notification::SpawnEffect {
                                    effect: ally_explosion_of(b.blast_type),
                                    x: o.transform.x,
                                    y: o.transform.y,
                                },
                            );
                        },
                    }
                },
                _ => {},
            },
            _ => {},
        },
        ResolverKind::MobArenaBorder => match (other, subject) {
            (Some(o), Some(s)) => match (o.category, s.category) {
                (Category::Barrier(bar), Category::Mob(mob)) => {
                    if !bar.enemies_pass && !mob_is_missile(&mob.mob_type) {
                        let mut e = s;
                        barrier_collision(&mut e.motion, &bar, &s.transform, &o.transform);
                        e.health.take_damage(bar.damage);
                        world.set(ev.subject, e);
                        notes.push(Notification::PlayAudio(SoundEffect::ForceField));
                    }
                },
                _ => {},
            },
            _ => {},
        },
        ResolverKind::PlayerMob => match (other, subject) {
            (Some(o), Some(s)) => match (o.category, s.category) {
                (Category::Mob(mob), Category::Player(pl)) => {
                    let mut e = s;
                    if !(pl.rolling && pl.steel_barrel) {
                        e.health.take_damage(mob.collision_damage);
                    }
                    apply_knockback(&mut e.motion, &ev, ev.other_immovable, k);
                    world.set(ev.subject, e);
                },
                _ => {},
            },
            _ => {},
        },
        ResolverKind::PlayerBlast => match (other, subject) {
            (Some(o), Some(s)) => match (o.category, s.category) {
                (Category::Blast(b), Category::Player(pl)) => {
                    match b.blast_type {
                        BlastType::Enemy => {
                            if !pl.rolling {
                                let mut e = s;
                                e.health.take_damage(b.damage);
                                world.set(ev.subject, e);
                                world.delete(ev.other);
                                notes.push(
                                    Notification::SpawnEffect {
                                        effect: EffectType::EnemyBlastExplosion,
                                        x: o.transform.x,
                                        y: o.transform.y,
                                    },
                                );
                            }
                        },
                        _ => {},
                    }
                },
                _ => {},
            },
            _ => {},
        },
        ResolverKind::PlayerItem => match other {
            Some(o) => match o.category {
                Category::Item(item) => {
                    world.delete(ev.other);
                    notes.push(Notification::ItemGet { player: ev.subject, item });
                    notes.push(Notification::PlayAudio(SoundEffect::ShotgunCock));
                },
                _ => {},
            },
            None => {},
        },
        ResolverKind::PlayerConsumable => match other {
            Some(o) => match o.category {
                Category::Consumable(c) => {
                    world.delete(ev.other);
                    notes.push(
                        Notification::ConsumableGet {
                            player: ev.subject,
                            consumable: c.consumable_type,
                        },
                    );
                    notes.push(Notification::PlayAudio(c.sound_effect));
                },
                _ => {},
            },
            None => {},
        },
        ResolverKind::PlayerArenaBorder => match (other, subject) {
            (Some(o), Some(s)) => match (o.category, s.category) {
                (Category::Barrier(bar), Category::Player(_)) => {
                    let mut e = s;
                    barrier_collision(&mut e.motion, &bar, &s.transform, &o.transform);
                    e.health.take_damage(bar.damage);
                    world.set(ev.subject, e);
                    notes.push(Notification::PlayAudio(SoundEffect::ForceField));
                },
                _ => {},
            },
            _ => {},
        },
    }
    proof {
        assert(notes@ =~= old(notes)@ + resolve_one(kind, old(world)@, ev, k).1);
    }
}

/// Resolves every event from the reader's cursor to the end of the
/// channel, in order, and moves the cursor to the end.
fn drain(
    kind: ResolverKind,
    reader: &mut ReaderId,
    channel: &EventChannel<CollisionEvent>,
    world: &mut World,
    k: i32,
    notes: &mut Vec<Notification>,
)
    requires
        old(reader).cursor <= channel@.len(),
    ensures
        final(reader).cursor == channel@.len(),
        final(world)@ == resolve_all(
            kind,
            old(world)@,
            channel@.subrange(old(reader).cursor as int, channel@.len() as int),
            k,
        ).0,
        final(notes)@ == old(notes)@ + resolve_all(
            kind,
            old(world)@,
            channel@.subrange(old(reader).cursor as int, channel@.len() as int),
            k,
        ).1,
{
    let start = reader.cursor;
    let n = channel.len();
    let mut i: usize = start;
    proof {
        assert(channel@.subrange(start as int, start as int) =~= Seq::<CollisionEvent>::empty());
        assert(old(notes)@ + Seq::<Notification>::empty() =~= old(notes)@);
    }
    while i < n
        invariant
            start <= i <= n,
            n == channel@.len(),
            world@ == resolve_all(kind, old(world)@, channel@.subrange(start as int, i as int), k).0,
            notes@ == old(notes)@ + resolve_all(
                kind,
                old(world)@,
                channel@.subrange(start as int, i as int),
                k,
            ).1,
        decreases n - i,
    {
        let ev = channel.event(i);
        let ghost prev = resolve_all(kind, old(world)@, channel@.subrange(start as int, i as int), k);
        resolve_event(kind, world, ev, k, notes);
        proof {
            let evs = channel@.subrange(start as int, i + 1);
            assert(evs.drop_last() =~= channel@.subrange(start as int, i as int));
            assert(evs.last() == ev);
            let step = resolve_one(kind, prev.0, ev, k);
            assert(notes@ =~= old(notes)@ + (prev.1 + step.1));
        }
        i = i + 1;
    }
    reader.cursor = n;
}

/// Handles collisions between mobs and players: a mob hit by a player takes the player's collision damage (a missile detonates) and, unless immovable, is knocked back.
pub struct MobPlayerCollisionSystem {
    pub event_reader: Option<ReaderId>,
}

impl Default for MobPlayerCollisionSystem {
    fn default() -> (r: MobPlayerCollisionSystem)
        ensures
            r.event_reader is None,
    {
        MobPlayerCollisionSystem { event_reader: None }
    }
}

impl MobPlayerCollisionSystem {
    pub fn new() -> (r: MobPlayerCollisionSystem)
        ensures
            r.event_reader is None,
    {
        MobPlayerCollisionSystem { event_reader: None }
    }

    /// Registers a reader: events written from now on will be resolved.
    pub fn setup(&mut self, channel: &EventChannel<CollisionEvent>)
        ensures
            final(self).event_reader == Some(ReaderId { cursor: channel@.len() as usize }),
    {
        self.event_reader = Some(channel.register_reader());
    }

    /// Resolves the events written since the last run.
    pub fn run(
        &mut self,
        channel: &EventChannel<CollisionEvent>,
        world: &mut World,
        params: &GameParametersResource,
        notes: &mut Vec<Notification>,
    )
        requires
            old(self).event_reader is Some,
            old(self).event_reader->0.cursor <= channel@.len(),
        ensures
            final(self).event_reader == Some(ReaderId { cursor: channel@.len() as usize }),
            final(world)@ == resolve_all(
                ResolverKind::MobPlayer,
                old(world)@,
                channel@.subrange(old(self).event_reader->0.cursor as int, channel@.len() as int),
                params.min_collision_knockback,
            ).0,
            final(notes)@ == old(notes)@ + resolve_all(
                ResolverKind::MobPlayer,
                old(world)@,
                channel@.subrange(old(self).event_reader->0.cursor as int, channel@.len() as int),
                params.min_collision_knockback,
            ).1,
    {
        let mut reader = self.event_reader.unwrap();
        drain(ResolverKind::MobPlayer, &mut reader, channel, world, params.min_collision_knockback, notes);
        self.event_reader = Some(reader);
    }
}

/// Handles collisions between two mobs: each takes the other's collision damage (a missile detonates) and, unless immovable, is knocked back, harder off an immovable mob.
pub struct MobMobCollisionSystem {
    pub event_reader: Option<ReaderId>,
}

impl Default for MobMobCollisionSystem {
    fn default() -> (r: MobMobCollisionSystem)
        ensures
            r.event_reader is None,
    {
        MobMobCollisionSystem { event_reader: None }
    }
}

impl MobMobCollisionSystem {
    pub fn new() -> (r: MobMobCollisionSystem)
        ensures
            r.event_reader is None,
    {
        MobMobCollisionSystem { event_reader: None }
    }

    /// Registers a reader: events written from now on will be resolved.
    pub fn setup(&mut self, channel: &EventChannel<CollisionEvent>)
        ensures
            final(self).event_reader == Some(ReaderId { cursor: channel@.len() as usize }),
    {
        self.event_reader = Some(channel.register_reader());
    }

    /// Resolves the events written since the last run.
    pub fn run(
        &mut self,
        channel: &EventChannel<CollisionEvent>,
        world: &mut World,
        params: &GameParametersResource,
        notes: &mut Vec<Notification>,
    )
        requires
            old(self).event_reader is Some,
            old(self).event_reader->0.cursor <= channel@.len(),
        ensures
            final(self).event_reader == Some(ReaderId { cursor: channel@.len() as usize }),
            final(world)@ == resolve_all(
                ResolverKind::MobMob,
                old(world)@,
                channel@.subrange(old(self).event_reader->0.cursor as int, channel@.len() as int),
                params.min_collision_knockback,
            ).0,
            final(notes)@ == old(notes)@ + resolve_all(
                ResolverKind::MobMob,
                old(world)@,
                channel@.subrange(old(self).event_reader->0.cursor as int, channel@.len() as int),
                params.min_collision_knockback,
            ).1,
    {
        let mut reader = self.event_reader.unwrap();
        drain(ResolverKind::MobMob, &mut reader, channel, world, params.min_collision_knockback, notes);
        self.event_reader = Some(reader);
    }
}

/// Handles collisions between mobs and allied blasts: the blast is destroyed, an explosion is requested, and the mob takes the blast's damage.
pub struct MobBlastCollisionSystem {
    pub event_reader: Option<ReaderId>,
}

impl Default for MobBlastCollisionSystem {
    fn default() -> (r: MobBlastCollisionSystem)
        ensures
            r.event_reader is None,
    {
        MobBlastCollisionSystem { event_reader: None }
    }
}

impl MobBlastCollisionSystem {
    pub fn new() -> (r: MobBlastCollisionSystem)
        ensures
            r.event_reader is None,
    {
        MobBlastCollisionSystem { event_reader: None }
    }

    /// Registers a reader: events written from now on will be resolved.
    pub fn setup(&mut self, channel: &EventChannel<CollisionEvent>)
        ensures
            final(self).event_reader == Some(ReaderId { cursor: channel@.len() as usize }),
    {
        self.event_reader = Some(channel.register_reader());
    }

    /// Resolves the events written since the last run.
    pub fn run(
        &mut self,
        channel: &EventChannel<CollisionEvent>,
        world: &mut World,
        params: &GameParametersResource,
        notes: &mut Vec<Notification>,
    )
        requires
            old(self).event_reader is Some,
            old(self).event_reader->0.cursor <= channel@.len(),
        ensures
            final(self).event_reader == Some(ReaderId { cursor: channel@.len() as usize }),
            final(world)@ == resolve_all(
                ResolverKind::MobBlast,
                old(world)@,
                channel@.subrange(old(self).event_reader->0.cursor as int, channel@.len() as int),
                params.min_collision_knockback,
            ).0,
            final(notes)@ == old(notes)@ + resolve_all(
                ResolverKind::MobBlast,
                old(world)@,
                channel@.subrange(old(self).event_reader->0.cursor as int, channel@.len() as int),
                params.min_collision_knockback,
            ).1,
    {
        let mut reader = self.event_reader.unwrap();
        drain(ResolverKind::MobBlast, &mut reader, channel, world, params.min_collision_knockback, notes);
        self.event_reader = Some(reader);
    }
}

/// Handles collisions between mobs and barriers: unless the barrier lets enemies pass, a mob other than a missile is deflected and takes the barrier's damage.
pub struct MobArenaBorderCollisionSystem {
    pub event_reader: Option<ReaderId>,
}

impl Default for MobArenaBorderCollisionSystem {
    fn default() -> (r: MobArenaBorderCollisionSystem)
        ensures
            r.event_reader is None,
    {
        MobArenaBorderCollisionSystem { event_reader: None }
    }
}

impl MobArenaBorderCollisionSystem {
    pub fn new() -> (r: MobArenaBorderCollisionSystem)
        ensures
            r.event_reader is None,
    {
        MobArenaBorderCollisionSystem { event_reader: None }
    }

    /// Registers a reader: events written from now on will be resolved.
    pub fn setup(&mut self, channel: &EventChannel<CollisionEvent>)
        ensures
            final(self).event_reader == Some(ReaderId { cursor: channel@.len() as usize }),
    {
        self.event_reader = Some(channel.register_reader());
    }

    /// Resolves the events written since the last run.
    pub fn run(
        &mut self,
        channel: &EventChannel<CollisionEvent>,
        world: &mut World,
        params: &GameParametersResource,
        notes: &mut Vec<Notification>,
    )
        requires
            old(self).event_reader is Some,
            old(self).event_reader->0.cursor <= channel@.len(),
        ensures
            final(self).event_reader == Some(ReaderId { cursor: channel@.len() as usize }),
            final(world)@ == resolve_all(
                ResolverKind::MobArenaBorder,
                old(world)@,
                channel@.subrange(old(self).event_reader->0.cursor as int, channel@.len() as int),
                params.min_collision_knockback,
            ).0,
            final(notes)@ == old(notes)@ + resolve_all(
                ResolverKind::MobArenaBorder,
                old(world)@,
                channel@.subrange(old(self).event_reader->0.cursor as int, channel@.len() as int),
                params.min_collision_knockback,
            ).1,
    {
        let mut reader = self.event_reader.unwrap();
        drain(ResolverKind::MobArenaBorder, &mut reader, channel, world, params.min_collision_knockback, notes);
        self.event_reader = Some(reader);
    }
}

/// Handles collisions between players and mobs: the player takes the mob's collision damage, unless rolling with a steel barrel, and is knocked back.
pub struct PlayerMobCollisionSystem {
    pub event_reader: Option<ReaderId>,
}

impl Default for PlayerMobCollisionSystem {
    fn default() -> (r: PlayerMobCollisionSystem)
        ensures
            r.event_reader is None,
    {
        PlayerMobCollisionSystem { event_reader: None }
    }
}

impl PlayerMobCollisionSystem {
    pub fn new() -> (r: PlayerMobCollisionSystem)
        ensures
            r.event_reader is None,
    {
        PlayerMobCollisionSystem { event_reader: None }
    }

    /// Registers a reader: events written from now on will be resolved.
    pub fn setup(&mut self, channel: &EventChannel<CollisionEvent>)
        ensures
            final(self).event_reader == Some(ReaderId { cursor: channel@.len() as usize }),
    {
        self.event_reader = Some(channel.register_reader());
    }

    /// Resolves the events written since the last run.
    pub fn run(
        &mut self,
        channel: &EventChannel<CollisionEvent>,
        world: &mut World,
        params: &GameParametersResource,
        notes: &mut Vec<Notification>,
    )
        requires
            old(self).event_reader is Some,
            old(self).event_reader->0.cursor <= channel@.len(),
        ensures
            final(self).event_reader == Some(ReaderId { cursor: channel@.len() as usize }),
            final(world)@ == resolve_all(
                ResolverKind::PlayerMob,
                old(world)@,
                channel@.subrange(old(self).event_reader->0.cursor as int, channel@.len() as int),
                params.min_collision_knockback,
            ).0,
            final(notes)@ == old(notes)@ + resolve_all(
                ResolverKind::PlayerMob,
                old(world)@,
                channel@.subrange(old(self).event_reader->0.cursor as int, channel@.len() as int),
                params.min_collision_knockback,
            ).1,
    {
        let mut reader = self.event_reader.unwrap();
        drain(ResolverKind::PlayerMob, &mut reader, channel, world, params.min_collision_knockback, notes);
        self.event_reader = Some(reader);
    }
}

/// Handles collisions between players and enemy blasts: unless the player is rolling, the blast is destroyed, an explosion is requested, and the player takes the blast's damage.
pub struct PlayerBlastCollisionSystem {
    pub event_reader: Option<ReaderId>,
}

impl Default for PlayerBlastCollisionSystem {
    fn default() -> (r: PlayerBlastCollisionSystem)
        ensures
            r.event_reader is None,
    {
        PlayerBlastCollisionSystem { event_reader: None }
    }
}

impl PlayerBlastCollisionSystem {
    pub fn new() -> (r: PlayerBlastCollisionSystem)
        ensures
            r.event_reader is None,
    {
        PlayerBlastCollisionSystem { event_reader: None }
    }

    /// Registers a reader: events written from now on will be resolved.
    pub fn setup(&mut self, channel: &EventChannel<CollisionEvent>)
        ensures
            final(self).event_reader == Some(ReaderId { cursor: channel@.len() as usize }),
    {
        self.event_reader = Some(channel.register_reader());
    }

    /// Resolves the events written since the last run.
    pub fn run(
        &mut self,
        channel: &EventChannel<CollisionEvent>,
        world: &mut World,
        params: &GameParametersResource,
        notes: &mut Vec<Notification>,
    )
        requires
            old(self).event_reader is Some,
            old(self).event_reader->0.cursor <= channel@.len(),
        ensures
            final(self).event_reader == Some(ReaderId { cursor: channel@.len() as usize }),
            final(world)@ == resolve_all(
                ResolverKind::PlayerBlast,
                old(world)@,
                channel@.subrange(old(self).event_reader->0.cursor as int, channel@.len() as int),
                params.min_collision_knockback,
            ).0,
            final(notes)@ == old(notes)@ + resolve_all(
                ResolverKind::PlayerBlast,
                old(world)@,
                channel@.subrange(old(self).event_reader->0.cursor as int, channel@.len() as int),
                params.min_collision_knockback,
            ).1,
    {
        let mut reader = self.event_reader.unwrap();
        drain(ResolverKind::PlayerBlast, &mut reader, channel, world, params.min_collision_knockback, notes);
        self.event_reader = Some(reader);
    }
}

/// Handles collisions between players and items: the item is picked up and deleted.
pub struct PlayerItemCollisionSystem {
    pub event_reader: Option<ReaderId>,
}

impl Default for PlayerItemCollisionSystem {
    fn default() -> (r: PlayerItemCollisionSystem)
        ensures
            r.event_reader is None,
    {
        PlayerItemCollisionSystem { event_reader: None }
    }
}

impl PlayerItemCollisionSystem {
    pub fn new() -> (r: PlayerItemCollisionSystem)
        ensures
            r.event_reader is None,
    {
        PlayerItemCollisionSystem { event_reader: None }
    }

    /// Registers a reader: events written from now on will be resolved.
    pub fn setup(&mut self, channel: &EventChannel<CollisionEvent>)
        ensures
            final(self).event_reader == Some(ReaderId { cursor: channel@.len() as usize }),
    {
        self.event_reader = Some(channel.register_reader());
    }

    /// Resolves the events written since the last run.
    pub fn run(
        &mut self,
        channel: &EventChannel<CollisionEvent>,
        world: &mut World,
        params: &GameParametersResource,
        notes: &mut Vec<Notification>,
    )
        requires
            old(self).event_reader is Some,
            old(self).event_reader->0.cursor <= channel@.len(),
        ensures
            final(self).event_reader == Some(ReaderId { cursor: channel@.len() as usize }),
            final(world)@ == resolve_all(
                ResolverKind::PlayerItem,
                old(world)@,
                channel@.subrange(old(self).event_reader->0.cursor as int, channel@.len() as int),
                params.min_collision_knockback,
            ).0,
            final(notes)@ == old(notes)@ + resolve_all(
                ResolverKind::PlayerItem,
                old(world)@,
                channel@.subrange(old(self).event_reader->0.cursor as int, channel@.len() as int),
                params.min_collision_knockback,
            ).1,
    {
        let mut reader = self.event_reader.unwrap();
        drain(ResolverKind::PlayerItem, &mut reader, channel, world, params.min_collision_knockback, notes);
        self.event_reader = Some(reader);
    }
}

/// Handles collisions between players and consumables: the consumable is picked up and deleted.
pub struct PlayerConsumableCollisionSystem {
    pub event_reader: Option<ReaderId>,
}

impl Default for PlayerConsumableCollisionSystem {
    fn default() -> (r: PlayerConsumableCollisionSystem)
        ensures
            r.event_reader is None,
    {
        PlayerConsumableCollisionSystem { event_reader: None }
    }
}

impl PlayerConsumableCollisionSystem {
    pub fn new() -> (r: PlayerConsumableCollisionSystem)
        ensures
            r.event_reader is None,
    {
        PlayerConsumableCollisionSystem { event_reader: None }
    }

    /// Registers a reader: events written from now on will be resolved.
    pub fn setup(&mut self, channel: &EventChannel<CollisionEvent>)
        ensures
            final(self).event_reader == Some(ReaderId { cursor: channel@.len() as usize }),
    {
        self.event_reader = Some(channel.register_reader());
    }

    /// Resolves the events written since the last run.
    pub fn run(
        &mut self,
        channel: &EventChannel<CollisionEvent>,
        world: &mut World,
        params: &GameParametersResource,
        notes: &mut Vec<Notification>,
    )
        requires
            old(self).event_reader is Some,
            old(self).event_reader->0.cursor <= channel@.len(),
        ensures
            final(self).event_reader == Some(ReaderId { cursor: channel@.len() as usize }),
            final(world)@ == resolve_all(
                ResolverKind::PlayerConsumable,
                old(world)@,
                channel@.subrange(old(self).event_reader->0.cursor as int, channel@.len() as int),
                params.min_collision_knockback,
            ).0,
            final(notes)@ == old(notes)@ + resolve_all(
                ResolverKind::PlayerConsumable,
                old(world)@,
                channel@.subrange(old(self).event_reader->0.cursor as int, channel@.len() as int),
                params.min_collision_knockback,
            ).1,
    {
        let mut reader = self.event_reader.unwrap();
        drain(ResolverKind::PlayerConsumable, &mut reader, channel, world, params.min_collision_knockback, notes);
        self.event_reader = Some(reader);
    }
}

/// Handles collisions between players and barriers: the player is deflected and takes the barrier's damage.
pub struct PlayerArenaBorderCollisionSystem {
    pub event_reader: Option<ReaderId>,
}

impl Default for PlayerArenaBorderCollisionSystem {
    fn default() -> (r: PlayerArenaBorderCollisionSystem)
        ensures
            r.event_reader is None,
    {
        PlayerArenaBorderCollisionSystem { event_reader: None }
    }
}

impl PlayerArenaBorderCollisionSystem {
    pub fn new() -> (r: PlayerArenaBorderCollisionSystem)
        ensures
            r.event_reader is None,
    {
        PlayerArenaBorderCollisionSystem { event_reader: None }
    }

    /// Registers a reader: events written from now on will be resolved.
    pub fn setup(&mut self, channel: &EventChannel<CollisionEvent>)
        ensures
            final(self).event_reader == Some(ReaderId { cursor: channel@.len() as usize }),
    {
        self.event_reader = Some(channel.register_reader());
    }

    /// Resolves the events written since the last run.
    pub fn run(
        &mut self,
        channel: &EventChannel<CollisionEvent>,
        world: &mut World,
        params: &GameParametersResource,
        notes: &mut Vec<Notification>,
    )
        requires
            old(self).event_reader is Some,
            old(self).event_reader->0.cursor <= channel@.len(),
        ensures
            final(self).event_reader == Some(ReaderId { cursor: channel@.len() as usize }),
            final(world)@ == resolve_all(
                ResolverKind::PlayerArenaBorder,
                old(world)@,
                channel@.subrange(old(self).event_reader->0.cursor as int, channel@.len() as int),
                params.min_collision_knockback,
            ).0,
            final(notes)@ == old(notes)@ + resolve_all(
                ResolverKind::PlayerArenaBorder,
                old(world)@,
                channel@.subrange(old(self).event_reader->0.cursor as int, channel@.len() as int),
                params.min_collision_knockback,
            ).1,
    {
        let mut reader = self.event_reader.unwrap();
        drain(ResolverKind::PlayerArenaBorder, &mut reader, channel, world, params.min_collision_knockback, notes);
        self.event_reader = Some(reader);
    }
}

/// The player craft is also called the spaceship.
pub type SpaceshipMobCollisionSystem = PlayerMobCollisionSystem;

pub type SpaceshipBlastCollisionSystem = PlayerBlastCollisionSystem;

pub type SpaceshipItemCollisionSystem = PlayerItemCollisionSystem;

pub type SpaceshipConsumableCollisionSystem = PlayerConsumableCollisionSystem;

pub type SpaceshipArenaBorderCollisionSystem = PlayerArenaBorderCollisionSystem;

/// The two events of a mutually touching pair hand each side the other's
/// velocity relative to it; after the two-sided knockback both move at
/// least at the minimum knockback speed, in opposite directions along each
/// axis of the relative velocity.
pub proof fn lemma_pair_knockback_floor(i: int, j: int, a: Entity, b: Entity, k: i32)
    requires
        k >= 0,
        b.motion.velocity_x != a.motion.velocity_x || b.motion.velocity_y != a.motion.velocity_y,
        i32::MIN < b.motion.velocity_x - a.motion.velocity_x <= i32::MAX,
        i32::MIN < b.motion.velocity_y - a.motion.velocity_y <= i32::MAX,
    ensures
        speed_sq(knocked(a.motion, event_between(i, j, a, b), false, k)) >= k * k,
        speed_sq(knocked(b.motion, event_between(j, i, b, a), false, k)) >= k * k,
        sign(knocked(a.motion, event_between(i, j, a, b), false, k).velocity_x as int) == -sign(
            knocked(b.motion, event_between(j, i, b, a), false, k).velocity_x as int,
        ),
        sign(knocked(a.motion, event_between(i, j, a, b), false, k).velocity_y as int) == -sign(
            knocked(b.motion, event_between(j, i, b, a), false, k).velocity_y as int,
        ),
{
    let cx = (b.motion.velocity_x - a.motion.velocity_x) as i32;
    let cy = (b.motion.velocity_y - a.motion.velocity_y) as i32;
    lemma_standard_knockback_floor(a.motion, b.motion, cx, cy, k);
}

/// A movable mob hit by a player with a nonzero relative velocity leaves the
/// event at least at the minimum knockback speed, along that velocity.
pub proof fn lemma_mob_player_knockback_floor(w: Seq<Option<Entity>>, ev: CollisionEvent, k: i32)
    requires
        lookup(w, ev.other) is Some,
        lookup(w, ev.other)->0.category is Player,
        lookup(w, ev.subject) is Some,
        lookup(w, ev.subject)->0.category is Mob,
        !lookup(w, ev.subject)->0.motion.immovable,
        ev.collision_velocity is Some,
        ev.collision_velocity->0.x != 0 || ev.collision_velocity->0.y != 0,
        ev.collision_velocity->0.x > i32::MIN,
        ev.collision_velocity->0.y > i32::MIN,
        k >= 0,
    ensures
        mob_player_step(w, ev, k).0[ev.subject.index as int] is Some,
        speed_sq(mob_player_step(w, ev, k).0[ev.subject.index as int]->0.motion) >= k * k,
        sign(mob_player_step(w, ev, k).0[ev.subject.index as int]->0.motion.velocity_x as int) == sign(
            ev.collision_velocity->0.x as int,
        ),
        sign(mob_player_step(w, ev, k).0[ev.subject.index as int]->0.motion.velocity_y as int) == sign(
            ev.collision_velocity->0.y as int,
        ),
{
    let s = lookup(w, ev.subject)->0;
    let c = ev.collision_velocity->0;
    lemma_standard_knockback_floor(s.motion, s.motion, c.x, c.y, k);
}

/// A movable mob hit by a movable mob with a nonzero relative velocity
/// leaves the event at least at the minimum knockback speed, along that
/// velocity. Each of the two mobs has its own event.
pub proof fn lemma_mob_mob_knockback_floor(w: Seq<Option<Entity>>, ev: CollisionEvent, k: i32)
    requires
        lookup(w, ev.other) is Some,
        lookup(w, ev.other)->0.category is Mob,
        lookup(w, ev.subject) is Some,
        lookup(w, ev.subject)->0.category is Mob,
        !lookup(w, ev.subject)->0.motion.immovable,
        !ev.other_immovable,
        ev.collision_velocity is Some,
        ev.collision_velocity->0.x != 0 || ev.collision_velocity->0.y != 0,
        ev.collision_velocity->0.x > i32::MIN,
        ev.collision_velocity->0.y > i32::MIN,
        k >= 0,
    ensures
        mob_mob_step(w, ev, k).0[ev.subject.index as int] is Some,
        speed_sq(mob_mob_step(w, ev, k).0[ev.subject.index as int]->0.motion) >= k * k,
        sign(mob_mob_step(w, ev, k).0[ev.subject.index as int]->0.motion.velocity_x as int) == sign(
            ev.collision_velocity->0.x as int,
        ),
        sign(mob_mob_step(w, ev, k).0[ev.subject.index as int]->0.motion.velocity_y as int) == sign(
            ev.collision_velocity->0.y as int,
        ),
{
    let s = lookup(w, ev.subject)->0;
    let c = ev.collision_velocity->0;
    lemma_standard_knockback_floor(s.motion, s.motion, c.x, c.y, k);
}

/// A player hit by a movable mob with a nonzero relative velocity leaves the
/// event at least at the minimum knockback speed, along that velocity.
pub proof fn lemma_player_mob_knockback_floor(w: Seq<Option<Entity>>, ev: CollisionEvent, k: i32)
    requires
        lookup(w, ev.other) is Some,
        lookup(w, ev.other)->0.category is Mob,
        lookup(w, ev.subject) is Some,
        lookup(w, ev.subject)->0.category is Player,
        !ev.other_immovable,
        ev.collision_velocity is Some,
        ev.collision_velocity->0.x != 0 || ev.collision_velocity->0.y != 0,
        ev.collision_velocity->0.x > i32::MIN,
        ev.collision_velocity->0.y > i32::MIN,
        k >= 0,
    ensures
        player_mob_step(w, ev, k).0[ev.subject.index as int] is Some,
        speed_sq(player_mob_step(w, ev, k).0[ev.subject.index as int]->0.motion) >= k * k,
        sign(player_mob_step(w, ev, k).0[ev.subject.index as int]->0.motion.velocity_x as int) == sign(
            ev.collision_velocity->0.x as int,
        ),
        sign(player_mob_step(w, ev, k).0[ev.subject.index as int]->0.motion.velocity_y as int) == sign(
            ev.collision_velocity->0.y as int,
        ),
{
    let s = lookup(w, ev.subject)->0;
    let c = ev.collision_velocity->0;
    lemma_standard_knockback_floor(s.motion, s.motion, c.x, c.y, k);
}

} // verus!
