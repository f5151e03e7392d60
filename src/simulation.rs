//! One tick of the simulation, with its stages in their fixed order:
//! integration, detection, resolution, then steering, the arena's edges,
//! the health constrain step and mob upkeep. Each stage sees exactly what the one before it left.
use vstd::prelude::*;
use crate::arena::ArenaBounds;
use crate::behavior::Guidance;
use crate::collisions::{
    resolve_all, resolve_one, GameParametersResource, MobArenaBorderCollisionSystem,
    MobBlastCollisionSystem, MobMobCollisionSystem, MobPlayerCollisionSystem, Outcome,
    PlayerArenaBorderCollisionSystem, PlayerBlastCollisionSystem, PlayerConsumableCollisionSystem,
    PlayerItemCollisionSystem, PlayerMobCollisionSystem, ResolverKind,
};
use crate::detection::{detected, CollisionDetectionSystem, Side};
use crate::health::{damaged_by_all, HealthComponent};
use crate::systems::{
    constrain_players_to_arena, enemy_motion_events, enemy_motion_world, integrated_world,
    motions_wf, players_bounced_world, targeted_world,
    EnemyMotion2DSystem, EnemyTargetSystem, Motion2DSystem,
};
use crate::upkeep::{
    behavior_events, behavior_world, bottom_damages, constrain_all_health, destroyed_all,
    health_constrained_world, healths_in_range, lemma_behavior_keeps_health_range,
    lemma_destroyed_keeps_health_range, DefenseSystem, MobBehaviorSystem, MobDestroyedSystem,
};
use crate::world::{
    lookup, CollisionEvent, Entity, EventChannel, MobDestroyedEvent,
    MobReachedBottomEvent, Notification, ReaderId, World,
};

verus! {

/// What every stage of a tick is configured with.
#[derive(Clone, Copy, Debug, PartialEq, Eq, Structural)]
pub struct SimulationContext {
    pub arena: ArenaBounds,
    pub params: GameParametersResource,
}

/// The resolvers of a tick, mob side first, each over the whole run of its
/// side's events: the store they leave and their notifications in order.
pub open spec fn resolved(
    w: Seq<Option<Entity>>,
    mob_events: Seq<CollisionEvent>,
    player_events: Seq<CollisionEvent>,
    k: i32,
) -> Outcome {
    let r1 = resolve_all(ResolverKind::MobPlayer, w, mob_events, k);
    let r2 = resolve_all(ResolverKind::MobMob, r1.0, mob_events, k);
    let r3 = resolve_all(ResolverKind::MobBlast, r2.0, mob_events, k);
    let r4 = resolve_all(ResolverKind::MobArenaBorder, r3.0, mob_events, k);
    let r5 = resolve_all(ResolverKind::PlayerMob, r4.0, player_events, k);
    let r6 = resolve_all(ResolverKind::PlayerBlast, r5.0, player_events, k);
    let r7 = resolve_all(ResolverKind::PlayerItem, r6.0, player_events, k);
    let r8 = resolve_all(ResolverKind::PlayerConsumable, r7.0, player_events, k);
    let r9 = resolve_all(ResolverKind::PlayerArenaBorder, r8.0, player_events, k);
    (r9.0, r1.1 + r2.1 + r3.1 + r4.1 + r5.1 + r6.1 + r7.1 + r8.1 + r9.1)
}

/// The store after the resolution stages of a tick.
pub open spec fn tick_resolved(w: Seq<Option<Entity>>, ctx: SimulationContext, dt: int) -> Outcome {
    let w1 = integrated_world(w, dt);
    resolved(
        w1,
        detected(Side::Mob, w1, w1.len() as int),
        detected(Side::Player, w1, w1.len() as int),
        ctx.params.min_collision_knockback,
    )
}

/// The store after steering and the arena's edges, mobs then players.
pub open spec fn tick_moved(
    w: Seq<Option<Entity>>,
    ctx: SimulationContext,
    dt: int,
    gs: Seq<Option<Guidance>>,
) -> Seq<Option<Entity>> {
    players_bounced_world(
        enemy_motion_world(targeted_world(tick_resolved(w, ctx, dt).0), gs, ctx.arena),
        ctx.arena,
    )
}

/// Mobs that reached the bottom during the tick.
pub open spec fn tick_bottom_events(
    w: Seq<Option<Entity>>,
    ctx: SimulationContext,
    dt: int,
    gs: Seq<Option<Guidance>>,
) -> Seq<MobReachedBottomEvent> {
    let w3 = targeted_world(tick_resolved(w, ctx, dt).0);
    enemy_motion_events(w3, gs, ctx.arena, w3.len() as int)
}

/// The store after the constrain step.
pub open spec fn tick_constrained(
    w: Seq<Option<Entity>>,
    ctx: SimulationContext,
    dt: int,
    gs: Seq<Option<Guidance>>,
) -> Seq<Option<Entity>> {
    health_constrained_world(tick_moved(w, ctx, dt, gs))
}

/// The store and the destruction notifications after mob upkeep.
pub open spec fn tick_destroyed(
    w: Seq<Option<Entity>>,
    ctx: SimulationContext,
    dt: int,
    gs: Seq<Option<Guidance>>,
) -> Outcome {
    let w5 = tick_constrained(w, ctx, dt, gs);
    destroyed_all(behavior_world(w5), behavior_events(w5, w5.len() as int))
}

/// However much damage a tick deals, every entity alive after it has its
/// health in `[0, max_value]` (where its max is not negative).
pub proof fn lemma_tick_health_in_range(
    w: Seq<Option<Entity>>,
    ctx: SimulationContext,
    dt: int,
    gs: Seq<Option<Guidance>>,
)
    ensures
        healths_in_range(tick_destroyed(w, ctx, dt, gs).0),
{
    let w5 = tick_constrained(w, ctx, dt, gs);
    assert forall|i: int|
        0 <= i < w5.len() && (#[trigger] w5[i]) is Some && w5[i]->0.health.max_value
            >= 0 implies w5[i]->0.health.in_range() by {
        assert(tick_moved(w, ctx, dt, gs)[i] is Some);
    }
    lemma_behavior_keeps_health_range(w5);
    lemma_destroyed_keeps_health_range(behavior_world(w5), behavior_events(w5, w5.len() as int));
}

proof fn lemma_resolve_one_keeps_wf(kind: ResolverKind, w: Seq<Option<Entity>>, ev: CollisionEvent, k: i32)
    requires
        motions_wf(w),
    ensures
        motions_wf(resolve_one(kind, w, ev, k).0),
        resolve_one(kind, w, ev, k).0.len() == w.len(),
{
    let r = resolve_one(kind, w, ev, k).0;
    assert forall|i: int| 0 <= i < r.len() && (#[trigger] r[i]) is Some implies r[i]->0.motion.wf() by {
        if lookup(w, ev.subject) is Some {
            assert(w[ev.subject.index as int] is Some);
        }
    }
}

proof fn lemma_resolve_all_keeps_wf(
    kind: ResolverKind,
    w: Seq<Option<Entity>>,
    evs: Seq<CollisionEvent>,
    k: i32,
)
    requires
        motions_wf(w),
    ensures
        motions_wf(resolve_all(kind, w, evs, k).0),
        resolve_all(kind, w, evs, k).0.len() == w.len(),
    decreases evs.len(),
{
    if evs.len() > 0 {
        lemma_resolve_all_keeps_wf(kind, w, evs.drop_last(), k);
        let before = resolve_all(kind, w, evs.drop_last(), k);
        lemma_resolve_one_keeps_wf(kind, before.0, evs.last(), k);
    }
}

proof fn lemma_integrated_keeps_wf(w: Seq<Option<Entity>>, dt: int)
    requires
        motions_wf(w),
    ensures
        motions_wf(integrated_world(w, dt)),
{
    let r = integrated_world(w, dt);
    assert forall|i: int| 0 <= i < r.len() && (#[trigger] r[i]) is Some implies r[i]->0.motion.wf() by {
        assert(w[i] is Some);
    }
}

proof fn lemma_targeted_keeps_wf(w: Seq<Option<Entity>>)
    requires
        motions_wf(w),
    ensures
        motions_wf(targeted_world(w)),
{
    let r = targeted_world(w);
    assert forall|i: int| 0 <= i < r.len() && (#[trigger] r[i]) is Some implies r[i]->0.motion.wf() by {
        assert(w[i] is Some);
    }
}

/// The resolution stage: every resolver drains the whole of its side's
/// events, mob side first.
fn resolve_stage(
    world: &mut World,
    mob_events: &EventChannel<CollisionEvent>,
    player_events: &EventChannel<CollisionEvent>,
    params: &GameParametersResource,
    notes: &mut Vec<Notification>,
)
    requires
        motions_wf(old(world)@),
    ensures
        final(world)@ == resolved(
            old(world)@,
            mob_events@,
            player_events@,
            params.min_collision_knockback,
        ).0,
        final(notes)@ == old(notes)@ + resolved(
            old(world)@,
            mob_events@,
            player_events@,
            params.min_collision_knockback,
        ).1,
        motions_wf(final(world)@),
{
    let ghost w1 = world@;
    let ghost n0 = notes@;
    let ghost me = mob_events@;
    let ghost pe = player_events@;
    let ghost k = params.min_collision_knockback;
    let mut mob_player = MobPlayerCollisionSystem::new();
    let mut mob_mob = MobMobCollisionSystem::new();
    let mut mob_blast = MobBlastCollisionSystem::new();
    let mut mob_border = MobArenaBorderCollisionSystem::new();
    let mut player_mob = PlayerMobCollisionSystem::new();
    let mut player_blast = PlayerBlastCollisionSystem::new();
    let mut player_item = PlayerItemCollisionSystem::new();
    let mut player_consumable = PlayerConsumableCollisionSystem::new();
    let mut player_border = PlayerArenaBorderCollisionSystem::new();
    mob_player.event_reader = Some(ReaderId { cursor: 0 });
    mob_mob.event_reader = Some(ReaderId { cursor: 0 });
    mob_blast.event_reader = Some(ReaderId { cursor: 0 });
    mob_border.event_reader = Some(ReaderId { cursor: 0 });
    player_mob.event_reader = Some(ReaderId { cursor: 0 });
    player_blast.event_reader = Some(ReaderId { cursor: 0 });
    player_item.event_reader = Some(ReaderId { cursor: 0 });
    player_consumable.event_reader = Some(ReaderId { cursor: 0 });
    player_border.event_reader = Some(ReaderId { cursor: 0 });
    proof {
        assert(me.subrange(0, me.len() as int) =~= me);
        assert(pe.subrange(0, pe.len() as int) =~= pe);
    }
    mob_player.run(mob_events, world, params, notes);
    let ghost a1 = notes@;
    mob_mob.run(mob_events, world, params, notes);
    let ghost a2 = notes@;
    mob_blast.run(mob_events, world, params, notes);
    let ghost a3 = notes@;
    mob_border.run(mob_events, world, params, notes);
    let ghost a4 = notes@;
    player_mob.run(player_events, world, params, notes);
    let ghost a5 = notes@;
    player_blast.run(player_events, world, params, notes);
    let ghost a6 = notes@;
    player_item.run(player_events, world, params, notes);
    let ghost a7 = notes@;
    player_consumable.run(player_events, world, params, notes);
    let ghost a8 = notes@;
    player_border.run(player_events, world, params, notes);
    proof {
        let r1 = resolve_all(ResolverKind::MobPlayer, w1, me, k);
        let r2 = resolve_all(ResolverKind::MobMob, r1.0, me, k);
        let r3 = resolve_all(ResolverKind::MobBlast, r2.0, me, k);
        let r4 = resolve_all(ResolverKind::MobArenaBorder, r3.0, me, k);
        let r5 = resolve_all(ResolverKind::PlayerMob, r4.0, pe, k);
        let r6 = resolve_all(ResolverKind::PlayerBlast, r5.0, pe, k);
        let r7 = resolve_all(ResolverKind::PlayerItem, r6.0, pe, k);
        let r8 = resolve_all(ResolverKind::PlayerConsumable, r7.0, pe, k);
        let r9 = resolve_all(ResolverKind::PlayerArenaBorder, r8.0, pe, k);
        lemma_resolve_all_keeps_wf(ResolverKind::MobPlayer, w1, me, k);
        lemma_resolve_all_keeps_wf(ResolverKind::MobMob, r1.0, me, k);
        lemma_resolve_all_keeps_wf(ResolverKind::MobBlast, r2.0, me, k);
        lemma_resolve_all_keeps_wf(ResolverKind::MobArenaBorder, r3.0, me, k);
        lemma_resolve_all_keeps_wf(ResolverKind::PlayerMob, r4.0, pe, k);
        lemma_resolve_all_keeps_wf(ResolverKind::PlayerBlast, r5.0, pe, k);
        lemma_resolve_all_keeps_wf(ResolverKind::PlayerItem, r6.0, pe, k);
        lemma_resolve_all_keeps_wf(ResolverKind::PlayerConsumable, r7.0, pe, k);
        lemma_resolve_all_keeps_wf(ResolverKind::PlayerArenaBorder, r8.0, pe, k);
        assert(notes@ =~= n0 + (r1.1 + r2.1 + r3.1 + r4.1 + r5.1 + r6.1 + r7.1 + r8.1 + r9.1));
    }
}

/// Runs one tick of `dt` milliseconds over the world. `guidance[i]` steers
/// the homing mob in slot `i`; `defense` is the pool that mobs reaching
/// the bottom damage.
pub fn tick(
    world: &mut World,
    ctx: &SimulationContext,
    dt: u32,
    guidance: &Vec<Option<Guidance>>,
    defense: &mut HealthComponent,
    notes: &mut Vec<Notification>,
)
    requires
        motions_wf(old(world)@),
    ensures
        final(world)@ == tick_destroyed(old(world)@, *ctx, dt as int, guidance@).0,
        final(notes)@ == old(notes)@ + tick_resolved(old(world)@, *ctx, dt as int).1 + tick_destroyed(
            old(world)@,
            *ctx,
            dt as int,
            guidance@,
        ).1,
        *final(defense) == damaged_by_all(
            *old(defense),
            bottom_damages(tick_bottom_events(old(world)@, *ctx, dt as int, guidance@)),
        ).constrained(),
        healths_in_range(final(world)@),
{
    let ghost w0 = world@;
    let ghost n0 = notes@;

    Motion2DSystem.run(world, dt);
    let ghost w1 = world@;
    proof {
        lemma_integrated_keeps_wf(w0, dt as int);
    }

    let mut mob_events: EventChannel<CollisionEvent> = EventChannel::new();
    let mut player_events: EventChannel<CollisionEvent> = EventChannel::new();
    CollisionDetectionSystem.run(world, &mut mob_events, &mut player_events);
    proof {
        assert(mob_events@ =~= detected(Side::Mob, w1, w1.len() as int));
        assert(player_events@ =~= detected(Side::Player, w1, w1.len() as int));
    }
    resolve_stage(world, &mob_events, &player_events, &ctx.params, notes);
    let ghost w2 = world@;
    proof {
        assert(notes@ =~= n0 + tick_resolved(w0, *ctx, dt as int).1);
        lemma_targeted_keeps_wf(w2);
    }
    let ghost n2 = notes@;

    EnemyTargetSystem.run(world);
    let mut reached_bottom: EventChannel<MobReachedBottomEvent> = EventChannel::new();
    let mut defense_system = DefenseSystem::new();
    defense_system.setup(&reached_bottom);
    EnemyMotion2DSystem.run(world, &ctx.arena, guidance, &mut reached_bottom);
    constrain_players_to_arena(world, &ctx.arena);
    let ghost be = reached_bottom@;
    proof {
        assert(be =~= tick_bottom_events(w0, *ctx, dt as int, guidance@));
        assert(be.subrange(0, be.len() as int) =~= be);
    }

    constrain_all_health(world);
    let mut destroyed: EventChannel<MobDestroyedEvent> = EventChannel::new();
    let mut destroyer = MobDestroyedSystem::new();
    destroyer.setup(&destroyed);
    MobBehaviorSystem.run(world, &mut destroyed);
    let ghost de = destroyed@;
    proof {
        assert(de.subrange(0, de.len() as int) =~= de);
    }
    destroyer.run(&destroyed, world, notes);
    defense_system.run(&reached_bottom, defense);
    proof {
        let w5 = tick_constrained(w0, *ctx, dt as int, guidance@);
        assert(de =~= behavior_events(w5, w5.len() as int));
        assert(notes@ =~= n2 + tick_destroyed(w0, *ctx, dt as int, guidance@).1);
        lemma_tick_health_in_range(w0, *ctx, dt as int, guidance@);
    }
}

} // verus!
