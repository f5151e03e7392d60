//! The per-tick stages that run over every entity: integration, mob
//! movement and the arena's edges, homing targets, and mob upkeep.
use vstd::prelude::*;
use crate::arena::{bounced, constrain_to_arena, past_bottom, ArenaBounds};
use crate::behavior::{move_enemy, moved_mob, Guidance};
use crate::geometry::Vector2;
use crate::kinds::{is_missile, mob_is_missile};
use crate::motion::{integrate, integrated};
use crate::steering::{closest_target, closest_upto};
use crate::world::{
    Category, Entity, EntityId, EventChannel, MobComponent, MobReachedBottomEvent, World,
};

verus! {

/// Every live entity has well-formed motion.
pub open spec fn motions_wf(w: Seq<Option<Entity>>) -> bool {
    forall|i: int| 0 <= i < w.len() && (#[trigger] w[i]) is Some ==> w[i]->0.motion.wf()
}

pub open spec fn integrated_slot(s: Option<Entity>, dt: int) -> Option<Entity> {
    match s {
        Some(e) => Some(
            Entity {
                transform: integrated(e.transform, e.motion, dt),
                motion: e.motion.clamped(),
                ..e
            },
        ),
        None => None,
    }
}

pub open spec fn integrated_world(w: Seq<Option<Entity>>, dt: int) -> Seq<Option<Entity>> {
    Seq::new(w.len(), |i: int| integrated_slot(w[i], dt))
}

/// Basic physics for every entity.
#[derive(Clone, Copy, Debug, PartialEq, Eq, Structural)]
pub struct Motion2DSystem;

impl Motion2DSystem {
    /// Moves and turns every entity by its velocities over `dt`
    /// milliseconds, then clamps its speeds.
    pub fn run(&self, world: &mut World, dt: u32)
        requires
            motions_wf(old(world)@),
        ensures
            final(world)@ == integrated_world(old(world)@, dt as int),
    {
        let n = world.len();
        let mut i: usize = 0;
        while i < n
            invariant
                i <= n,
                n == old(world)@.len(),
                world@.len() == n,
                motions_wf(old(world)@),
                forall|k: int|
                    0 <= k < i ==> world@[k] == integrated_slot(
                        #[trigger] old(world)@[k],
                        dt as int,
                    ),
                forall|k: int| i <= k < n ==> #[trigger] world@[k] == old(world)@[k],
            decreases n - i,
        {
            let id = EntityId { index: i };
            match world.get(id) {
                Some(e) => {
                    let mut e = e;
                    assert(old(world)@[i as int] is Some);
                    integrate(&mut e.transform, &mut e.motion, dt);
                    world.set(id, e);
                },
                None => {},
            }
            i = i + 1;
        }
        assert(world@ =~= integrated_world(old(world)@, dt as int));
    }
}

/// Which guidance, if any, applies to slot `i`.
pub open spec fn guidance_at(gs: Seq<Option<Guidance>>, i: int) -> Option<Guidance> {
    if 0 <= i < gs.len() {
        gs[i]
    } else {
        None
    }
}

/// A slot after mob movement and the arena's edges, and the event it
/// raises when the mob has reached the bottom and despawns.
pub open spec fn enemy_motion_slot(s: Option<Entity>, g: Option<Guidance>, b: ArenaBounds) -> (
    Option<Entity>,
    Seq<MobReachedBottomEvent>,
) {
    match s {
        Some(e) => match e.category {
            Category::Mob(mob) => {
                let e1 = moved_mob(e, mob, g, b);
                if past_bottom(e1.transform, e1.hitbox, b) {
                    (None, seq![MobReachedBottomEvent { damage: mob.defense_damage }])
                } else {
                    (
                        Some(Entity { motion: bounced(e1.transform, e1.hitbox, e1.motion, b), ..e1 }),
                        Seq::empty(),
                    )
                }
            },
            _ => (s, Seq::empty()),
        },
        None => (s, Seq::empty()),
    }
}

/// The reached-bottom events of the first `n` slots, in slot order.
pub open spec fn enemy_motion_events(
    w: Seq<Option<Entity>>,
    gs: Seq<Option<Guidance>>,
    b: ArenaBounds,
    n: int,
) -> Seq<MobReachedBottomEvent>
    decreases n,
{
    if n <= 0 {
        Seq::empty()
    } else {
        enemy_motion_events(w, gs, b, n - 1) + enemy_motion_slot(w[n - 1], guidance_at(gs, n - 1), b).1
    }
}

fn guidance_for(gs: &Vec<Option<Guidance>>, i: usize) -> (r: Option<Guidance>)
    ensures
        r == guidance_at(gs@, i as int),
{
    if i < gs.len() {
        gs[i]
    } else {
        None
    }
}

pub open spec fn enemy_motion_world(
    w: Seq<Option<Entity>>,
    gs: Seq<Option<Guidance>>,
    b: ArenaBounds,
) -> Seq<Option<Entity>> {
    Seq::new(w.len(), |i: int| enemy_motion_slot(w[i], guidance_at(gs, i), b).0)
}

/// Mob movement and the arena's edges.
#[derive(Clone, Copy, Debug, PartialEq, Eq, Structural)]
pub struct EnemyMotion2DSystem;

impl EnemyMotion2DSystem {
    /// Moves every mob after its kind, bounces it off the side edges, and
    /// despawns it at the bottom with a reached-bottom event carrying its
    /// defense damage. `guidance[i]` steers the homing mob in slot `i`.
    pub fn run(
        &self,
        world: &mut World,
        bounds: &ArenaBounds,
        guidance: &Vec<Option<Guidance>>,
        reached_bottom: &mut EventChannel<MobReachedBottomEvent>,
    )
        requires
            motions_wf(old(world)@),
        ensures
            final(world)@ == enemy_motion_world(old(world)@, guidance@, *bounds),
            final(reached_bottom)@ == old(reached_bottom)@ + enemy_motion_events(
                old(world)@,
                guidance@,
                *bounds,
                old(world)@.len() as int,
            ),
    {
        let n = world.len();
        let mut i: usize = 0;
        while i < n
            invariant
                i <= n,
                n == old(world)@.len(),
                world@.len() == n,
                motions_wf(old(world)@),
                forall|k: int|
                    0 <= k < i ==> world@[k] == enemy_motion_slot(
                        #[trigger] old(world)@[k],
                        guidance_at(guidance@, k),
                        *bounds,
                    ).0,
                forall|k: int| i <= k < n ==> #[trigger] world@[k] == old(world)@[k],
                reached_bottom@ == old(reached_bottom)@ + enemy_motion_events(
                    old(world)@,
                    guidance@,
                    *bounds,
                    i as int,
                ),
            decreases n - i,
        {
            let id = EntityId { index: i };
            let g = guidance_for(guidance, i);
            let ghost before = reached_bottom@;
            match world.get(id) {
                Some(e) => {
                    assert(old(world)@[i as int] is Some);
                    match e.category {
                        Category::Mob(mob) => {
                            let mut e = e;
                            move_enemy(&mut e, &mob, g, bounds);
                            let t = e.transform;
                            let h = e.hitbox;
                            let bottom = constrain_to_arena(&t, &h, &mut e.motion, bounds);
                            if bottom {
                                reached_bottom.single_write(
                                    MobReachedBottomEvent { damage: mob.defense_damage },
                                );
                                world.delete(id);
                            } else {
                                world.set(id, e);
                            }
                        },
                        _ => {},
                    }
                },
                None => {},
            }
            proof {
                let slot = enemy_motion_slot(old(world)@[i as int], g, *bounds);
                assert(reached_bottom@ =~= before + slot.1);
                assert(old(reached_bottom)@ + enemy_motion_events(
                    old(world)@,
                    guidance@,
                    *bounds,
                    i + 1,
                ) =~= before + slot.1);
            }
            i = i + 1;
        }
        assert(world@ =~= enemy_motion_world(old(world)@, guidance@, *bounds));
    }
}

pub open spec fn player_bounced_slot(s: Option<Entity>, b: ArenaBounds) -> Option<Entity> {
    match s {
        Some(e) => match e.category {
            Category::Player(_) => Some(
                Entity { motion: bounced(e.transform, e.hitbox, e.motion, b), ..e },
            ),
            _ => s,
        },
        None => s,
    }
}

pub open spec fn players_bounced_world(w: Seq<Option<Entity>>, b: ArenaBounds) -> Seq<
    Option<Entity>,
> {
    Seq::new(w.len(), |i: int| player_bounced_slot(w[i], b))
}

/// The arena's side edges for players: a player past the left or right
/// edge has its horizontal velocity reversed, its vertical velocity kept.
pub fn constrain_players_to_arena(world: &mut World, bounds: &ArenaBounds)
    ensures
        final(world)@ == players_bounced_world(old(world)@, *bounds),
{
    let n = world.len();
    let mut i: usize = 0;
    while i < n
        invariant
            i <= n,
            n == old(world)@.len(),
            world@.len() == n,
            forall|k: int|
                0 <= k < i ==> world@[k] == player_bounced_slot(#[trigger] old(world)@[k], *bounds),
            forall|k: int| i <= k < n ==> #[trigger] world@[k] == old(world)@[k],
        decreases n - i,
    {
        let id = EntityId { index: i };
        match world.get(id) {
            Some(e) => {
                assert(old(world)@[i as int] is Some);
                match e.category {
                    Category::Player(_) => {
                        let mut e = e;
                        let t = e.transform;
                        let h = e.hitbox;
                        constrain_to_arena(&t, &h, &mut e.motion, bounds);
                        world.set(id, e);
                    },
                    _ => {},
                }
            },
            None => {},
        }
        i = i + 1;
    }
    assert(world@ =~= players_bounced_world(old(world)@, *bounds));
}

/// A player moving right at `v` past the right edge moves left at `v`
/// afterwards, with its vertical velocity unchanged.
pub proof fn lemma_player_boundary_reflection(e: Entity, b: ArenaBounds)
    requires
        e.category is Player,
        e.motion.velocity_x > 0,
        2 * e.transform.x + e.hitbox.width > 2 * b.max_x,
    ensures
        player_bounced_slot(Some(e), b) is Some,
        player_bounced_slot(Some(e), b)->0.motion.velocity_x == -e.motion.velocity_x,
        player_bounced_slot(Some(e), b)->0.motion.velocity_y == e.motion.velocity_y,
{
}

/// Positions of the players among the first `n` slots, in slot order.
pub open spec fn player_positions(w: Seq<Option<Entity>>, n: int) -> Seq<Vector2>
    decreases n,
{
    if n <= 0 {
        Seq::empty()
    } else {
        player_positions(w, n - 1) + match w[n - 1] {
            Some(e) => match e.category {
                Category::Player(_) => seq![Vector2 { x: e.transform.x, y: e.transform.y }],
                _ => Seq::empty(),
            },
            None => Seq::empty(),
        }
    }
}

/// The nearest of `ps` to `p`, the first found on a tie.
pub open spec fn nearest(ps: Seq<Vector2>, p: Vector2) -> Option<Vector2> {
    if ps.len() == 0 {
        None
    } else {
        Some(ps[closest_upto(p, ps, ps.len() as int)])
    }
}

/// A slot after target acquisition against players at `ps`.
pub open spec fn targeted_slot(s: Option<Entity>, ps: Seq<Vector2>) -> Option<Entity> {
    match s {
        Some(e) => match e.category {
            Category::Mob(mob) => if is_missile(mob.mob_type) {
                Some(
                    Entity {
                        category: Category::Mob(
                            MobComponent {
                                target_position: nearest(
                                    ps,
                                    Vector2 { x: e.transform.x, y: e.transform.y },
                                ),
                                ..mob
                            },
                        ),
                        ..e
                    },
                )
            } else {
                s
            },
            _ => s,
        },
        None => s,
    }
}

fn gather_players(world: &World) -> (r: Vec<Vector2>)
    ensures
        r@ == player_positions(world@, world@.len() as int),
{
    let mut r: Vec<Vector2> = Vec::new();
    let n = world.len();
    let mut i: usize = 0;
    while i < n
        invariant
            i <= n,
            n == world@.len(),
            r@ == player_positions(world@, i as int),
        decreases n - i,
    {
        let ghost before = r@;
        match world.get(EntityId { index: i }) {
            Some(e) => match e.category {
                Category::Player(_) => {
                    r.push(Vector2 { x: e.transform.x, y: e.transform.y });
                },
                _ => {},
            },
            None => {},
        }
        proof {
            assert(player_positions(world@, i + 1) =~= r@);
        }
        i = i + 1;
    }
    r
}

pub open spec fn targeted_world(w: Seq<Option<Entity>>) -> Seq<Option<Entity>> {
    Seq::new(w.len(), |i: int| targeted_slot(w[i], player_positions(w, w.len() as int)))
}

/// Target acquisition for homing mobs.
#[derive(Clone, Copy, Debug, PartialEq, Eq, Structural)]
pub struct EnemyTargetSystem;

impl EnemyTargetSystem {
    /// Points every homing mob at the nearest player, scanning players in
    /// slot order and keeping the first found on a tie; with no player the
    /// target is cleared and the mob falls back to descending.
    pub fn run(&self, world: &mut World)
        ensures
            final(world)@ == targeted_world(old(world)@),
    {
        let players = gather_players(world);
        let n = world.len();
        let mut i: usize = 0;
        while i < n
            invariant
                i <= n,
                n == old(world)@.len(),
                world@.len() == n,
                players@ == player_positions(old(world)@, n as int),
                forall|k: int|
                    0 <= k < i ==> world@[k] == targeted_slot(#[trigger] old(world)@[k], players@),
                forall|k: int| i <= k < n ==> #[trigger] world@[k] == old(world)@[k],
            decreases n - i,
        {
            let id = EntityId { index: i };
            match world.get(id) {
                Some(e) => {
                    assert(old(world)@[i as int] is Some);
                    match e.category {
                        Category::Mob(mob) => {
                            if mob_is_missile(&mob.mob_type) {
                                let p = Vector2 { x: e.transform.x, y: e.transform.y };
                                let target = match closest_target(p, &players) {
                                    Some(j) => Some(players[j]),
                                    None => None,
                                };
                                let mut m = mob;
                                m.target_position = target;
                                let mut e = e;
                                e.category = Category::Mob(m);
                                world.set(id, e);
                            }
                        },
                        _ => {},
                    }
                },
                None => {},
            }
            i = i + 1;
        }
        assert(world@ =~= targeted_world(old(world)@));
    }
}

} // verus!
