use thetawave::arena::ArenaBounds;
use thetawave::behavior::Guidance;
use thetawave::collisions::{
    GameParametersResource, MobArenaBorderCollisionSystem, MobBlastCollisionSystem,
    MobMobCollisionSystem, MobPlayerCollisionSystem, PlayerArenaBorderCollisionSystem,
    PlayerBlastCollisionSystem, PlayerConsumableCollisionSystem, PlayerItemCollisionSystem,
    PlayerMobCollisionSystem, SpaceshipMobCollisionSystem,
};
use thetawave::detection::CollisionDetectionSystem;
use thetawave::geometry::{Hitbox2DComponent, Transform, Vector2, UNIT};
use thetawave::health::HealthComponent;
use thetawave::kinds::{
    AllyType, BlastType, ConsumableType, EffectType, EnemyType, ItemType, MobType, SoundEffect,
};
use thetawave::motion::{BarrierComponent, Motion2DComponent};
use thetawave::simulation::{tick, SimulationContext};
use thetawave::systems::{EnemyMotion2DSystem, EnemyTargetSystem, Motion2DSystem};
use thetawave::upkeep::{DefenseSystem, EnemySystem, MobBehaviorSystem, MobDestroyedSystem};
use thetawave::world::{
    BlastComponent, Category, CollisionEvent, ConsumableComponent, Entity, EntityId,
    EventChannel, MobComponent, MobDestroyedEvent, MobReachedBottomEvent, Notification,
    PlayerComponent, World,
};

fn still(max: i32) -> Motion2DComponent {
    Motion2DComponent {
        velocity_x: 0,
        velocity_y: 0,
        acceleration_x: 10,
        acceleration_y: 10,
        deceleration_x: 5,
        deceleration_y: 5,
        speed_x: 60,
        speed_y: 80,
        max_speed_x: max,
        max_speed_y: max,
        angular_velocity: 0,
        angular_acceleration: 100,
        angular_deceleration: 100,
        angular_speed: 1000,
        immovable: false,
    }
}

fn entity(category: Category, x: i32, y: i32, side: i32, health: i32) -> Entity {
    Entity {
        category,
        transform: Transform { x, y, rotation: 0, scale: 1000 },
        hitbox: Hitbox2DComponent { width: side, height: side, offset_x: 0, offset_y: 0, offset_rotation: 0 },
        motion: still(1000),
        health: HealthComponent { value: health, max_value: 100 },
    }
}

fn mob(t: EnemyType, collision_damage: i32) -> Category {
    Category::Mob(MobComponent {
        mob_type: MobType::Enemy(t),
        collision_damage,
        defense_damage: 7,
        poison: 0,
        target_position: None,
    })
}

fn player(collision_damage: i32) -> Category {
    Category::Player(PlayerComponent { collision_damage, rolling: false, steel_barrel: false })
}

fn touch(subject: EntityId, other: EntityId) -> CollisionEvent {
    let still_velocity = Vector2 { x: 0, y: 0 };
    CollisionEvent {
        subject,
        subject_velocity: still_velocity,
        subject_immovable: false,
        other,
        other_velocity: still_velocity,
        other_immovable: false,
        collision_velocity: None,
    }
}

fn params() -> GameParametersResource {
    GameParametersResource { min_collision_knockback: 20 }
}

fn arena() -> ArenaBounds {
    ArenaBounds { min_x: 0, max_x: 360 * UNIT, min_y: 0, height: 600 * UNIT }
}

fn detect(world: &World) -> (EventChannel<CollisionEvent>, EventChannel<CollisionEvent>) {
    let mut mobs = EventChannel::new();
    let mut players = EventChannel::new();
    CollisionDetectionSystem.run(world, &mut mobs, &mut players);
    (mobs, players)
}

#[test]
fn mob_touching_player_deals_collision_damage() {
    let mut world = World::new();
    let m = world.spawn(entity(mob(EnemyType::Pawn, 12), 0, 0, 10 * UNIT, 50));
    let p = world.spawn(entity(player(4), 5 * UNIT, 0, 10 * UNIT, 100));
    let mut mob_channel = EventChannel::new();
    let mut player_channel = EventChannel::new();
    let mut player_side = PlayerMobCollisionSystem::new();
    player_side.setup(&player_channel);
    let mut mob_side = MobPlayerCollisionSystem::new();
    mob_side.setup(&mob_channel);
    CollisionDetectionSystem.run(&world, &mut mob_channel, &mut player_channel);
    assert_eq!(mob_channel.len(), 1);
    assert_eq!(player_channel.len(), 1);
    let mut notes = Vec::new();
    player_side.run(&player_channel, &mut world, &params(), &mut notes);
    mob_side.run(&mob_channel, &mut world, &params(), &mut notes);
    assert_eq!(world.get(p).unwrap().health.value, 88);
    assert_eq!(world.get(m).unwrap().health.value, 46);
    assert_eq!(notes, vec![Notification::PlayAudio(SoundEffect::MetalCrash)]);
}

#[test]
fn detection_emits_both_directions_for_two_mobs() {
    let mut world = World::new();
    world.spawn(entity(mob(EnemyType::Pawn, 1), 0, 0, 10, 50));
    world.spawn(entity(mob(EnemyType::Drone, 1), 3, 3, 10, 50));
    let (mobs, players) = detect(&world);
    assert_eq!(mobs.len(), 2);
    assert_eq!(players.len(), 0);
    assert_eq!(mobs.event(0).subject, EntityId { index: 0 });
    assert_eq!(mobs.event(0).other, EntityId { index: 1 });
    assert_eq!(mobs.event(1).subject, EntityId { index: 1 });
    assert_eq!(mobs.event(1).other, EntityId { index: 0 });
}

#[test]
fn detection_skips_pairs_of_no_interest() {
    let mut world = World::new();
    world.spawn(entity(Category::Item(ItemType::Spice), 0, 0, 10, 0));
    world.spawn(entity(mob(EnemyType::Pawn, 1), 0, 0, 10, 50));
    let c = ConsumableComponent { consumable_type: ConsumableType::Money1, sound_effect: SoundEffect::MetalPing };
    world.spawn(entity(Category::Consumable(c), 0, 0, 10, 0));
    let (mobs, players) = detect(&world);
    assert_eq!(mobs.len(), 0);
    assert_eq!(players.len(), 0);
}

#[test]
fn detection_carries_relative_velocity_and_immovable_flag() {
    let mut world = World::new();
    let mut a = entity(mob(EnemyType::Pawn, 1), 0, 0, 10, 50);
    a.motion.velocity_x = 30;
    let mut b = entity(mob(EnemyType::Pawn, 1), 2, 0, 10, 50);
    b.motion.velocity_x = -10;
    b.motion.velocity_y = 4;
    b.motion.immovable = true;
    world.spawn(a);
    world.spawn(b);
    let (mobs, _) = detect(&world);
    let first = mobs.event(0);
    assert_eq!(first.collision_velocity, Some(Vector2 { x: -40, y: 4 }));
    assert_eq!(first.subject_velocity, Vector2 { x: 30, y: 0 });
    assert_eq!(first.other_velocity, Vector2 { x: -10, y: 4 });
    assert!(!first.subject_immovable);
    assert!(first.other_immovable);
    let second = mobs.event(1);
    assert_eq!(second.collision_velocity, Some(Vector2 { x: 40, y: -4 }));
    assert!(!second.other_immovable);
}

#[test]
fn ally_blast_on_mob_explodes_and_damages() {
    let mut world = World::new();
    let m = world.spawn(entity(mob(EnemyType::Pawn, 1), 0, 0, 4, 50));
    let blast = BlastComponent { blast_type: BlastType::Ally, damage: 9, poison_damage: 0 };
    let b = world.spawn(entity(Category::Blast(blast), 0, 0, 4, 0));
    let mut resolver = MobBlastCollisionSystem::new();
    let mut channel = EventChannel::new();
    resolver.setup(&channel);
    let mut player_channel = EventChannel::new();
    CollisionDetectionSystem.run(&world, &mut channel, &mut player_channel);
    let mut notes = Vec::new();
    resolver.run(&channel, &mut world, &params(), &mut notes);
    assert!(world.get(b).is_none());
    assert_eq!(world.get(m).unwrap().health.value, 41);
    assert_eq!(
        notes,
        vec![
            Notification::PlayAudio(SoundEffect::MetalPing),
            Notification::SpawnEffect { effect: EffectType::AllyBlastExplosion, x: 0, y: 0 },
        ]
    );
}

#[test]
fn critical_blast_leaves_critical_explosion() {
    let mut world = World::new();
    world.spawn(entity(mob(EnemyType::Pawn, 1), 0, 0, 4, 50));
    let blast = BlastComponent { blast_type: BlastType::AllyCritical, damage: 20, poison_damage: 0 };
    world.spawn(entity(Category::Blast(blast), 1, 1, 4, 0));
    let mut resolver = MobBlastCollisionSystem::new();
    let mut channel = EventChannel::new();
    resolver.setup(&channel);
    let mut player_channel = EventChannel::new();
    CollisionDetectionSystem.run(&world, &mut channel, &mut player_channel);
    let mut notes = Vec::new();
    resolver.run(&channel, &mut world, &params(), &mut notes);
    assert_eq!(notes[1], Notification::SpawnEffect { effect: EffectType::CriticalBlastExplosion, x: 1, y: 1 });
}

#[test]
fn enemy_blast_does_not_hurt_mobs() {
    let mut world = World::new();
    let m = world.spawn(entity(mob(EnemyType::Pawn, 1), 0, 0, 4, 50));
    let blast = BlastComponent { blast_type: BlastType::Enemy, damage: 9, poison_damage: 0 };
    let b = world.spawn(entity(Category::Blast(blast), 0, 0, 4, 0));
    let mut resolver = MobBlastCollisionSystem::new();
    let mut channel = EventChannel::new();
    resolver.setup(&channel);
    channel.single_write(touch(m, b));
    let mut notes = Vec::new();
    resolver.run(&channel, &mut world, &params(), &mut notes);
    assert!(world.get(b).is_some());
    assert_eq!(world.get(m).unwrap().health.value, 50);
    assert!(notes.is_empty());
}

#[test]
fn blast_deleted_earlier_in_the_tick_is_skipped() {
    let mut world = World::new();
    let first_mob = world.spawn(entity(mob(EnemyType::Pawn, 1), 0, 0, 4, 50));
    let second_mob = world.spawn(entity(mob(EnemyType::Pawn, 1), 1, 0, 4, 50));
    let blast = BlastComponent { blast_type: BlastType::Ally, damage: 9, poison_damage: 0 };
    let b = world.spawn(entity(Category::Blast(blast), 0, 0, 4, 0));
    let mut resolver = MobBlastCollisionSystem::new();
    let mut channel = EventChannel::new();
    resolver.setup(&channel);
    channel.single_write(touch(first_mob, b));
    channel.single_write(touch(second_mob, b));
    let mut notes = Vec::new();
    resolver.run(&channel, &mut world, &params(), &mut notes);
    assert_eq!(world.get(first_mob).unwrap().health.value, 41);
    assert_eq!(world.get(second_mob).unwrap().health.value, 50);
    assert_eq!(notes.len(), 2);
}

#[test]
fn deleting_twice_is_harmless() {
    let mut world = World::new();
    let a = world.spawn(entity(mob(EnemyType::Pawn, 1), 0, 0, 4, 50));
    world.delete(a);
    world.delete(a);
    world.delete(EntityId { index: 99 });
    assert!(world.get(a).is_none());
    assert_eq!(world.len(), 1);
}

#[test]
fn late_reader_sees_only_new_events() {
    let mut world = World::new();
    let m = world.spawn(entity(mob(EnemyType::Pawn, 1), 0, 0, 4, 50));
    let blast = BlastComponent { blast_type: BlastType::Ally, damage: 9, poison_damage: 0 };
    let b = world.spawn(entity(Category::Blast(blast), 0, 0, 4, 0));
    let mut channel = EventChannel::new();
    channel.single_write(touch(m, b));
    let mut resolver = MobBlastCollisionSystem::new();
    resolver.setup(&channel);
    let mut notes = Vec::new();
    resolver.run(&channel, &mut world, &params(), &mut notes);
    assert_eq!(world.get(m).unwrap().health.value, 50);
    assert!(notes.is_empty());
}

#[test]
fn two_readers_of_one_channel_are_independent() {
    let mut world = World::new();
    let m = world.spawn(entity(mob(EnemyType::Pawn, 1), 0, 0, 10, 50));
    let p = world.spawn(entity(player(6), 0, 0, 10, 100));
    let mut channel = EventChannel::new();
    let mut a = MobPlayerCollisionSystem::new();
    let mut b = MobMobCollisionSystem::new();
    a.setup(&channel);
    b.setup(&channel);
    channel.single_write(touch(m, p));
    let mut notes = Vec::new();
    b.run(&channel, &mut world, &params(), &mut notes);
    a.run(&channel, &mut world, &params(), &mut notes);
    assert_eq!(world.get(m).unwrap().health.value, 44);
    a.run(&channel, &mut world, &params(), &mut notes);
    assert_eq!(world.get(m).unwrap().health.value, 44);
}

#[test]
fn missile_detonates_on_contact() {
    let mut world = World::new();
    let m = world.spawn(entity(mob(EnemyType::Missile, 30), 0, 0, 10, 50));
    let p = world.spawn(entity(player(1), 0, 0, 10, 100));
    let mut channel = EventChannel::new();
    let mut resolver = MobPlayerCollisionSystem::new();
    resolver.setup(&channel);
    channel.single_write(touch(m, p));
    let mut notes = Vec::new();
    resolver.run(&channel, &mut world, &params(), &mut notes);
    assert_eq!(world.get(m).unwrap().health.value, 0);
}

#[test]
fn mobs_knock_each_other_back() {
    let mut world = World::new();
    let mut a = entity(mob(EnemyType::Pawn, 2), 0, 0, 10, 50);
    a.motion.velocity_x = 5;
    let b = entity(mob(EnemyType::Drone, 3), 4, 0, 10, 50);
    let ia = world.spawn(a);
    let ib = world.spawn(b);
    let mut channel = EventChannel::new();
    let mut resolver = MobMobCollisionSystem::new();
    resolver.setup(&channel);
    let mut players = EventChannel::new();
    CollisionDetectionSystem.run(&world, &mut channel, &mut players);
    let mut notes = Vec::new();
    resolver.run(&channel, &mut world, &params(), &mut notes);
    let first_after = world.get(ia).unwrap();
    let second_after = world.get(ib).unwrap();
    assert_eq!((first_after.motion.velocity_x, first_after.motion.velocity_y), (-20, 0));
    assert_eq!((second_after.motion.velocity_x, second_after.motion.velocity_y), (20, 0));
    assert_eq!(first_after.health.value, 47);
    assert_eq!(second_after.health.value, 48);
    assert_eq!(notes.len(), 2);
}

#[test]
fn immovable_mob_is_not_pushed_but_pushes_harder() {
    let mut world = World::new();
    let mut a = entity(mob(EnemyType::RepeaterBody, 2), 0, 0, 10, 50);
    a.motion.immovable = true;
    let mut b = entity(mob(EnemyType::Pawn, 3), 4, 0, 10, 50);
    b.motion.velocity_x = -30;
    let ia = world.spawn(a);
    let ib = world.spawn(b);
    let mut channel = EventChannel::new();
    let mut resolver = MobMobCollisionSystem::new();
    resolver.setup(&channel);
    let mut players = EventChannel::new();
    CollisionDetectionSystem.run(&world, &mut channel, &mut players);
    let mut notes = Vec::new();
    resolver.run(&channel, &mut world, &params(), &mut notes);
    assert_eq!(world.get(ia).unwrap().motion.velocity_x, 0);
    assert_eq!(world.get(ib).unwrap().motion.velocity_x, 60);
}

#[test]
fn barrier_stops_mobs_unless_it_lets_them_pass() {
    let mut world = World::new();
    let mut a = entity(mob(EnemyType::Pawn, 2), 0, 0, 10, 50);
    a.motion.velocity_x = -12;
    let ia = world.spawn(a);
    let wall = BarrierComponent { deflection_x: 25, deflection_y: 0, damage: 4, enemies_pass: false };
    world.spawn(entity(Category::Barrier(wall), -5, 0, 10, 0));
    let mut channel = EventChannel::new();
    let mut resolver = MobArenaBorderCollisionSystem::new();
    resolver.setup(&channel);
    let mut players = EventChannel::new();
    CollisionDetectionSystem.run(&world, &mut channel, &mut players);
    let mut notes = Vec::new();
    resolver.run(&channel, &mut world, &params(), &mut notes);
    let first_after = world.get(ia).unwrap();
    assert_eq!(first_after.motion.velocity_x, 25);
    assert_eq!(first_after.health.value, 46);
    assert_eq!(notes, vec![Notification::PlayAudio(SoundEffect::ForceField)]);

    let mut open = World::new();
    let ib = open.spawn(entity(mob(EnemyType::Pawn, 2), 0, 0, 10, 50));
    let gate = BarrierComponent { deflection_x: 25, deflection_y: 0, damage: 4, enemies_pass: true };
    open.spawn(entity(Category::Barrier(gate), -5, 0, 10, 0));
    let mut channel = EventChannel::new();
    let mut resolver = MobArenaBorderCollisionSystem::new();
    resolver.setup(&channel);
    let mut players = EventChannel::new();
    CollisionDetectionSystem.run(&open, &mut channel, &mut players);
    resolver.run(&channel, &mut open, &params(), &mut notes);
    assert_eq!(open.get(ib).unwrap().health.value, 50);
}

#[test]
fn player_barrier_contact_hurts_every_tick() {
    let mut world = World::new();
    let mut a = entity(player(2), 0, 0, 10, 50);
    a.motion.velocity_x = 9;
    let ia = world.spawn(a);
    let wall = BarrierComponent { deflection_x: 25, deflection_y: 10, damage: 4, enemies_pass: true };
    world.spawn(entity(Category::Barrier(wall), 5, 0, 10, 0));
    let mut channel = EventChannel::new();
    let mut resolver = PlayerArenaBorderCollisionSystem::new();
    resolver.setup(&channel);
    let mut mobs = EventChannel::new();
    let mut notes = Vec::new();
    CollisionDetectionSystem.run(&world, &mut mobs, &mut channel);
    resolver.run(&channel, &mut world, &params(), &mut notes);
    CollisionDetectionSystem.run(&world, &mut mobs, &mut channel);
    resolver.run(&channel, &mut world, &params(), &mut notes);
    let first_after = world.get(ia).unwrap();
    assert_eq!(first_after.health.value, 42);
    assert_eq!((first_after.motion.velocity_x, first_after.motion.velocity_y), (-25, 0));
}

#[test]
fn rolling_player_dodges_enemy_blasts() {
    let mut world = World::new();
    let rolling = Category::Player(PlayerComponent { collision_damage: 1, rolling: true, steel_barrel: false });
    let p = world.spawn(entity(rolling, 0, 0, 10, 50));
    let blast = BlastComponent { blast_type: BlastType::Enemy, damage: 9, poison_damage: 0 };
    let b = world.spawn(entity(Category::Blast(blast), 0, 0, 4, 0));
    let mut channel = EventChannel::new();
    let mut resolver = PlayerBlastCollisionSystem::new();
    resolver.setup(&channel);
    let mut mobs = EventChannel::new();
    CollisionDetectionSystem.run(&world, &mut mobs, &mut channel);
    let mut notes = Vec::new();
    resolver.run(&channel, &mut world, &params(), &mut notes);
    assert_eq!(world.get(p).unwrap().health.value, 50);
    assert!(world.get(b).is_some());
}

#[test]
fn enemy_blast_hits_player() {
    let mut world = World::new();
    let p = world.spawn(entity(player(1), 0, 0, 10, 50));
    let blast = BlastComponent { blast_type: BlastType::Enemy, damage: 9, poison_damage: 0 };
    let b = world.spawn(entity(Category::Blast(blast), 2, 3, 4, 0));
    let mut channel = EventChannel::new();
    let mut resolver = PlayerBlastCollisionSystem::new();
    resolver.setup(&channel);
    let mut mobs = EventChannel::new();
    CollisionDetectionSystem.run(&world, &mut mobs, &mut channel);
    let mut notes = Vec::new();
    resolver.run(&channel, &mut world, &params(), &mut notes);
    assert_eq!(world.get(p).unwrap().health.value, 41);
    assert!(world.get(b).is_none());
    assert_eq!(notes, vec![Notification::SpawnEffect { effect: EffectType::EnemyBlastExplosion, x: 2, y: 3 }]);
}

#[test]
fn steel_barrel_roll_ignores_collision_damage_but_not_knockback() {
    let mut world = World::new();
    let shielded = Category::Player(PlayerComponent { collision_damage: 1, rolling: true, steel_barrel: true });
    let p = world.spawn(entity(shielded, 0, 0, 10, 50));
    let mut m = entity(mob(EnemyType::Pawn, 15), 3, 0, 10, 50);
    m.motion.velocity_x = -70;
    world.spawn(m);
    let mut channel = EventChannel::new();
    let mut resolver = SpaceshipMobCollisionSystem::new();
    resolver.setup(&channel);
    let mut mobs = EventChannel::new();
    CollisionDetectionSystem.run(&world, &mut mobs, &mut channel);
    let mut notes = Vec::new();
    resolver.run(&channel, &mut world, &params(), &mut notes);
    let ship = world.get(p).unwrap();
    assert_eq!(ship.health.value, 50);
    assert_eq!(ship.motion.velocity_x, -70);
    assert_eq!(ship.motion.velocity_y, 0);
}

#[test]
fn pickups_are_reported_and_deleted() {
    let mut world = World::new();
    let p = world.spawn(entity(player(1), 0, 0, 10, 50));
    let i = world.spawn(entity(Category::Item(ItemType::TractorBeam), 1, 1, 4, 0));
    let c = ConsumableComponent { consumable_type: ConsumableType::HealthWrench, sound_effect: SoundEffect::Pickup(ConsumableType::HealthWrench) };
    let k = world.spawn(entity(Category::Consumable(c), -1, 0, 4, 0));
    let mut channel = EventChannel::new();
    let mut items = PlayerItemCollisionSystem::new();
    let mut consumables = PlayerConsumableCollisionSystem::new();
    items.setup(&channel);
    consumables.setup(&channel);
    let mut mobs = EventChannel::new();
    CollisionDetectionSystem.run(&world, &mut mobs, &mut channel);
    let mut notes = Vec::new();
    items.run(&channel, &mut world, &params(), &mut notes);
    consumables.run(&channel, &mut world, &params(), &mut notes);
    assert!(world.get(i).is_none());
    assert!(world.get(k).is_none());
    assert_eq!(
        notes,
        vec![
            Notification::ItemGet { player: p, item: ItemType::TractorBeam },
            Notification::PlayAudio(SoundEffect::ShotgunCock),
            Notification::ConsumableGet { player: p, consumable: ConsumableType::HealthWrench },
            Notification::PlayAudio(SoundEffect::Pickup(ConsumableType::HealthWrench)),
        ]
    );
}

#[test]
fn motion_system_moves_every_entity() {
    let mut world = World::new();
    let mut a = entity(mob(EnemyType::Pawn, 1), 0, 0, 4, 50);
    a.motion.velocity_y = -100;
    let ia = world.spawn(a);
    let mut b = entity(Category::Item(ItemType::Spice), 10, 10, 4, 0);
    b.motion.velocity_x = 2000;
    let ib = world.spawn(b);
    Motion2DSystem.run(&mut world, 500);
    assert_eq!(world.get(ia).unwrap().transform.y, -50);
    assert_eq!(world.get(ib).unwrap().transform.x, 1010);
    assert_eq!(world.get(ib).unwrap().motion.velocity_x, 1000);
}

#[test]
fn missile_without_player_falls_back_to_descent() {
    let mut world = World::new();
    let m = world.spawn(entity(mob(EnemyType::Missile, 1), 100 * UNIT, 300 * UNIT, 4 * UNIT, 50));
    EnemyTargetSystem.run(&mut world);
    match world.get(m).unwrap().category {
        Category::Mob(c) => assert_eq!(c.target_position, None),
        _ => panic!("not a mob"),
    }
    let mut bottom = EventChannel::new();
    EnemyMotion2DSystem.run(&mut world, &arena(), &Vec::new(), &mut bottom);
    let after = world.get(m).unwrap();
    assert_eq!(after.motion.velocity_y, -10);
    assert_eq!(bottom.len(), 0);
}

#[test]
fn missile_targets_the_nearest_player() {
    let mut world = World::new();
    world.spawn(entity(player(1), 50, 0, 4, 50));
    world.spawn(entity(player(1), 0, 20, 4, 50));
    let m = world.spawn(entity(mob(EnemyType::Missile, 1), 0, 0, 4, 50));
    let pawn = world.spawn(entity(mob(EnemyType::Pawn, 1), 0, 0, 4, 50));
    EnemyTargetSystem.run(&mut world);
    match world.get(m).unwrap().category {
        Category::Mob(c) => assert_eq!(c.target_position, Some(Vector2 { x: 0, y: 20 })),
        _ => panic!("not a mob"),
    }
    match world.get(pawn).unwrap().category {
        Category::Mob(c) => assert_eq!(c.target_position, None),
        _ => panic!("not a mob"),
    }
}

#[test]
fn equidistant_players_keep_the_first_in_slot_order() {
    let mut world = World::new();
    world.spawn(entity(player(1), 30, 40, 4, 50));
    world.spawn(entity(player(1), -50, 0, 4, 50));
    world.spawn(entity(player(1), 0, -50, 4, 50));
    let m = world.spawn(entity(mob(EnemyType::Missile, 1), 0, 0, 4, 50));
    EnemyTargetSystem.run(&mut world);
    match world.get(m).unwrap().category {
        Category::Mob(c) => assert_eq!(c.target_position, Some(Vector2 { x: 30, y: 40 })),
        _ => panic!("not a mob"),
    }
}

#[test]
fn guided_missile_turns_and_moves_forward() {
    let mut world = World::new();
    world.spawn(entity(player(1), 100 * UNIT, 100 * UNIT, 4, 50));
    let m = world.spawn(entity(mob(EnemyType::Missile, 1), 100 * UNIT, 300 * UNIT, 4 * UNIT, 50));
    EnemyTargetSystem.run(&mut world);
    let mut guidance = Vec::new();
    guidance.push(None);
    guidance.push(Some(Guidance { desired_rotation: 10_000_000, forward_x: 0, forward_y: -1_000_000 }));
    let mut bottom = EventChannel::new();
    EnemyMotion2DSystem.run(&mut world, &arena(), &guidance, &mut bottom);
    let after = world.get(m).unwrap();
    assert_eq!(after.motion.angular_velocity, 100);
    assert_eq!(after.motion.velocity_y, -10);
    assert_eq!(after.motion.velocity_x, 0);
}

#[test]
fn mob_at_the_bottom_despawns_with_defense_damage() {
    let mut world = World::new();
    let m = world.spawn(entity(mob(EnemyType::Drone, 1), 100 * UNIT, UNIT, 4 * UNIT, 50));
    let mut bottom = EventChannel::new();
    let mut defense_system = DefenseSystem::new();
    defense_system.setup(&bottom);
    EnemyMotion2DSystem.run(&mut world, &arena(), &Vec::new(), &mut bottom);
    assert!(world.get(m).is_none());
    assert_eq!(bottom.len(), 1);
    assert_eq!(bottom.event(0), MobReachedBottomEvent { damage: 7 });
    let mut defense = HealthComponent { value: 5, max_value: 100 };
    defense_system.run(&bottom, &mut defense);
    assert_eq!(defense.value, 0);
}

#[test]
fn strafer_bounces_off_the_side() {
    let mut world = World::new();
    let mut s = entity(mob(EnemyType::StraferRight, 1), 359 * UNIT, 300 * UNIT, 4 * UNIT, 50);
    s.motion.velocity_x = 100;
    let m = world.spawn(s);
    let mut bottom = EventChannel::new();
    EnemyMotion2DSystem.run(&mut world, &arena(), &Vec::new(), &mut bottom);
    assert_eq!(world.get(m).unwrap().motion.velocity_x, -95);
}

#[test]
fn hauler_descends_and_brakes() {
    let mut world = World::new();
    let hauler = Category::Mob(MobComponent {
        mob_type: MobType::Ally(AllyType::Hauler),
        collision_damage: 1,
        defense_damage: 1,
        poison: 0,
        target_position: None,
    });
    let mut h = entity(hauler, 100 * UNIT, 300 * UNIT, 4 * UNIT, 50);
    h.motion.velocity_x = 3;
    let m = world.spawn(h);
    let mut bottom = EventChannel::new();
    EnemyMotion2DSystem.run(&mut world, &arena(), &Vec::new(), &mut bottom);
    let after = world.get(m).unwrap();
    assert_eq!((after.motion.velocity_x, after.motion.velocity_y), (0, -10));
}

#[test]
fn repeater_body_backs_up_below_its_stop() {
    let mut world = World::new();
    let high = world.spawn(entity(mob(EnemyType::RepeaterBody, 1), 100 * UNIT, 590 * UNIT, 4 * UNIT, 50));
    let low = world.spawn(entity(mob(EnemyType::RepeaterBody, 1), 100 * UNIT, 500 * UNIT, 4 * UNIT, 50));
    let mut bottom = EventChannel::new();
    EnemyMotion2DSystem.run(&mut world, &arena(), &Vec::new(), &mut bottom);
    assert_eq!(world.get(high).unwrap().motion.velocity_y, -10);
    assert_eq!(world.get(low).unwrap().motion.velocity_y, 10);
}

#[test]
fn shoulder_swings_back_when_tilted() {
    let mut world = World::new();
    let mut s = entity(mob(EnemyType::RepeaterLeftShoulder, 1), 100 * UNIT, 590 * UNIT, 4 * UNIT, 50);
    s.transform.rotation = 350_000_000;
    let m = world.spawn(s);
    let mut bottom = EventChannel::new();
    EnemyMotion2DSystem.run(&mut world, &arena(), &Vec::new(), &mut bottom);
    assert_eq!(world.get(m).unwrap().motion.angular_velocity, -2_864_789);
}

#[test]
fn poisoned_mob_loses_health_each_tick() {
    let mut world = World::new();
    let poisoned = Category::Mob(MobComponent {
        mob_type: MobType::Enemy(EnemyType::Pawn),
        collision_damage: 1,
        defense_damage: 3,
        poison: 2,
        target_position: None,
    });
    let m = world.spawn(entity(poisoned, 100 * UNIT, 300 * UNIT, 4 * UNIT, 50));
    let gone = world.spawn(entity(poisoned, 100 * UNIT, -3 * UNIT, 4 * UNIT, 50));
    let straddling = world.spawn(entity(poisoned, 150 * UNIT, 0, 4 * UNIT, 50));
    let dying = world.spawn(entity(poisoned, 50 * UNIT, 300 * UNIT, 4 * UNIT, 1));
    let mut bottom = EventChannel::new();
    let mut notes = Vec::new();
    EnemySystem.run(&mut world, &arena(), 16, &mut bottom, &mut notes);
    let after = world.get(m).unwrap();
    assert_eq!(after.health.value, 48);
    assert_eq!(after.motion.velocity_y, -10);
    assert!(world.get(gone).is_none());
    assert!(world.get(straddling).is_some());
    assert!(world.get(dying).is_none());
    assert_eq!(bottom.len(), 1);
    assert_eq!(bottom.event(0), MobReachedBottomEvent { damage: 3 });
    let pawn = MobType::Enemy(EnemyType::Pawn);
    assert_eq!(
        notes,
        vec![
            Notification::SpawnEffect { effect: EffectType::MobExplosion, x: 50 * UNIT, y: 300 * UNIT },
            Notification::PlayAudio(SoundEffect::Explosion),
            Notification::DropLoot { mob_type: pawn, x: 50 * UNIT, y: 300 * UNIT },
        ]
    );
}

#[test]
fn dead_mobs_are_destroyed_with_effects_and_loot() {
    let mut world = World::new();
    let dead = world.spawn(entity(mob(EnemyType::Drone, 1), 7, 8, 4, -3));
    let alive = world.spawn(entity(mob(EnemyType::Pawn, 1), 0, 0, 4, 30));
    let mut destroyed = EventChannel::new();
    let mut destroyer = MobDestroyedSystem::new();
    destroyer.setup(&destroyed);
    MobBehaviorSystem.run(&mut world, &mut destroyed);
    assert_eq!(destroyed.len(), 1);
    assert_eq!(destroyed.event(0), MobDestroyedEvent { mob: dead });
    assert_eq!(world.get(dead).unwrap().health.value, 0);
    let mut notes = Vec::new();
    destroyer.run(&destroyed, &mut world, &mut notes);
    assert!(world.get(dead).is_none());
    assert!(world.get(alive).is_some());
    let drone = MobType::Enemy(EnemyType::Drone);
    assert_eq!(
        notes,
        vec![
            Notification::PlayAudio(SoundEffect::Explosion),
            Notification::SpawnEffect { effect: EffectType::MobExplosion, x: 7, y: 8 },
            Notification::SpawnEffect { effect: EffectType::Giblets(drone), x: 7, y: 8 },
            Notification::DropLoot { mob_type: drone, x: 7, y: 8 },
        ]
    );
}

#[test]
fn one_tick_runs_every_stage_in_order() {
    let mut world = World::new();
    let mut p = entity(player(5), 100 * UNIT, 100 * UNIT, 10 * UNIT, 100);
    p.motion.velocity_x = 1000;
    let ip = world.spawn(p);
    let im = world.spawn(entity(mob(EnemyType::Pawn, 12), 106 * UNIT, 100 * UNIT, 10 * UNIT, 10));
    let ig = world.spawn(entity(mob(EnemyType::Drone, 1), 200 * UNIT, 2 * UNIT, 10 * UNIT, 10));
    let ctx = SimulationContext { arena: arena(), params: params() };
    let mut defense = HealthComponent { value: 50, max_value: 60 };
    let mut notes = Vec::new();
    tick(&mut world, &ctx, 1000, &Vec::new(), &mut defense, &mut notes);
    let ship = world.get(ip).unwrap();
    assert_eq!(ship.transform.x, 100 * UNIT + 1000);
    assert_eq!(ship.health.value, 88);
    assert_eq!(ship.motion.velocity_x, -1000);
    let pawn_after = world.get(im).unwrap();
    assert_eq!(pawn_after.health.value, 5);
    assert!(world.get(ig).is_none());
    assert_eq!(defense.value, 43);
    assert_eq!(notes, vec![Notification::PlayAudio(SoundEffect::MetalCrash)]);
}

#[test]
fn tick_destroys_mobs_left_without_health() {
    let mut world = World::new();
    let ip = world.spawn(entity(player(50), 100 * UNIT, 100 * UNIT, 10 * UNIT, 100));
    let im = world.spawn(entity(mob(EnemyType::Pawn, 1), 100 * UNIT, 100 * UNIT, 10 * UNIT, 20));
    let ctx = SimulationContext { arena: arena(), params: params() };
    let mut defense = HealthComponent { value: 50, max_value: 60 };
    let mut notes = Vec::new();
    tick(&mut world, &ctx, 16, &Vec::new(), &mut defense, &mut notes);
    assert!(world.get(im).is_none());
    assert_eq!(world.get(ip).unwrap().health.value, 99);
    assert_eq!(defense.value, 50);
    let pawn = MobType::Enemy(EnemyType::Pawn);
    assert_eq!(
        notes,
        vec![
            Notification::PlayAudio(SoundEffect::MetalCrash),
            Notification::PlayAudio(SoundEffect::Explosion),
            Notification::SpawnEffect { effect: EffectType::MobExplosion, x: 100 * UNIT, y: 100 * UNIT },
            Notification::SpawnEffect { effect: EffectType::Giblets(pawn), x: 100 * UNIT, y: 100 * UNIT },
            Notification::DropLoot { mob_type: pawn, x: 100 * UNIT, y: 100 * UNIT },
        ]
    );
}

#[test]
fn tick_leaves_overdamaged_health_at_zero() {
    let mut world = World::new();
    let ip = world.spawn(entity(player(1), 100 * UNIT, 100 * UNIT, 10 * UNIT, 5));
    world.spawn(entity(mob(EnemyType::Pawn, 10), 100 * UNIT, 100 * UNIT, 10 * UNIT, 90));
    world.spawn(entity(mob(EnemyType::Drone, 10), 101 * UNIT, 100 * UNIT, 10 * UNIT, 90));
    let ctx = SimulationContext { arena: arena(), params: params() };
    let mut defense = HealthComponent { value: 50, max_value: 60 };
    let mut notes = Vec::new();
    tick(&mut world, &ctx, 16, &Vec::new(), &mut defense, &mut notes);
    assert_eq!(world.get(ip).unwrap().health.value, 0);
}

#[test]
fn default_resolvers_have_no_reader_yet() {
    let items = PlayerItemCollisionSystem::default();
    assert!(items.event_reader.is_none());
    let defense = DefenseSystem::default();
    assert!(defense.mob_reached_bottom_event_reader.is_none());
}

#[test]
fn empty_world_tick_changes_nothing() {
    let mut world = World::new();
    let ctx = SimulationContext { arena: arena(), params: params() };
    let mut defense = HealthComponent { value: 50, max_value: 60 };
    let mut notes = Vec::new();
    tick(&mut world, &ctx, 16, &Vec::new(), &mut defense, &mut notes);
    assert_eq!(world.len(), 0);
    assert_eq!(defense.value, 50);
    assert!(notes.is_empty());
    let (mobs, players) = detect(&world);
    assert_eq!(mobs.len() + players.len(), 0);
}

#[test]
fn dead_slots_are_ignored_by_every_stage() {
    let mut world = World::new();
    let a = world.spawn(entity(mob(EnemyType::Pawn, 1), 0, 0, 10, 50));
    world.spawn(entity(player(1), 0, 0, 10, 50));
    world.delete(a);
    let (mobs, players) = detect(&world);
    assert_eq!(mobs.len() + players.len(), 0);
    Motion2DSystem.run(&mut world, 16);
    assert!(world.get(a).is_none());
}

#[test]
fn poison_down_to_exactly_zero_is_lethal() {
    let mut world = World::new();
    let poisoned = Category::Mob(MobComponent {
        mob_type: MobType::Enemy(EnemyType::Pawn),
        collision_damage: 1,
        defense_damage: 3,
        poison: 5,
        target_position: None,
    });
    let m = world.spawn(entity(poisoned, 100 * UNIT, 300 * UNIT, 4 * UNIT, 5));
    let mut bottom = EventChannel::new();
    let mut notes = Vec::new();
    EnemySystem.run(&mut world, &arena(), 16, &mut bottom, &mut notes);
    assert!(world.get(m).is_none());
    assert_eq!(notes.len(), 3);
    assert_eq!(notes[1], Notification::PlayAudio(SoundEffect::Explosion));
}

#[test]
fn player_hitting_right_wall_bounces_back() {
    let mut world = World::new();
    let mut ship_entity = entity(player(1), 350 * UNIT, 300 * UNIT, 18 * UNIT, 50);
    ship_entity.motion.velocity_x = 100;
    let ip = world.spawn(ship_entity);
    let wall = BarrierComponent { deflection_x: 50, deflection_y: 0, damage: 0, enemies_pass: true };
    world.spawn(entity(Category::Barrier(wall), 362 * UNIT, 300 * UNIT, 10 * UNIT, 0));
    let mut channel = EventChannel::new();
    let mut resolver = PlayerArenaBorderCollisionSystem::new();
    resolver.setup(&channel);
    let mut mobs = EventChannel::new();
    CollisionDetectionSystem.run(&world, &mut mobs, &mut channel);
    let mut notes = Vec::new();
    resolver.run(&channel, &mut world, &params(), &mut notes);
    let ship = world.get(ip).unwrap();
    assert_eq!((ship.motion.velocity_x, ship.motion.velocity_y), (-100, 0));
}

#[test]
fn player_past_right_edge_bounces_in_the_tick() {
    let mut world = World::new();
    let mut ship_entity = entity(player(1), 359 * UNIT, 300 * UNIT, 18 * UNIT, 50);
    ship_entity.motion.velocity_x = 100;
    ship_entity.motion.velocity_y = -30;
    let ip = world.spawn(ship_entity);
    let ctx = SimulationContext { arena: arena(), params: params() };
    let mut defense = HealthComponent { value: 50, max_value: 60 };
    let mut notes = Vec::new();
    tick(&mut world, &ctx, 16, &Vec::new(), &mut defense, &mut notes);
    let ship = world.get(ip).unwrap();
    assert_eq!((ship.motion.velocity_x, ship.motion.velocity_y), (-100, -30));
}
