use thetawave::arena::{constrain_to_arena, ArenaBounds};
use thetawave::geometry::{hitbox_collide, Hitbox2DComponent, Transform, UNIT};
use thetawave::health::{apply_damage_and_constrain, HealthComponent};
use thetawave::motion::{
    barrier_collision, immovable_collision, integrate, standard_collision, BarrierComponent,
    Motion2DComponent,
};

fn at(x: i32, y: i32) -> Transform {
    Transform { x, y, rotation: 0, scale: 1000 }
}

fn square(side: i32) -> Hitbox2DComponent {
    Hitbox2DComponent { width: side, height: side, offset_x: 0, offset_y: 0, offset_rotation: 0 }
}

fn motion(vx: i32, vy: i32, max: i32) -> Motion2DComponent {
    Motion2DComponent {
        velocity_x: vx,
        velocity_y: vy,
        acceleration_x: 10,
        acceleration_y: 10,
        deceleration_x: 5,
        deceleration_y: 5,
        speed_x: 100,
        speed_y: 100,
        max_speed_x: max,
        max_speed_y: max,
        angular_velocity: 0,
        angular_acceleration: 0,
        angular_deceleration: 0,
        angular_speed: 1000,
        immovable: false,
    }
}

#[test]
fn boxes_half_overlapping_on_x_collide() {
    let a = at(0, 0);
    let b = at(5 * UNIT, 0);
    assert!(hitbox_collide(&a, &square(10 * UNIT), &b, &square(10 * UNIT)));
}

#[test]
fn boxes_that_only_touch_do_not_collide() {
    let a = at(0, 0);
    let b = at(10 * UNIT, 0);
    assert!(!hitbox_collide(&a, &square(10 * UNIT), &b, &square(10 * UNIT)));
}

#[test]
fn overlap_uses_local_offsets() {
    let a = at(0, 0);
    let b = at(18, 0);
    let shifted = Hitbox2DComponent { width: 10, height: 10, offset_x: 10, offset_y: 0, offset_rotation: 0 };
    assert!(hitbox_collide(&a, &shifted, &b, &square(10)));
    assert!(!hitbox_collide(&a, &square(10), &b, &square(10)));
}

#[test]
fn overlap_ignores_offset_rotation() {
    let a = at(0, 0);
    let b = at(9, 0);
    let turned = Hitbox2DComponent { width: 10, height: 2, offset_x: 0, offset_y: 0, offset_rotation: 90_000_000 };
    assert!(hitbox_collide(&a, &turned, &b, &square(10)));
}

#[test]
fn overlap_is_symmetric_on_samples() {
    let samples = [
        (at(0, 0), square(10), at(5, 0), square(10)),
        (at(0, 0), square(10), at(10, 0), square(10)),
        (at(-7, 3), square(4), at(-5, 5), square(1)),
        (at(100, 100), square(30), at(80, 120), square(6)),
        (at(0, 0), square(0), at(0, 0), square(0)),
    ];
    for (ta, ha, tb, hb) in samples.iter() {
        assert_eq!(hitbox_collide(ta, ha, tb, hb), hitbox_collide(tb, hb, ta, ha));
    }
}

#[test]
fn integration_moves_by_velocity_times_dt() {
    let mut t = at(0, 0);
    let mut m = motion(2000, -500, 10_000);
    integrate(&mut t, &mut m, 16);
    assert_eq!(t.x, 32);
    assert_eq!(t.y, -8);
}

#[test]
fn integration_turns_and_wraps_rotation() {
    let mut t = Transform { x: 0, y: 0, rotation: 359_000_000, scale: 1000 };
    let mut m = motion(0, 0, 100);
    m.angular_velocity = 500_000;
    m.angular_speed = 100_000_000;
    integrate(&mut t, &mut m, 2000);
    assert_eq!(t.rotation, 0);
    m.angular_velocity = -500_000;
    integrate(&mut t, &mut m, 1000);
    assert_eq!(t.rotation, 359_500_000);
}

#[test]
fn integration_clamps_speed_after_moving() {
    let mut t = at(0, 0);
    let mut m = motion(300, -400, 100);
    m.angular_velocity = -5000;
    integrate(&mut t, &mut m, 1000);
    assert_eq!(t.x, 300);
    assert_eq!(t.y, -400);
    assert_eq!(m.velocity_x, 100);
    assert_eq!(m.velocity_y, -100);
    assert_eq!(m.angular_velocity, -1000);
}

#[test]
fn clamping_twice_equals_clamping_once() {
    let mut once = motion(250, -900, 200);
    once.angular_velocity = 4000;
    once.clamp_speed();
    let mut twice = once;
    twice.clamp_speed();
    assert_eq!(once, twice);
    assert_eq!(once.velocity_x, 200);
    assert_eq!(once.velocity_y, -200);
}

#[test]
fn standard_knockback_has_minimum_speed() {
    let mut a = motion(0, 0, 1000);
    let mut b = motion(0, 0, 1000);
    standard_collision(&mut a, 3, 0, 50);
    standard_collision(&mut b, -3, 0, 50);
    assert_eq!((a.velocity_x, a.velocity_y), (50, 0));
    assert_eq!((b.velocity_x, b.velocity_y), (-50, 0));
}

#[test]
fn standard_knockback_keeps_large_velocity() {
    let mut a = motion(0, 0, 1000);
    standard_collision(&mut a, 120, -7, 50);
    assert_eq!((a.velocity_x, a.velocity_y), (120, -50));
}

#[test]
fn knockback_without_relative_velocity_is_zero() {
    let mut a = motion(33, 44, 1000);
    standard_collision(&mut a, 0, 0, 50);
    assert_eq!((a.velocity_x, a.velocity_y), (0, 0));
}

#[test]
fn immovable_knockback_is_twice_as_strong() {
    let mut a = motion(0, 0, 1000);
    immovable_collision(&mut a, -10, 80, 50);
    assert_eq!((a.velocity_x, a.velocity_y), (-100, 160));
}

#[test]
fn side_barrier_reflects_only_the_normal_component() {
    let barrier = BarrierComponent { deflection_x: 40, deflection_y: 0, damage: 3, enemies_pass: false };
    let mut a = motion(70, -20, 1000);
    barrier_collision(&mut a, &barrier, &at(0, 0), &at(10, 0));
    assert_eq!((a.velocity_x, a.velocity_y), (-70, -20));
    let mut slow = motion(5, 9, 1000);
    barrier_collision(&mut slow, &barrier, &at(0, 0), &at(10, 0));
    assert_eq!((slow.velocity_x, slow.velocity_y), (-40, 9));
    let mut leaving = motion(-15, 0, 1000);
    barrier_collision(&mut leaving, &barrier, &at(0, 0), &at(10, 0));
    assert_eq!((leaving.velocity_x, leaving.velocity_y), (-40, 0));
}

#[test]
fn negative_deflection_still_pushes_away() {
    let barrier = BarrierComponent { deflection_x: -40, deflection_y: 0, damage: 3, enemies_pass: false };
    let mut a = motion(-10, 3, 1000);
    barrier_collision(&mut a, &barrier, &at(20, 0), &at(10, 0));
    assert_eq!((a.velocity_x, a.velocity_y), (40, 3));
}

#[test]
fn floor_barrier_pushes_along_y() {
    let barrier = BarrierComponent { deflection_x: 0, deflection_y: 25, damage: 0, enemies_pass: false };
    let mut a = motion(7, -60, 1000);
    barrier_collision(&mut a, &barrier, &at(0, 10), &at(0, 0));
    assert_eq!((a.velocity_x, a.velocity_y), (7, 60));
}

#[test]
fn steering_primitives_approach_cruising_speed() {
    let mut m = motion(3, -95, 1000);
    m.move_down();
    assert_eq!(m.velocity_y, -100);
    m.move_down();
    assert_eq!(m.velocity_y, -100);
    m.brake_horizontal();
    assert_eq!(m.velocity_x, 0);
    m.move_up();
    assert_eq!(m.velocity_y, -90);
}

#[test]
fn strafing_speeds_up_then_slows_down() {
    let mut m = motion(-95, 0, 1000);
    m.strafe();
    assert_eq!(m.velocity_x, -105);
    m.strafe();
    assert_eq!(m.velocity_x, -100);
}

fn arena() -> ArenaBounds {
    ArenaBounds { min_x: 0, max_x: 360 * UNIT, min_y: 0, height: 600 * UNIT }
}

#[test]
fn right_edge_reverses_horizontal_velocity() {
    let t = at(360 * UNIT, 300 * UNIT);
    let h = square(18 * UNIT);
    let mut m = motion(100, 0, 1000);
    let bottom = constrain_to_arena(&t, &h, &mut m, &arena());
    assert!(!bottom);
    assert_eq!((m.velocity_x, m.velocity_y), (-100, 0));
}

#[test]
fn left_edge_reverses_and_keeps_vertical_velocity() {
    let t = at(2 * UNIT, 300 * UNIT);
    let h = square(18 * UNIT);
    let mut m = motion(-40, -30, 1000);
    constrain_to_arena(&t, &h, &mut m, &arena());
    assert_eq!((m.velocity_x, m.velocity_y), (40, -30));
}

#[test]
fn inside_the_arena_nothing_changes() {
    let t = at(100 * UNIT, 300 * UNIT);
    let mut m = motion(-40, -30, 1000);
    let bottom = constrain_to_arena(&t, &square(18 * UNIT), &mut m, &arena());
    assert!(!bottom);
    assert_eq!((m.velocity_x, m.velocity_y), (-40, -30));
}

#[test]
fn below_the_bottom_is_reported() {
    let t = at(100 * UNIT, 5 * UNIT);
    let mut m = motion(0, -30, 1000);
    assert!(constrain_to_arena(&t, &square(18 * UNIT), &mut m, &arena()));
}

#[test]
fn two_hits_in_a_tick_leave_health_at_zero() {
    let mut h = HealthComponent { value: 5, max_value: 100 };
    h.take_damage(10);
    h.take_damage(10);
    assert_eq!(h.value, -15);
    h.constrain();
    assert_eq!(h.value, 0);
}

#[test]
fn constrain_caps_at_max() {
    let mut h = HealthComponent { value: 90, max_value: 100 };
    apply_damage_and_constrain(&mut h, &vec![-30, 5]);
    assert_eq!(h.value, 100);
}

#[test]
fn damage_sequence_is_applied_in_order() {
    let mut h = HealthComponent { value: 50, max_value: 100 };
    apply_damage_and_constrain(&mut h, &vec![10, 15, 5]);
    assert_eq!(h.value, 20);
    let mut g = HealthComponent { value: 5, max_value: 100 };
    apply_damage_and_constrain(&mut g, &vec![10, 10]);
    assert_eq!(g.value, 0);
}

#[test]
fn damage_saturates_instead_of_wrapping() {
    let mut h = HealthComponent { value: i32::MIN + 1, max_value: 10 };
    h.take_damage(i32::MAX);
    assert_eq!(h.value, i32::MIN);
    h.constrain();
    assert_eq!(h.value, 0);
}

#[test]
fn integration_saturates_at_the_edge_of_the_range() {
    let mut t = at(i32::MAX - 10, i32::MIN + 10);
    let mut m = motion(i32::MAX, i32::MIN, i32::MAX);
    integrate(&mut t, &mut m, u32::MAX);
    assert_eq!(t.x, i32::MAX);
    assert_eq!(t.y, i32::MIN);
    assert_eq!(m.velocity_y, -i32::MAX);
}

#[test]
fn immovable_knockback_saturates() {
    let mut a = motion(0, 0, 1000);
    immovable_collision(&mut a, i32::MAX, i32::MIN, 0);
    assert_eq!((a.velocity_x, a.velocity_y), (i32::MAX, i32::MIN));
}
