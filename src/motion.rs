//! Kinematic state of an entity, the per-tick integrator, the speed clamp,
//! steering primitives and the collision knockbacks.
//!
//! Velocities are in fixed-point steps per second, accelerations in steps
//! per second per tick, and the elapsed time `dt` in milliseconds.
use vstd::prelude::*;
use crate::angle::{wrap_angle, wrap_spec};
use crate::geometry::Transform;
use crate::num::{sat, saturate, sign, tdiv, trunc_div};

verus! {

/// Milliseconds per second.
pub const MS_PER_SECOND: i32 = 1000;

/// How much harder an immovable collider pushes than a movable one.
pub const IMMOVABLE_KNOCKBACK_FACTOR: i32 = 2;

#[derive(Clone, Copy, Debug, PartialEq, Eq, Structural)]
pub struct Motion2DComponent {
    pub velocity_x: i32,
    pub velocity_y: i32,
    pub acceleration_x: i32,
    pub acceleration_y: i32,
    pub deceleration_x: i32,
    pub deceleration_y: i32,
    /// Cruising speed that the steering primitives accelerate toward.
    pub speed_x: i32,
    pub speed_y: i32,
    /// Largest speed along each axis at the end of a tick.
    pub max_speed_x: i32,
    pub max_speed_y: i32,
    pub angular_velocity: i32,
    pub angular_acceleration: i32,
    pub angular_deceleration: i32,
    /// Largest angular speed at the end of a tick.
    pub angular_speed: i32,
    /// An immovable entity receives no knockback.
    pub immovable: bool,
}

/// A barrier's push, and what it costs to touch it. An axis with a nonzero
/// deflection speed is normal to the barrier (a side wall pushes along x);
/// an axis with zero deflection runs along it.
#[derive(Clone, Copy, Debug, PartialEq, Eq, Structural)]
pub struct BarrierComponent {
    pub deflection_x: i32,
    pub deflection_y: i32,
    pub damage: i32,
    /// Mobs go through a barrier that lets enemies pass.
    pub enemies_pass: bool,
}

/// `v` limited to `[-m, m]`, keeping its sign.
pub open spec fn clamp_mag(v: int, m: int) -> int {
    if v > m {
        m
    } else if v < -m {
        -m
    } else {
        v
    }
}

/// `v` moved toward `target` by at most `step`, never past it.
pub open spec fn step_toward(v: int, target: int, step: int) -> int {
    if v < target {
        if v + step < target {
            v + step
        } else {
            target
        }
    } else if v > target {
        if v - step > target {
            v - step
        } else {
            target
        }
    } else {
        v
    }
}

/// Knockback along one axis: the collision velocity, raised in magnitude to
/// at least `k`; zero stays zero.
pub open spec fn knock(c: int, k: int) -> int {
    if c > 0 {
        if c > k {
            c
        } else {
            k
        }
    } else if c < 0 {
        if c < -k {
            c
        } else {
            -k
        }
    } else {
        0
    }
}

/// Position after moving at velocity `v` for `dt` milliseconds.
pub open spec fn advance(p: int, v: int, dt: int) -> int {
    sat(p + tdiv(v * dt, MS_PER_SECOND as int))
}

impl Motion2DComponent {
    /// Rates, cruising speeds and maxima are not negative.
    pub open spec fn wf(self) -> bool {
        &&& self.acceleration_x >= 0
        &&& self.acceleration_y >= 0
        &&& self.deceleration_x >= 0
        &&& self.deceleration_y >= 0
        &&& self.speed_x >= 0
        &&& self.speed_y >= 0
        &&& self.max_speed_x >= 0
        &&& self.max_speed_y >= 0
        &&& self.angular_acceleration >= 0
        &&& self.angular_deceleration >= 0
        &&& self.angular_speed >= 0
    }

    /// The speeds are within their maxima.
    pub open spec fn within_limits(self) -> bool {
        &&& -self.max_speed_x <= self.velocity_x <= self.max_speed_x
        &&& -self.max_speed_y <= self.velocity_y <= self.max_speed_y
        &&& -self.angular_speed <= self.angular_velocity <= self.angular_speed
    }

    pub open spec fn clamped(self) -> Motion2DComponent {
        Motion2DComponent {
            velocity_x: clamp_mag(self.velocity_x as int, self.max_speed_x as int) as i32,
            velocity_y: clamp_mag(self.velocity_y as int, self.max_speed_y as int) as i32,
            angular_velocity: clamp_mag(
                self.angular_velocity as int,
                self.angular_speed as int,
            ) as i32,
            ..self
        }
    }

    pub open spec fn moved_down(self) -> Motion2DComponent {
        let target = -self.speed_y;
        let step = if self.velocity_y > target {
            self.acceleration_y
        } else {
            self.deceleration_y
        };
        Motion2DComponent {
            velocity_y: step_toward(self.velocity_y as int, target, step as int) as i32,
            ..self
        }
    }

    pub open spec fn moved_up(self) -> Motion2DComponent {
        let target = self.speed_y;
        let step = if self.velocity_y < target {
            self.acceleration_y
        } else {
            self.deceleration_y
        };
        Motion2DComponent {
            velocity_y: step_toward(self.velocity_y as int, target as int, step as int) as i32,
            ..self
        }
    }

    pub open spec fn braked_horizontal(self) -> Motion2DComponent {
        Motion2DComponent {
            velocity_x: step_toward(self.velocity_x as int, 0, self.deceleration_x as int) as i32,
            ..self
        }
    }

    pub open spec fn strafed(self) -> Motion2DComponent {
        let v = self.velocity_x as int;
        let magnitude = if v >= 0 {
            v
        } else {
            -v
        };
        let nv = if magnitude < self.speed_x {
            if v >= 0 {
                v + self.acceleration_x
            } else {
                v - self.acceleration_x
            }
        } else if v > 0 {
            v - self.deceleration_x
        } else {
            v + self.deceleration_x
        };
        Motion2DComponent { velocity_x: sat(nv) as i32, ..self }
    }

    /// Clamps linear and angular speed to their maxima, keeping signs.
    pub fn clamp_speed(&mut self)
        requires
            old(self).wf(),
        ensures
            *final(self) == old(self).clamped(),
            final(self).wf(),
            final(self).within_limits(),
    {
        if self.angular_velocity > self.angular_speed {
            self.angular_velocity = self.angular_speed;
        } else if self.angular_velocity < -self.angular_speed {
            self.angular_velocity = -self.angular_speed;
        }
        if self.velocity_x > self.max_speed_x {
            self.velocity_x = self.max_speed_x;
        } else if self.velocity_x < -self.max_speed_x {
            self.velocity_x = -self.max_speed_x;
        }
        if self.velocity_y > self.max_speed_y {
            self.velocity_y = self.max_speed_y;
        } else if self.velocity_y < -self.max_speed_y {
            self.velocity_y = -self.max_speed_y;
        }
    }

    /// Accelerates downward toward the cruising speed.
    pub fn move_down(&mut self)
        requires
            old(self).wf(),
        ensures
            *final(self) == old(self).moved_down(),
            final(self).wf(),
    {
        let target: i32 = -self.speed_y;
        let step: i32 = if self.velocity_y > target {
            self.acceleration_y
        } else {
            self.deceleration_y
        };
        self.velocity_y = approach(self.velocity_y, target, step);
    }

    /// Accelerates upward toward the cruising speed.
    pub fn move_up(&mut self)
        requires
            old(self).wf(),
        ensures
            *final(self) == old(self).moved_up(),
            final(self).wf(),
    {
        let target: i32 = self.speed_y;
        let step: i32 = if self.velocity_y < target {
            self.acceleration_y
        } else {
            self.deceleration_y
        };
        self.velocity_y = approach(self.velocity_y, target, step);
    }

    /// Slows horizontal motion toward a stop.
    pub fn brake_horizontal(&mut self)
        requires
            old(self).wf(),
        ensures
            *final(self) == old(self).braked_horizontal(),
            final(self).wf(),
    {
        self.velocity_x = approach(self.velocity_x, 0, self.deceleration_x);
    }

    /// Side-to-side cruising: speeds up along the current horizontal
    /// direction below the cruising speed, and slows down at or above it.
    pub fn strafe(&mut self)
        ensures
            *final(self) == old(self).strafed(),
    {
        let v: i64 = self.velocity_x as i64;
        let magnitude: i64 = if v >= 0 {
            v
        } else {
            -v
        };
        let nv: i64 = if magnitude < self.speed_x as i64 {
            if v >= 0 {
                v + self.acceleration_x as i64
            } else {
                v - self.acceleration_x as i64
            }
        } else if v > 0 {
            v - self.deceleration_x as i64
        } else {
            v + self.deceleration_x as i64
        };
        self.velocity_x = saturate(nv as i128);
    }
}

/// Moves `v` toward `target` by at most `step`.
pub fn approach(v: i32, target: i32, step: i32) -> (r: i32)
    requires
        step >= 0,
    ensures
        r == step_toward(v as int, target as int, step as int),
{
    let w: i64 = v as i64;
    let t: i64 = target as i64;
    let s: i64 = step as i64;
    if w < t {
        if w + s < t {
            (w + s) as i32
        } else {
            target
        }
    } else if w > t {
        if w - s > t {
            (w - s) as i32
        } else {
            target
        }
    } else {
        v
    }
}

/// The transform after one tick at the entity's current velocities.
pub open spec fn integrated(t: Transform, m: Motion2DComponent, dt: int) -> Transform {
    Transform {
        x: advance(t.x as int, m.velocity_x as int, dt) as i32,
        y: advance(t.y as int, m.velocity_y as int, dt) as i32,
        rotation: wrap_spec(
            t.rotation + tdiv(m.angular_velocity * dt, MS_PER_SECOND as int),
        ) as i32,
        ..t
    }
}

proof fn lemma_travel_bounds(v: int, dt: int)
    requires
        i32::MIN <= v <= i32::MAX,
        0 <= dt <= u32::MAX,
    ensures
        -0x8000_0000_0000_0000 < v * dt < 0x8000_0000_0000_0000,
        -0x8000_0000_0000_0000 < tdiv(v * dt, MS_PER_SECOND as int) < 0x8000_0000_0000_0000,
        -0x0100_0000_0000_0000 < tdiv(v * dt, MS_PER_SECOND as int) < 0x0100_0000_0000_0000,
{
    assert(-0x8000_0000 * 0xffff_ffff <= v * dt <= 0x7fff_ffff * 0xffff_ffff) by (nonlinear_arith)
        requires
            i32::MIN <= v <= i32::MAX,
            0 <= dt <= u32::MAX,
    ;
}

fn advance_axis(p: i32, v: i32, dt: u32) -> (r: i32)
    ensures
        r == advance(p as int, v as int, dt as int),
{
    proof {
        lemma_travel_bounds(v as int, dt as int);
    }
    let d = trunc_div(v as i128 * dt as i128, MS_PER_SECOND as i128);
    saturate(p as i128 + d)
}

/// One integration step: moves and turns the entity by its velocities over
/// `dt` milliseconds, then clamps its speeds.
pub fn integrate(t: &mut Transform, m: &mut Motion2DComponent, dt: u32)
    requires
        old(m).wf(),
    ensures
        *final(t) == integrated(*old(t), *old(m), dt as int),
        *final(m) == old(m).clamped(),
        final(m).wf(),
        final(m).within_limits(),
{
    t.x = advance_axis(t.x, m.velocity_x, dt);
    t.y = advance_axis(t.y, m.velocity_y, dt);
    proof {
        lemma_travel_bounds(m.angular_velocity as int, dt as int);
    }
    let turn = trunc_div(m.angular_velocity as i128 * dt as i128, MS_PER_SECOND as i128);
    t.rotation = wrap_angle((t.rotation as i128 + turn) as i64);
    m.clamp_speed();
}

/// Clamping a second time changes nothing.
pub proof fn lemma_clamp_idempotent(m: Motion2DComponent)
    requires
        m.wf(),
    ensures
        m.clamped().clamped() == m.clamped(),
        m.clamped().within_limits(),
{
}

pub open spec fn standard_knocked(
    m: Motion2DComponent,
    cx: i32,
    cy: i32,
    k: i32,
) -> Motion2DComponent {
    Motion2DComponent {
        velocity_x: knock(cx as int, k as int) as i32,
        velocity_y: knock(cy as int, k as int) as i32,
        ..m
    }
}

pub open spec fn immovable_knocked(
    m: Motion2DComponent,
    cx: i32,
    cy: i32,
    k: i32,
) -> Motion2DComponent {
    Motion2DComponent {
        velocity_x: sat(IMMOVABLE_KNOCKBACK_FACTOR * knock(cx as int, k as int)) as i32,
        velocity_y: sat(IMMOVABLE_KNOCKBACK_FACTOR * knock(cy as int, k as int)) as i32,
        ..m
    }
}

/// The motion after touching barrier `b`, for an entity at `at` and a
/// barrier at `wall`: each component normal to the barrier is deflected
/// away from the barrier's side, the others are unchanged.
pub open spec fn barrier_deflected(
    m: Motion2DComponent,
    b: BarrierComponent,
    at: Transform,
    wall: Transform,
) -> Motion2DComponent {
    Motion2DComponent {
        velocity_x: if b.deflection_x != 0 {
            deflect(m.velocity_x as int, b.deflection_x as int, sign(at.x - wall.x)) as i32
        } else {
            m.velocity_x
        },
        velocity_y: if b.deflection_y != 0 {
            deflect(m.velocity_y as int, b.deflection_y as int, sign(at.y - wall.y)) as i32
        } else {
            m.velocity_y
        },
        ..m
    }
}

fn knock_axis(c: i32, k: i32) -> (r: i32)
    ensures
        r == knock(c as int, k as int),
{
    let c: i64 = c as i64;
    let k: i64 = k as i64;
    if c > 0 {
        if c > k {
            c as i32
        } else {
            k as i32
        }
    } else if c < 0 {
        if c < -k {
            c as i32
        } else {
            (-k) as i32
        }
    } else {
        0
    }
}

/// Two-sided knockback: the entity takes the collision velocity `(cx, cy)`
/// (the other side's velocity relative to it), each nonzero component raised
/// in magnitude to at least `min_knockback`.
pub fn standard_collision(m: &mut Motion2DComponent, cx: i32, cy: i32, min_knockback: i32)
    ensures
        *final(m) == standard_knocked(*old(m), cx, cy, min_knockback),
{
    m.velocity_x = knock_axis(cx, min_knockback);
    m.velocity_y = knock_axis(cy, min_knockback);
}

/// Knockback off an immovable collider: as the two-sided case, scaled by
/// `IMMOVABLE_KNOCKBACK_FACTOR`.
pub fn immovable_collision(m: &mut Motion2DComponent, cx: i32, cy: i32, min_knockback: i32)
    ensures
        *final(m) == immovable_knocked(*old(m), cx, cy, min_knockback),
{
    let kx = knock_axis(cx, min_knockback);
    let ky = knock_axis(cy, min_knockback);
    m.velocity_x = saturate(IMMOVABLE_KNOCKBACK_FACTOR as i128 * kx as i128);
    m.velocity_y = saturate(IMMOVABLE_KNOCKBACK_FACTOR as i128 * ky as i128);
}

pub open spec fn abs(v: int) -> int {
    if v < 0 {
        -v
    } else {
        v
    }
}

/// A velocity component normal to a barrier after the push: on the side
/// `away` of the barrier (1 or -1) it points away from the barrier at the
/// larger of its own speed and the deflection speed `d`; when the entity
/// is centered on the barrier (`away == 0`) it is reflected.
pub open spec fn deflect(v: int, d: int, away: int) -> int {
    let speed = if abs(v) > abs(d) {
        abs(v)
    } else {
        abs(d)
    };
    if away > 0 {
        sat(speed)
    } else if away < 0 {
        sat(-speed)
    } else {
        sat(-v)
    }
}

fn deflect_axis(v: i32, d: i32, away: i64) -> (r: i32)
    ensures
        r == deflect(v as int, d as int, sign(away as int)),
{
    let v: i128 = v as i128;
    let d: i128 = d as i128;
    let av: i128 = if v < 0 {
        -v
    } else {
        v
    };
    let ad: i128 = if d < 0 {
        -d
    } else {
        d
    };
    let speed: i128 = if av > ad {
        av
    } else {
        ad
    };
    if away > 0 {
        saturate(speed)
    } else if away < 0 {
        saturate(-speed)
    } else {
        saturate(-v)
    }
}

/// Deflection off a barrier at `wall` for an entity at `at`: each component
/// normal to the barrier is pushed away from it, at no less than its own
/// speed and the barrier's deflection speed; the others are unchanged.
pub fn barrier_collision(
    m: &mut Motion2DComponent,
    b: &BarrierComponent,
    at: &Transform,
    wall: &Transform,
)
    ensures
        *final(m) == barrier_deflected(*old(m), *b, *at, *wall),
{
    if b.deflection_x != 0 {
        m.velocity_x = deflect_axis(m.velocity_x, b.deflection_x, at.x as i64 - wall.x as i64);
    }
    if b.deflection_y != 0 {
        m.velocity_y = deflect_axis(m.velocity_y, b.deflection_y, at.y as i64 - wall.y as i64);
    }
}

/// Touching a side barrier (pushing along x only) no longer moves an entity
/// toward it, and leaves its vertical velocity unchanged; an entity moving
/// into it at least as fast as the deflection speed is reflected exactly.
pub proof fn lemma_side_barrier_reflects(
    m: Motion2DComponent,
    b: BarrierComponent,
    at: Transform,
    wall: Transform,
)
    requires
        b.deflection_x != 0,
        b.deflection_y == 0,
        at.x != wall.x,
    ensures
        barrier_deflected(m, b, at, wall).velocity_y == m.velocity_y,
        at.x < wall.x ==> barrier_deflected(m, b, at, wall).velocity_x <= 0,
        at.x > wall.x ==> barrier_deflected(m, b, at, wall).velocity_x >= 0,
        at.x < wall.x && m.velocity_x >= abs(b.deflection_x as int) ==> barrier_deflected(
            m,
            b,
            at,
            wall,
        ).velocity_x == -m.velocity_x,
        at.x > wall.x && m.velocity_x > i32::MIN && -m.velocity_x >= abs(b.deflection_x as int) ==> barrier_deflected(
            m,
            b,
            at,
            wall,
        ).velocity_x == -m.velocity_x,
{
}

proof fn lemma_square_floor(v: int, w: int, k: int)
    requires
        k >= 0,
    ensures
        (v >= k || v <= -k) ==> v * v + w * w >= k * k,
{
    if v >= k || v <= -k {
        assert(v * v >= k * k) by (nonlinear_arith)
            requires
                v >= k || v <= -k,
                k >= 0,
        ;
        assert(w * w >= 0) by (nonlinear_arith);
    }
}

pub open spec fn speed_sq(m: Motion2DComponent) -> int {
    m.velocity_x * m.velocity_x + m.velocity_y * m.velocity_y
}

/// After a two-sided collision with a nonzero relative velocity, each side
/// moves at least at the minimum knockback speed, each along the collision
/// velocity it was handed, and the two sides move apart.
pub proof fn lemma_standard_knockback_floor(
    a: Motion2DComponent,
    b: Motion2DComponent,
    cx: i32,
    cy: i32,
    k: i32,
)
    requires
        k >= 0,
        cx != 0 || cy != 0,
        cx > i32::MIN,
        cy > i32::MIN,
    ensures
        speed_sq(standard_knocked(a, cx, cy, k)) >= k * k,
        speed_sq(standard_knocked(b, (-cx) as i32, (-cy) as i32, k)) >= k * k,
        sign(standard_knocked(a, cx, cy, k).velocity_x as int) == sign(cx as int),
        sign(standard_knocked(a, cx, cy, k).velocity_y as int) == sign(cy as int),
        sign(standard_knocked(b, (-cx) as i32, (-cy) as i32, k).velocity_x as int) == -sign(
            cx as int,
        ),
        sign(standard_knocked(b, (-cx) as i32, (-cy) as i32, k).velocity_y as int) == -sign(
            cy as int,
        ),
{
    let a2 = standard_knocked(a, cx, cy, k);
    let b2 = standard_knocked(b, (-cx) as i32, (-cy) as i32, k);
    let ki = k as int;
    lemma_square_floor(a2.velocity_x as int, a2.velocity_y as int, ki);
    lemma_square_floor(a2.velocity_y as int, a2.velocity_x as int, ki);
    lemma_square_floor(b2.velocity_x as int, b2.velocity_y as int, ki);
    lemma_square_floor(b2.velocity_y as int, b2.velocity_x as int, ki);
    if cx != 0 {
        assert(a2.velocity_x >= ki || a2.velocity_x <= -ki);
        assert(b2.velocity_x >= ki || b2.velocity_x <= -ki);
        assert(speed_sq(a2) == a2.velocity_x * a2.velocity_x + a2.velocity_y * a2.velocity_y);
        assert(speed_sq(b2) == b2.velocity_x * b2.velocity_x + b2.velocity_y * b2.velocity_y);
    } else {
        assert(a2.velocity_y >= ki || a2.velocity_y <= -ki);
        assert(b2.velocity_y >= ki || b2.velocity_y <= -ki);
        assert(speed_sq(a2) == a2.velocity_y * a2.velocity_y + a2.velocity_x * a2.velocity_x);
        assert(speed_sq(b2) == b2.velocity_y * b2.velocity_y + b2.velocity_x * b2.velocity_x);
    }
}

} // verus!
