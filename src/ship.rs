use vstd::arithmetic::div_mod::lemma_fundamental_div_mod_converse;
use vstd::prelude::*;

use crate::aabb::AABB;
use crate::heading::{
    heading, heading_of, lemma_heading_unit_length, lemma_wrap_in_range, norm_squared, step_of, wrap,
    wrap_angle,
    HEADING_SCALE, HEADING_TOLERANCE, QUARTER_TURN, TWO_PI,
};
use crate::Vector2;

verus! {

/// Lengths are held in pico-units: one world unit is this many.
pub const POSITION_SCALE: i128 = 1_000_000_000_000;

/// Half the side of the ship's bounding box: 128 world units.
pub const SHIP_HALF_EXTENT: i128 = 128 * 1_000_000_000_000;

/// Velocity gained per second of thrust, in world units per second, for a
/// heading vector of unit length.
pub const THRUST: i64 = 100;

/// Angular rate gained per second of turning, in radians per second.
pub const ROTATION_STEP: i64 = 1;

/// The angle the ship faces when it is made: -pi / 2, up the screen.
pub const INITIAL_ALIGNMENT: i64 = -QUARTER_TURN;

/// `v` can be held in an `i64`.
pub open spec fn fits_i64(v: int) -> bool {
    i64::MIN <= v <= i64::MAX
}

/// `v` can be held in an `i128`.
pub open spec fn fits_i128(v: int) -> bool {
    i128::MIN <= v <= i128::MAX
}

/// A heading of machine integers, read as mathematical integers.
pub open spec fn as_int(v: Vector2<i64>) -> Vector2<int> {
    Vector2 { x: v.x as int, y: v.y as int }
}

/// A position or velocity of machine integers, read as mathematical integers.
pub open spec fn wide_as_int(v: Vector2<i128>) -> Vector2<int> {
    Vector2 { x: v.x as int, y: v.y as int }
}

/// Componentwise sum.
pub open spec fn plus(a: Vector2<int>, b: Vector2<int>) -> Vector2<int> {
    Vector2 { x: a.x + b.x, y: a.y + b.y }
}

/// Both components multiplied by `k`.
pub open spec fn scale(a: Vector2<int>, k: int) -> Vector2<int> {
    Vector2 { x: a.x * k, y: a.y * k }
}

/// Scalar product.
pub open spec fn dot(a: Vector2<int>, b: Vector2<int>) -> int {
    a.x * b.x + a.y * b.y
}

/// The change of velocity, in nano-units per second, that thrust along `dir`
/// (in millionths) for `delta_ms` milliseconds gives.
pub open spec fn thrust(dir: Vector2<int>, delta_ms: int) -> Vector2<int> {
    scale(dir, THRUST * delta_ms)
}

/// The direction a quarter turn to the left of `a` (screen coordinates, y down).
pub open spec fn left_of(a: Vector2<int>) -> Vector2<int> {
    Vector2 { x: a.y, y: -a.x }
}

/// The opposite direction.
pub open spec fn negate(a: Vector2<int>) -> Vector2<int> {
    Vector2 { x: -a.x, y: -a.y }
}

/// The velocity after `n` forward thrusts of `delta_ms` milliseconds each along
/// `dir`, starting from `v`, with nothing in between that slows the ship.
pub open spec fn forward_thrusts(v: Vector2<int>, dir: Vector2<int>, delta_ms: int, n: nat) -> Vector2<
    int,
>
    decreases n,
{
    if n == 0 {
        v
    } else {
        plus(forward_thrusts(v, dir, delta_ms, (n - 1) as nat), thrust(dir, delta_ms))
    }
}

/// Velocity is never damped: each forward thrust adds the same amount to the
/// velocity's component along the heading, so that component never falls from
/// one tick to the next, and a ship at rest is moving after `n` ticks at `n`
/// times the velocity of one thrust.
pub proof fn lemma_thrust_accumulates(v: Vector2<int>, dir: Vector2<int>, delta_ms: int, n: nat)
    requires
        delta_ms >= 0,
    ensures
        dot(forward_thrusts(v, dir, delta_ms, n), dir) == dot(v, dir) + n * (THRUST * delta_ms) * dot(
            dir,
            dir,
        ),
        dot(forward_thrusts(v, dir, delta_ms, n), dir) <= dot(
            forward_thrusts(v, dir, delta_ms, n + 1),
            dir,
        ),
        v.x == 0 && v.y == 0 ==> forward_thrusts(v, dir, delta_ms, n) == scale(
            dir,
            n * (THRUST * delta_ms),
        ),
    decreases n,
{
    let k = THRUST * delta_ms;
    let dd = dot(dir, dir);
    assert(dd >= 0) by (nonlinear_arith)
        requires
            dd == dir.x * dir.x + dir.y * dir.y,
    ;
    if n > 0 {
        lemma_thrust_accumulates(v, dir, delta_ms, (n - 1) as nat);
        let prev = forward_thrusts(v, dir, delta_ms, (n - 1) as nat);
        let m = (n - 1) as int;
        assert(dot(plus(prev, thrust(dir, delta_ms)), dir) == dot(prev, dir) + k * dd)
            by (nonlinear_arith)
            requires
                k == THRUST * delta_ms,
                dd == dir.x * dir.x + dir.y * dir.y,
        ;
        assert(dot(v, dir) + m * k * dd + k * dd == dot(v, dir) + n * k * dd) by (nonlinear_arith)
            requires
                m == n - 1,
        ;
        if v.x == 0 && v.y == 0 {
            assert(prev == scale(dir, m * k));
            assert(m * k + k == n * k) by (nonlinear_arith)
                requires
                    m == n - 1,
            ;
            assert(prev.x + dir.x * k == dir.x * (n * k)) by (nonlinear_arith)
                requires
                    prev.x == dir.x * (m * k),
                    m * k + k == n * k,
            ;
            assert(prev.y + dir.y * k == dir.y * (n * k)) by (nonlinear_arith)
                requires
                    prev.y == dir.y * (m * k),
                    m * k + k == n * k,
            ;
        }
    }
    let next = forward_thrusts(v, dir, delta_ms, n + 1);
    assert(dot(next, dir) == dot(forward_thrusts(v, dir, delta_ms, n), dir) + k * dd)
        by (nonlinear_arith)
        requires
            next == plus(forward_thrusts(v, dir, delta_ms, n), thrust(dir, delta_ms)),
            k == THRUST * delta_ms,
            dd == dir.x * dir.x + dir.y * dir.y,
    ;
    assert(k * dd >= 0) by (nonlinear_arith)
        requires
            k >= 0,
            dd >= 0,
    ;
}

/// Each `move_forward` extends a run of forward thrusts by one: a ship whose
/// velocity is that of `n` thrusts from `v` along its heading has, after the
/// call, the velocity of `n + 1` such thrusts. A run of calls with the heading
/// unchanged therefore follows `forward_thrusts`, and what
/// `lemma_thrust_accumulates` states of it.
pub proof fn lemma_forward_thrust_chain(
    before: Spaceship,
    after: Spaceship,
    v: Vector2<int>,
    delta_ms: u32,
    n: nat,
)
    requires
        wide_as_int(before.velocity) == forward_thrusts(v, as_int(before.alignment), delta_ms as int, n),
        wide_as_int(after.velocity) == plus(
            wide_as_int(before.velocity),
            thrust(as_int(before.alignment), delta_ms as int),
        ),
        after == (Spaceship { velocity: after.velocity, ..before }),
    ensures
        after.alignment == before.alignment,
        wide_as_int(after.velocity) == forward_thrusts(
            v,
            as_int(after.alignment),
            delta_ms as int,
            n + 1,
        ),
{
    assert(((n + 1) as nat - 1) as nat == n);
}

/// A heading component times a scaled time step stays far inside `i128`.
proof fn lemma_product_bound(a: int, b: int)
    requires
        -0x8000_0000_0000_0000 <= a <= 0x8000_0000_0000_0000,
        0 <= b <= 100 * u32::MAX,
    ensures
        -0x4000_0000_0000_0000_0000_0000_0000 < a * b < 0x4000_0000_0000_0000_0000_0000_0000,
{
    assert(-0x8000_0000_0000_0000 * 100 * u32::MAX <= a * b <= 0x8000_0000_0000_0000 * 100
        * u32::MAX) by (nonlinear_arith)
        requires
            -0x8000_0000_0000_0000 <= a <= 0x8000_0000_0000_0000,
            0 <= b <= 100 * u32::MAX,
    ;
}

/// Whether `lo <= a + b <= hi`, where `lo` is negative and `hi` positive.
fn sum_within(a: i128, b: i128, lo: i128, hi: i128) -> (r: bool)
    requires
        lo < 0 < hi,
    ensures
        r == (lo <= a + b <= hi),
{
    if b >= 0 {
        a <= hi - b && a + b >= lo
    } else {
        a >= lo - b && a + b <= hi
    }
}

/// The player's ship.
///
/// Units: position in pico-units, velocity in nano-units per second, the
/// orientation `alignment_rad` in micro-radians, the angular rate `rotation` in
/// milli-radians per second, and the heading vector `alignment` in millionths.
#[derive(Clone, Copy, Debug, PartialEq, Eq)]
pub struct Spaceship {
    pub position: Vector2<i128>,
    pub alignment_rad: i64,
    pub alignment: Vector2<i64>,
    pub rotation: i64,
    pub velocity: Vector2<i128>,
    pub texture_id: usize,
    pub aabb: AABB,
}

impl Spaceship {
    /// The orientation lies within one turn either side of zero, the heading
    /// vector belongs to it, and the bounding box surrounds the position.
    pub open spec fn wf(&self) -> bool {
        &&& -TWO_PI < self.alignment_rad < TWO_PI
        &&& as_int(self.alignment) == heading_of(self.alignment_rad as int)
        &&& self.aabb.is_around(self.position, SHIP_HALF_EXTENT as int)
    }

    /// Adding `dv` to the velocity stays within the machine's integers.
    pub open spec fn velocity_fits(&self, dv: Vector2<int>) -> bool {
        fits_i128(self.velocity.x + dv.x) && fits_i128(self.velocity.y + dv.y)
    }

    /// Thrust in any of the four directions for `delta_ms` milliseconds keeps the
    /// velocity within the machine's integers.
    pub open spec fn thrust_fits(&self, delta_ms: int) -> bool {
        let a = as_int(self.alignment);
        &&& self.velocity_fits(thrust(a, delta_ms))
        &&& self.velocity_fits(thrust(negate(a), delta_ms))
        &&& self.velocity_fits(thrust(left_of(a), delta_ms))
        &&& self.velocity_fits(thrust(negate(left_of(a)), delta_ms))
    }

    /// Turning either way for `delta_ms` milliseconds keeps the angular rate
    /// within the machine's integers.
    pub open spec fn turn_fits(&self, delta_ms: int) -> bool {
        fits_i64(self.rotation - ROTATION_STEP * delta_ms) && fits_i64(
            self.rotation + ROTATION_STEP * delta_ms,
        )
    }

    /// The distance covered in `delta_ms` milliseconds at the current velocity.
    pub open spec fn displacement(&self, delta_ms: int) -> Vector2<int> {
        scale(wide_as_int(self.velocity), delta_ms)
    }

    /// The position after `delta_ms` milliseconds at the current velocity.
    pub open spec fn next_position(&self, delta_ms: int) -> Vector2<int> {
        plus(wide_as_int(self.position), self.displacement(delta_ms))
    }

    /// The distance covered, the next position and its bounding box stay within
    /// the machine's integers.
    pub open spec fn update_fits(&self, delta_ms: int) -> bool {
        let d = self.displacement(delta_ms);
        let p = self.next_position(delta_ms);
        &&& fits_i128(d.x) && fits_i128(d.y)
        &&& i128::MIN + SHIP_HALF_EXTENT <= p.x <= i128::MAX - SHIP_HALF_EXTENT
        &&& i128::MIN + SHIP_HALF_EXTENT <= p.y <= i128::MAX - SHIP_HALF_EXTENT
    }

    /// A ship at rest at world coordinates `(position_x, position_y)`, facing up.
    pub fn new(position_x: i32, position_y: i32, texture_id: usize) -> (r: Self)
        ensures
            r.position.x == position_x * POSITION_SCALE,
            r.position.y == position_y * POSITION_SCALE,
            r.alignment_rad == INITIAL_ALIGNMENT,
            r.alignment.x == 0,
            r.alignment.y == -HEADING_SCALE,
            r.rotation == 0,
            r.velocity.x == 0,
            r.velocity.y == 0,
            r.texture_id == texture_id,
            r.wf(),
    {
        let position = Vector2::new(
            position_x as i128 * POSITION_SCALE,
            position_y as i128 * POSITION_SCALE,
        );
        let alignment_rad = INITIAL_ALIGNMENT;
        let facing = wrap(alignment_rad as i128);
        proof {
            lemma_fundamental_div_mod_converse(INITIAL_ALIGNMENT as int, TWO_PI as int, -1, 4_712_389);
            lemma_fundamental_div_mod_converse(
                7200 * 4_712_389 + TWO_PI,
                2 * TWO_PI,
                2700,
                6_284_985,
            );
            assert(step_of(facing as int) == 2700);
            lemma_wrap_in_range(facing as int);
        }
        Self {
            position,
            alignment_rad,
            alignment: heading(facing),
            rotation: 0,
            velocity: Vector2::new(0, 0),
            texture_id,
            aabb: AABB::around(position, SHIP_HALF_EXTENT),
        }
    }

    /// Adds to the velocity the thrust along `(dx, dy)` for `delta_ms`.
    fn accelerate(&mut self, dx: i128, dy: i128, delta_ms: u32)
        requires
            -0x8000_0000_0000_0000 <= dx <= 0x8000_0000_0000_0000,
            -0x8000_0000_0000_0000 <= dy <= 0x8000_0000_0000_0000,
            old(self).velocity_fits(thrust(Vector2 { x: dx as int, y: dy as int }, delta_ms as int)),
        ensures
            wide_as_int(final(self).velocity) == plus(
                wide_as_int(old(self).velocity),
                thrust(Vector2 { x: dx as int, y: dy as int }, delta_ms as int),
            ),
            *final(self) == (Spaceship { velocity: final(self).velocity, ..*old(self) }),
    {
        let k = THRUST as i128 * delta_ms as i128;
        proof {
            assert(k == 100 * delta_ms);
            lemma_product_bound(dx as int, k as int);
            lemma_product_bound(dy as int, k as int);
        }
        self.velocity.x = self.velocity.x + dx * k;
        self.velocity.y = self.velocity.y + dy * k;
    }

    /// Thrust along the heading for `delta_ms` milliseconds.
    pub fn move_forward(&mut self, delta_ms: u32)
        requires
            old(self).velocity_fits(thrust(as_int(old(self).alignment), delta_ms as int)),
        ensures
            wide_as_int(final(self).velocity) == plus(
                wide_as_int(old(self).velocity),
                thrust(as_int(old(self).alignment), delta_ms as int),
            ),
            *final(self) == (Spaceship { velocity: final(self).velocity, ..*old(self) }),
    {
        let a = self.alignment;
        self.accelerate(a.x as i128, a.y as i128, delta_ms);
    }

    /// Thrust against the heading for `delta_ms` milliseconds.
    pub fn move_backward(&mut self, delta_ms: u32)
        requires
            old(self).velocity_fits(thrust(negate(as_int(old(self).alignment)), delta_ms as int)),
        ensures
            wide_as_int(final(self).velocity) == plus(
                wide_as_int(old(self).velocity),
                thrust(negate(as_int(old(self).alignment)), delta_ms as int),
            ),
            *final(self) == (Spaceship { velocity: final(self).velocity, ..*old(self) }),
    {
        let a = self.alignment;
        self.accelerate(-(a.x as i128), -(a.y as i128), delta_ms);
    }

    /// Strafe to the left of the heading for `delta_ms` milliseconds.
    pub fn move_left(&mut self, delta_ms: u32)
        requires
            old(self).velocity_fits(thrust(left_of(as_int(old(self).alignment)), delta_ms as int)),
        ensures
            wide_as_int(final(self).velocity) == plus(
                wide_as_int(old(self).velocity),
                thrust(left_of(as_int(old(self).alignment)), delta_ms as int),
            ),
            *final(self) == (Spaceship { velocity: final(self).velocity, ..*old(self) }),
    {
        let a = self.alignment;
        self.accelerate(a.y as i128, -(a.x as i128), delta_ms);
    }

    /// Strafe to the right of the heading for `delta_ms` milliseconds.
    pub fn move_right(&mut self, delta_ms: u32)
        requires
            old(self).velocity_fits(
                thrust(negate(left_of(as_int(old(self).alignment))), delta_ms as int),
            ),
        ensures
            wide_as_int(final(self).velocity) == plus(
                wide_as_int(old(self).velocity),
                thrust(negate(left_of(as_int(old(self).alignment))), delta_ms as int),
            ),
            *final(self) == (Spaceship { velocity: final(self).velocity, ..*old(self) }),
    {
        let a = self.alignment;
        self.accelerate(-(a.y as i128), a.x as i128, delta_ms);
    }

    /// Turn counter-clockwise on screen: the angular rate drops by
    /// `ROTATION_STEP` radians per second for each second of `delta_ms`.
    pub fn rotate_left(&mut self, delta_ms: u32)
        requires
            fits_i64(old(self).rotation - ROTATION_STEP * delta_ms),
        ensures
            final(self).rotation == old(self).rotation - ROTATION_STEP * delta_ms,
            *final(self) == (Spaceship { rotation: final(self).rotation, ..*old(self) }),
    {
        self.rotation = self.rotation - ROTATION_STEP * delta_ms as i64;
    }

    /// Turn clockwise on screen: the angular rate grows by `ROTATION_STEP`
    /// radians per second for each second of `delta_ms`.
    pub fn rotate_right(&mut self, delta_ms: u32)
        requires
            fits_i64(old(self).rotation + ROTATION_STEP * delta_ms),
        ensures
            final(self).rotation == old(self).rotation + ROTATION_STEP * delta_ms,
            *final(self) == (Spaceship { rotation: final(self).rotation, ..*old(self) }),
    {
        self.rotation = self.rotation + ROTATION_STEP * delta_ms as i64;
    }

    /// Advance the ship by `delta_ms` milliseconds: move it at its velocity,
    /// put its bounding box around the new position, turn it at its angular
    /// rate with the orientation wrapped into `[0, TWO_PI)`, and take the
    /// heading vector of the new orientation. Velocity and angular rate are kept.
    pub fn update(&mut self, delta_ms: u32)
        requires
            old(self).update_fits(delta_ms as int),
        ensures
            wide_as_int(final(self).position) == old(self).next_position(delta_ms as int),
            final(self).aabb.is_around(final(self).position, SHIP_HALF_EXTENT as int),
            final(self).alignment_rad == wrap_angle(
                old(self).alignment_rad + old(self).rotation * delta_ms,
            ),
            0 <= final(self).alignment_rad < TWO_PI,
            as_int(final(self).alignment) == heading_of(final(self).alignment_rad as int),
            -HEADING_TOLERANCE <= norm_squared(as_int(final(self).alignment)) - HEADING_SCALE
                * HEADING_SCALE <= HEADING_TOLERANCE,
            final(self).velocity == old(self).velocity,
            final(self).rotation == old(self).rotation,
            final(self).texture_id == old(self).texture_id,
            final(self).wf(),
    {
        let dt = delta_ms as i128;
        proof {
            lemma_product_bound(self.rotation as int, dt as int);
        }
        self.position.x = self.position.x + self.velocity.x * dt;
        self.position.y = self.position.y + self.velocity.y * dt;

        self.aabb = AABB::around(self.position, SHIP_HALF_EXTENT);

        self.alignment_rad = wrap(self.alignment_rad as i128 + self.rotation as i128 * dt);
        self.alignment = heading(self.alignment_rad);
        proof {
            lemma_heading_unit_length(self.alignment_rad as int);
        }
    }

    /// Whether `update(delta_ms)` may be called: the distance covered, the next
    /// position and its bounding box fit the machine's integers.
    pub fn can_update(&self, delta_ms: u32) -> (r: bool)
        ensures
            r == self.update_fits(delta_ms as int),
    {
        let dt = delta_ms as i128;
        let lo = i128::MIN + SHIP_HALF_EXTENT;
        let hi = i128::MAX - SHIP_HALF_EXTENT;
        match (self.velocity.x.checked_mul(dt), self.velocity.y.checked_mul(dt)) {
            (Some(dx), Some(dy)) => sum_within(self.position.x, dx, lo, hi) && sum_within(
                self.position.y,
                dy,
                lo,
                hi,
            ),
            _ => false,
        }
    }

    /// Whether any of the four `move_*` calls may be made with `delta_ms`.
    pub fn can_thrust(&self, delta_ms: u32) -> (r: bool)
        ensures
            r == self.thrust_fits(delta_ms as int),
    {
        let k = THRUST as i128 * delta_ms as i128;
        let a = self.alignment;
        proof {
            assert(k == 100 * delta_ms);
            lemma_product_bound(a.x as int, k as int);
            lemma_product_bound(a.y as int, k as int);
            assert((-a.x) * k == -(a.x * k) && (-a.y) * k == -(a.y * k)) by (nonlinear_arith);
        }
        let fx = a.x as i128 * k;
        let fy = a.y as i128 * k;
        let (vx, vy) = (self.velocity.x, self.velocity.y);
        let lo = i128::MIN;
        let hi = i128::MAX;
        let forward = sum_within(vx, fx, lo, hi) && sum_within(vy, fy, lo, hi);
        let backward = sum_within(vx, -fx, lo, hi) && sum_within(vy, -fy, lo, hi);
        let left = sum_within(vx, fy, lo, hi) && sum_within(vy, -fx, lo, hi);
        let right = sum_within(vx, -fy, lo, hi) && sum_within(vy, fx, lo, hi);
        forward && backward && left && right
    }

    /// Whether `rotate_left` and `rotate_right` may be called with `delta_ms`.
    pub fn can_turn(&self, delta_ms: u32) -> (r: bool)
        ensures
            r == self.turn_fits(delta_ms as int),
    {
        let w = self.rotation as i128;
        proof {
            assert(ROTATION_STEP * delta_ms == delta_ms) by (nonlinear_arith)
                requires
                    ROTATION_STEP == 1,
            ;
        }
        let d = ROTATION_STEP as i128 * delta_ms as i128;
        let lo = i64::MIN as i128;
        let hi = i64::MAX as i128;
        lo <= w - d && w + d <= hi
    }
}

} // verus!
