use crate::angle::cos_of;
use crate::bullet::Bullet;
use crate::angle::dir_from_mrad;
use crate::angle::sin_of;
use crate::fixed::lemma_damp_shrinks;
use crate::fixed::lemma_scale_trunc_bounded;
use crate::fixed::mul_frac;
use crate::fixed::scale_trunc;
use crate::geom::COORD_LIMIT;
use crate::geom::Rect;
use crate::geom::SPEED_LIMIT;
use crate::geom::Vec2;
use crate::geom::vec2_bounded;
use crate::geom::wrap_coord;
use crate::geom::wrap_spec;
use vstd::prelude::*;

verus! {

/// Velocity damping per frame: 990/1000 of each component, toward rest.
pub const DAMP_NUM: i64 = 990;

pub const DAMP_DEN: i64 = 1000;

/// Thrust impulse along the ship's heading, in milli-units per frame.
pub const THRUST_MILLI: i64 = 100;

/// Largest rotation magnitude, in milliradians, kept by the ship rules.
pub const ROT_LIMIT: i64 = 1_000_000_000;

/// The player's ship: a kinematic actor that wraps at the screen edges and
/// whose velocity decays every frame.
#[derive(Clone, Copy, PartialEq, Eq, Structural, Debug)]
pub struct Ship {
    pub position: Vec2,
    pub velocity: Vec2,
    pub rotation: i64,
    pub rect: Rect,
}

/// Values on which one frame of ship kinematics cannot overflow.
pub open spec fn ship_bounded(s: Ship) -> bool {
    &&& vec2_bounded(s.position, COORD_LIMIT as int)
    &&& vec2_bounded(s.velocity, SPEED_LIMIT as int)
    &&& -ROT_LIMIT <= s.rotation <= ROT_LIMIT
}

/// Squared length of a velocity, the measure the damping law shrinks.
pub open spec fn mag_sq(v: Vec2) -> int {
    v.x * v.x + v.y * v.y
}

pub open spec fn damped(v: Vec2) -> Vec2 {
    Vec2 {
        x: scale_trunc(v.x as int, 990, 1000) as i64,
        y: scale_trunc(v.y as int, 990, 1000) as i64,
    }
}

impl Ship {
    /// One frame: move by the velocity, wrap each axis at the screen edge,
    /// damp the velocity, and re-anchor the bounding box on the position.
    pub fn update(&mut self, width: i64, height: i64)
        requires
            0 < width <= COORD_LIMIT,
            0 < height <= COORD_LIMIT,
            ship_bounded(*old(self)),
        ensures
            final(self).position.x == wrap_spec(
                old(self).position.x + old(self).velocity.x,
                width as int,
            ),
            final(self).position.y == wrap_spec(
                old(self).position.y + old(self).velocity.y,
                height as int,
            ),
            final(self).velocity == damped(old(self).velocity),
            final(self).rotation == old(self).rotation,
            final(self).rect == (Rect {
                x: final(self).position.x,
                y: final(self).position.y,
                w: old(self).rect.w,
                h: old(self).rect.h,
            }),
            ship_bounded(*final(self)),
    {
        self.position.x = wrap_coord(self.position.x + self.velocity.x, width);
        self.position.y = wrap_coord(self.position.y + self.velocity.y, height);
        proof {
            lemma_damp_shrinks(self.velocity.x as int);
            lemma_damp_shrinks(self.velocity.y as int);
        }
        self.velocity.x = mul_frac(self.velocity.x, DAMP_NUM, DAMP_DEN);
        self.velocity.y = mul_frac(self.velocity.y, DAMP_NUM, DAMP_DEN);
        self.rect.move_to(self.position);
    }

    /// Turn by an input-driven delta, in milliradians.
    pub fn turn(&mut self, delta: i64)
        requires
            -10_000 <= delta <= 10_000,
            -ROT_LIMIT + 10_000 <= old(self).rotation <= ROT_LIMIT - 10_000,
        ensures
            final(self).rotation == old(self).rotation + delta,
            final(self).position == old(self).position,
            final(self).velocity == old(self).velocity,
            final(self).rect == old(self).rect,
    {
        self.rotation = self.rotation + delta;
    }

    /// Accumulate one thrust impulse along the current heading.
    pub fn thrust(&mut self)
        requires
            ship_bounded(*old(self)),
            vec2_bounded(old(self).velocity, SPEED_LIMIT - 1000 as int),
        ensures
            final(self).velocity.x == old(self).velocity.x + scale_trunc(
                cos_of(old(self).rotation as int),
                100,
                1000,
            ),
            final(self).velocity.y == old(self).velocity.y + scale_trunc(
                sin_of(old(self).rotation as int),
                100,
                1000,
            ),
            final(self).position == old(self).position,
            final(self).rotation == old(self).rotation,
            final(self).rect == old(self).rect,
            ship_bounded(*final(self)),
    {
        let d = dir_from_mrad(self.rotation);
        proof {
            lemma_scale_trunc_bounded(d.x as int, 100, 1000, 1000);
            lemma_scale_trunc_bounded(d.y as int, 100, 1000, 1000);
        }
        let ix = mul_frac(d.x, THRUST_MILLI, 1000);
        let iy = mul_frac(d.y, THRUST_MILLI, 1000);
        self.velocity.x = self.velocity.x + ix;
        self.velocity.y = self.velocity.y + iy;
    }

    /// The bullet one trigger pull spawns: one unit ahead of the ship along
    /// its heading, fifteen units per frame of speed on that heading, and
    /// stamped with the clock.
    pub fn fire(&self, now_ms: i64, extent: Vec2) -> (b: Bullet)
        requires
            ship_bounded(*self),
            -COORD_LIMIT <= now_ms <= COORD_LIMIT,
        ensures
            b.position.x == self.position.x + cos_of(self.rotation as int),
            b.position.y == self.position.y + sin_of(self.rotation as int),
            b.velocity.x == 15 * cos_of(self.rotation as int),
            b.velocity.y == 15 * sin_of(self.rotation as int),
            b.created_at == now_ms,
            !b.collided,
            b.rect == (Rect { x: b.position.x, y: b.position.y, w: extent.x, h: extent.y }),
    {
        let d = dir_from_mrad(self.rotation);
        let px: i64 = self.position.x + d.x;
        let py: i64 = self.position.y + d.y;
        Bullet {
            position: Vec2 { x: px, y: py },
            velocity: Vec2 { x: 15 * d.x, y: 15 * d.y },
            rect: Rect { x: px, y: py, w: extent.x, h: extent.y },
            created_at: now_ms,
            collided: false,
        }
    }
}

/// With no thrust, a nonzero velocity strictly loses squared magnitude in
/// every frame: the damping factor is below one, so the ship coasts to rest.
pub proof fn lemma_velocity_decays(v: Vec2)
    requires
        v != (Vec2 { x: 0, y: 0 }),
    ensures
        0 <= mag_sq(damped(v)) < mag_sq(v),
{
    lemma_damp_shrinks(v.x as int);
    lemma_damp_shrinks(v.y as int);
    let dx = scale_trunc(v.x as int, 990, 1000);
    let dy = scale_trunc(v.y as int, 990, 1000);
    assert(dx * dx <= v.x * v.x && (v.x != 0 ==> dx * dx < v.x * v.x)) by (nonlinear_arith)
        requires
            v.x == 0 ==> dx == 0,
            v.x > 0 ==> 0 <= dx < v.x,
            v.x < 0 ==> v.x < dx <= 0,
    ;
    assert(dy * dy <= v.y * v.y && (v.y != 0 ==> dy * dy < v.y * v.y)) by (nonlinear_arith)
        requires
            v.y == 0 ==> dy == 0,
            v.y > 0 ==> 0 <= dy < v.y,
            v.y < 0 ==> v.y < dy <= 0,
    ;
    assert(0 <= dx * dx && 0 <= dy * dy) by (nonlinear_arith);
    assert(v.x != 0 || v.y != 0);
}

} // verus!
