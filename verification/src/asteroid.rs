use crate::geom::COORD_LIMIT;
use crate::geom::Rect;
use crate::geom::SPEED_LIMIT;
use crate::geom::Vec2;
use crate::geom::vec2_bounded;
use crate::geom::wrap_coord;
use crate::geom::wrap_spec;
use crate::ship::ROT_LIMIT;
use vstd::prelude::*;

verus! {

/// Self-rotation per frame, in milliradians: asteroids spin away from zero.
pub const SPIN_MRAD: i64 = 10;

/// An asteroid: a kinematic actor with constant velocity once launched,
/// a removal mark, and a size class that decides whether it splits.
#[derive(Clone, Copy, PartialEq, Eq, Structural, Debug)]
pub struct Asteroid {
    pub position: Vec2,
    pub velocity: Vec2,
    pub rotation: i64,
    pub rect: Rect,
    pub collided: bool,
    pub large: bool,
}

/// Values on which one frame of asteroid kinematics cannot overflow.
pub open spec fn asteroid_bounded(a: Asteroid) -> bool {
    &&& vec2_bounded(a.position, COORD_LIMIT as int)
    &&& vec2_bounded(a.velocity, SPEED_LIMIT as int)
    &&& -ROT_LIMIT <= a.rotation <= ROT_LIMIT
}

/// The spin rule, kept literally: a nonnegative rotation steps up, a
/// negative one steps down, so asteroids spin away from zero.
pub open spec fn spin_spec(r: int) -> int {
    if r >= 0 {
        r + 10
    } else {
        r - 10
    }
}

impl Asteroid {
    /// One frame: move by the velocity, wrap each axis at the screen edge,
    /// spin away from zero, and re-anchor the bounding box. The velocity is
    /// kept as it is: asteroids do not damp.
    pub fn update(&mut self, width: i64, height: i64)
        requires
            0 < width <= COORD_LIMIT,
            0 < height <= COORD_LIMIT,
            asteroid_bounded(*old(self)),
            -ROT_LIMIT + 10 <= old(self).rotation <= ROT_LIMIT - 10,
        ensures
            final(self).position.x == wrap_spec(
                old(self).position.x + old(self).velocity.x,
                width as int,
            ),
            final(self).position.y == wrap_spec(
                old(self).position.y + old(self).velocity.y,
                height as int,
            ),
            final(self).velocity == old(self).velocity,
            final(self).rotation == spin_spec(old(self).rotation as int),
            final(self).rect == (Rect {
                x: final(self).position.x,
                y: final(self).position.y,
                w: old(self).rect.w,
                h: old(self).rect.h,
            }),
            final(self).collided == old(self).collided,
            final(self).large == old(self).large,
            asteroid_bounded(*final(self)),
    {
        self.position.x = wrap_coord(self.position.x + self.velocity.x, width);
        self.position.y = wrap_coord(self.position.y + self.velocity.y, height);
        if self.rotation >= 0 {
            self.rotation = self.rotation + SPIN_MRAD;
        } else {
            self.rotation = self.rotation - SPIN_MRAD;
        }
        self.rect.move_to(self.position);
    }
}

} // verus!
