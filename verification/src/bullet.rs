use crate::geom::COORD_LIMIT;
use crate::geom::Rect;
use crate::geom::SPEED_LIMIT;
use crate::geom::Vec2;
use crate::geom::vec2_bounded;
use vstd::prelude::*;

verus! {

/// How long a bullet lives after its spawn timestamp, in milliseconds.
pub const BULLET_TTL_MS: i64 = 1500;

/// The pause the trigger demands between two shots, in milliseconds.
pub const SHOT_COOLDOWN_MS: i64 = 200;

/// A bullet: straight-line motion, no wrap, removed on collision or when
/// its time-to-live runs out.
#[derive(Clone, Copy, PartialEq, Eq, Structural, Debug)]
pub struct Bullet {
    pub position: Vec2,
    pub velocity: Vec2,
    pub rect: Rect,
    pub created_at: i64,
    pub collided: bool,
}

/// Values on which one frame of bullet motion cannot overflow.
pub open spec fn bullet_bounded(b: Bullet) -> bool {
    &&& vec2_bounded(b.position, COORD_LIMIT as int)
    &&& vec2_bounded(b.velocity, SPEED_LIMIT as int)
    &&& -COORD_LIMIT <= b.created_at <= COORD_LIMIT
}

/// Liveness is a derived predicate over the spawn timestamp, the collision
/// mark, and the clock: a bullet stays until it collides or more than the
/// time-to-live has passed.
pub open spec fn bullet_live_spec(b: Bullet, now_ms: int) -> bool {
    &&& !b.collided
    &&& now_ms - b.created_at <= 1500
}

impl Bullet {
    /// One frame: move by the velocity and re-anchor the bounding box.
    /// No wrap and no damping: a bullet flies off-screen and expires by
    /// time instead.
    pub fn update(&mut self)
        requires
            bullet_bounded(*old(self)),
        ensures
            final(self).position.x == old(self).position.x + old(self).velocity.x,
            final(self).position.y == old(self).position.y + old(self).velocity.y,
            final(self).velocity == old(self).velocity,
            final(self).created_at == old(self).created_at,
            final(self).collided == old(self).collided,
            final(self).rect == (Rect {
                x: final(self).position.x,
                y: final(self).position.y,
                w: old(self).rect.w,
                h: old(self).rect.h,
            }),
    {
        self.position.x = self.position.x + self.velocity.x;
        self.position.y = self.position.y + self.velocity.y;
        self.rect.move_to(self.position);
    }

    /// The culling pass's liveness test.
    pub fn is_live(&self, now_ms: i64) -> (r: bool)
        requires
            -COORD_LIMIT <= self.created_at <= COORD_LIMIT,
            -COORD_LIMIT <= now_ms <= COORD_LIMIT,
        ensures
            r == bullet_live_spec(*self, now_ms as int),
    {
        !self.collided && now_ms - self.created_at <= BULLET_TTL_MS
    }
}

/// The trigger's cooldown rule: a shot may fire only when more than the
/// cooldown has passed since the previous one.
pub fn shot_ready(now_ms: i64, last_shot_ms: i64) -> (r: bool)
    requires
        -COORD_LIMIT <= now_ms <= COORD_LIMIT,
        -COORD_LIMIT <= last_shot_ms <= COORD_LIMIT,
    ensures
        r == (now_ms - last_shot_ms > 200),
{
    now_ms - last_shot_ms > SHOT_COOLDOWN_MS
}

/// A bullet that never collides is still present just before its
/// time-to-live ends and gone just after: alive at `created_at + 1490`,
/// expired at `created_at + 1510`.
pub proof fn lemma_bullet_ttl_window(b: Bullet)
    requires
        !b.collided,
    ensures
        bullet_live_spec(b, b.created_at + 1490),
        !bullet_live_spec(b, b.created_at + 1510),
{
}

} // verus!
