use vstd::prelude::*;

verus! {

/// Largest magnitude, in milli-units, of any coordinate, extent or
/// timestamp the library handles; keeps every sum inside `i64`.
pub const COORD_LIMIT: i64 = 1_000_000_000_000;

/// Largest magnitude, in milli-units per frame, of any velocity component.
pub const SPEED_LIMIT: i64 = 1_000_000;

/// A 2D vector in milli-units.
#[derive(Clone, Copy, PartialEq, Eq, Structural, Debug)]
pub struct Vec2 {
    pub x: i64,
    pub y: i64,
}

pub open spec fn vec2_bounded(v: Vec2, m: int) -> bool {
    &&& -m <= v.x <= m
    &&& -m <= v.y <= m
}

/// An axis-aligned box: top-left corner and extents, in milli-units.
#[derive(Clone, Copy, PartialEq, Eq, Structural, Debug)]
pub struct Rect {
    pub x: i64,
    pub y: i64,
    pub w: i64,
    pub h: i64,
}

pub open spec fn rect_bounded(r: Rect) -> bool {
    &&& -COORD_LIMIT <= r.x <= COORD_LIMIT
    &&& -COORD_LIMIT <= r.y <= COORD_LIMIT
    &&& 0 <= r.w <= COORD_LIMIT
    &&& 0 <= r.h <= COORD_LIMIT
}

/// Two boxes overlap when they meet on both axes, boundary contact included.
pub open spec fn overlaps_spec(a: Rect, b: Rect) -> bool {
    &&& a.x <= b.x + b.w
    &&& a.x + a.w >= b.x
    &&& a.y <= b.y + b.h
    &&& a.y + a.h >= b.y
}

impl Rect {
    /// Re-anchor the box so that its corner sits on `p`, extents unchanged.
    pub fn move_to(&mut self, p: Vec2)
        ensures
            *final(self) == (Rect { x: p.x, y: p.y, w: old(self).w, h: old(self).h }),
    {
        self.x = p.x;
        self.y = p.y;
    }

    /// Axis-aligned overlap test.
    pub fn overlaps(&self, other: &Rect) -> (r: bool)
        requires
            rect_bounded(*self),
            rect_bounded(*other),
        ensures
            r == overlaps_spec(*self, *other),
    {
        self.x <= other.x + other.w && self.x + self.w >= other.x && self.y <= other.y + other.h
            && self.y + self.h >= other.y
    }
}

/// One axis of the screen wrap rule: a coordinate past the far edge resets
/// to 0; a negative coordinate resets to the far edge; anything else stays.
pub open spec fn wrap_spec(p: int, dim: int) -> int {
    if p > dim {
        0
    } else if p < 0 {
        dim
    } else {
        p
    }
}

pub fn wrap_coord(p: i64, dim: i64) -> (r: i64)
    requires
        0 < dim,
    ensures
        r == wrap_spec(p as int, dim as int),
{
    if p > dim {
        0
    } else if p < 0 {
        dim
    } else {
        p
    }
}

/// A triggered wrap never leaves the coordinate on the boundary it crossed:
/// crossing the far edge lands on 0, inside `[0, dim)`; crossing 0 lands on
/// `dim` itself, away from 0.
pub proof fn lemma_wrap_leaves_crossed_boundary(p: int, dim: int)
    requires
        0 < dim,
    ensures
        p > dim ==> 0 <= wrap_spec(p, dim) < dim && wrap_spec(p, dim) != dim,
        p < 0 ==> wrap_spec(p, dim) != 0 && wrap_spec(p, dim) == dim,
{
}

} // verus!
