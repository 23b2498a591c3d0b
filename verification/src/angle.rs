use crate::geom::COORD_LIMIT;
use crate::geom::Vec2;
use crate::geom::vec2_bounded;
use vstd::arithmetic::div_mod::lemma_div_pos_is_pos;
use vstd::arithmetic::div_mod::lemma_mod_add_multiples_vanish;
use vstd::arithmetic::div_mod::lemma_mod_sub_multiples_vanish;
use vstd::arithmetic::div_mod::lemma_multiply_divide_le;
use vstd::arithmetic::div_mod::lemma_small_mod;
use vstd::prelude::*;

verus! {

/// A full turn, in milliradians.
pub const TURN_MRAD: i64 = 6283;

/// Half a turn, in milliradians.
pub const HALF_TURN_MRAD: i64 = 3141;

/// A quarter turn, in milliradians.
pub const QUARTER_TURN_MRAD: i64 = 1571;

/// One arch of the milli-scaled sine wave on `[0, 3141]`: the parabola
/// `4 t (3141 - t) / 9870`, which stays within `[0, 1000]`.
pub open spec fn half_wave(t: int) -> int {
    (4 * t * (3141 - t)) / 9870
}

/// The milli-scaled sine of a reduced angle in `[0, 6283)`.
pub open spec fn sin_mrad(x: int) -> int {
    if x < 3141 {
        half_wave(x)
    } else {
        -half_wave(x - 3141)
    }
}

/// Milli-scaled sine of any angle in milliradians.
pub open spec fn sin_of(a: int) -> int {
    sin_mrad(a % 6283)
}

/// Milli-scaled cosine of any angle in milliradians, as the sine a quarter
/// turn ahead.
pub open spec fn cos_of(a: int) -> int {
    sin_mrad((a + 1571) % 6283)
}

/// Bring an angle into `[0, 6283)` by whole turns.
pub fn reduce_angle(a: i64) -> (r: i64)
    requires
        -COORD_LIMIT <= a <= COORD_LIMIT,
    ensures
        r == (a as int) % 6283,
        0 <= r < 6283,
{
    let mut r: i64 = a;
    while r < 0
        invariant
            -COORD_LIMIT <= r <= COORD_LIMIT,
            r as int % 6283 == a as int % 6283,
        decreases (if r < 0 { 0 - r as int } else { 0int }),
    {
        proof {
            lemma_mod_add_multiples_vanish(r as int, 6283);
        }
        r = r + TURN_MRAD;
    }
    while r >= 6283
        invariant
            0 <= r <= COORD_LIMIT,
            r as int % 6283 == a as int % 6283,
        decreases r,
    {
        proof {
            lemma_mod_sub_multiples_vanish(r as int, 6283);
        }
        r = r - TURN_MRAD;
    }
    proof {
        lemma_small_mod(r as nat, 6283nat);
    }
    r
}

fn half_wave_eval(t: i64) -> (r: i64)
    requires
        0 <= t <= 3141,
    ensures
        r == half_wave(t as int),
        0 <= r <= 1000,
{
    proof {
        if t <= 1570 {
            assert((t as int - 1570) * (t as int - 1571) >= 0) by (nonlinear_arith)
                requires
                    t <= 1570,
            ;
        } else {
            assert((t as int - 1570) * (t as int - 1571) >= 0) by (nonlinear_arith)
                requires
                    t >= 1571,
            ;
        }
        assert(0 <= 4 * (t as int) * (3141 - t as int) <= 9_865_880) by (nonlinear_arith)
            requires
                0 <= t <= 3141,
                (t as int - 1570) * (t as int - 1571) >= 0,
        ;
        lemma_div_pos_is_pos(4 * (t as int) * (3141 - t as int), 9870);
        lemma_multiply_divide_le(4 * (t as int) * (3141 - t as int), 9870, 1000);
    }
    (4 * t * (3141 - t)) / 9870
}

fn sin_eval(x: i64) -> (r: i64)
    requires
        0 <= x < 6283,
    ensures
        r == sin_mrad(x as int),
        -1000 <= r <= 1000,
{
    if x < HALF_TURN_MRAD {
        half_wave_eval(x)
    } else {
        -half_wave_eval(x - HALF_TURN_MRAD)
    }
}

/// The unit-circle direction of a heading given in milliradians, milli-scaled:
/// both components lie in `[-1000, 1000]`.
pub fn dir_from_mrad(a: i64) -> (d: Vec2)
    requires
        -COORD_LIMIT <= a <= COORD_LIMIT - QUARTER_TURN_MRAD,
    ensures
        d.x == cos_of(a as int),
        d.y == sin_of(a as int),
        vec2_bounded(d, 1000),
{
    let ys = reduce_angle(a);
    let y = sin_eval(ys);
    let xs = reduce_angle(a + QUARTER_TURN_MRAD);
    let x = sin_eval(xs);
    Vec2 { x, y }
}

} // verus!
