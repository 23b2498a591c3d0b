use vstd::arithmetic::div_mod::lemma_div_nonincreasing;
use vstd::arithmetic::div_mod::lemma_div_pos_is_pos;
use vstd::arithmetic::div_mod::lemma_multiply_divide_le;
use vstd::arithmetic::div_mod::lemma_multiply_divide_lt;
use vstd::prelude::*;

verus! {

/// `v * num / den`, truncated toward zero, as the frame rules use it:
/// velocity damping takes `num = 990, den = 1000` of a milli-unit value,
/// and a heading vector is scaled by a speed in milli-units with
/// `den = 1000`.
pub open spec fn scale_trunc(v: int, num: int, den: int) -> int {
    if v >= 0 {
        (v * num) / den
    } else {
        -(((-v) * num) / den)
    }
}

/// Fixed-point multiply-then-divide, truncating toward zero.
pub fn mul_frac(v: i64, num: i64, den: i64) -> (r: i64)
    requires
        1 <= den <= 1000,
        0 <= num <= 1000,
        -crate::geom::COORD_LIMIT <= v <= crate::geom::COORD_LIMIT,
    ensures
        r == scale_trunc(v as int, num as int, den as int),
{
    if v >= 0 {
        proof {
            assert(0 <= v as int * num as int <= 1_000_000_000_000_000int) by (nonlinear_arith)
                requires
                    0 <= v <= 1_000_000_000_000int,
                    0 <= num <= 1000,
            ;
            lemma_div_pos_is_pos(v as int * num as int, den as int);
            lemma_div_nonincreasing(v as int * num as int, den as int);
        }
        (v * num) / den
    } else {
        let w = -v;
        proof {
            assert(0 <= w as int * num as int <= 1_000_000_000_000_000int) by (nonlinear_arith)
                requires
                    0 <= w <= 1_000_000_000_000int,
                    0 <= num <= 1000,
            ;
            lemma_div_pos_is_pos(w as int * num as int, den as int);
            lemma_div_nonincreasing(w as int * num as int, den as int);
        }
        -((w * num) / den)
    }
}

/// Scaling by a fraction of at most one never grows a bounded value.
pub proof fn lemma_scale_trunc_bounded(v: int, num: int, den: int, m: int)
    requires
        1 <= den,
        0 <= num <= den,
        0 <= m,
        -m <= v <= m,
    ensures
        -m <= scale_trunc(v, num, den) <= m,
{
    if v >= 0 {
        assert(0 <= v * num <= den * m) by (nonlinear_arith)
            requires
                0 <= v <= m,
                0 <= num <= den,
        ;
        lemma_div_pos_is_pos(v * num, den);
        lemma_multiply_divide_le(v * num, den, m);
    } else {
        assert(0 <= (-v) * num <= den * m) by (nonlinear_arith)
            requires
                0 < -v <= m,
                0 <= num <= den,
        ;
        lemma_div_pos_is_pos((-v) * num, den);
        lemma_multiply_divide_le((-v) * num, den, m);
    }
}

/// Damping by 990/1000 pulls a velocity component strictly toward rest and
/// never past it: zero stays zero, and a nonzero component strictly shrinks.
pub proof fn lemma_damp_shrinks(v: int)
    ensures
        v == 0 ==> scale_trunc(v, 990, 1000) == 0,
        v > 0 ==> 0 <= scale_trunc(v, 990, 1000) < v,
        v < 0 ==> v < scale_trunc(v, 990, 1000) <= 0,
{
    if v > 0 {
        assert(0 <= v * 990 < 1000 * v) by (nonlinear_arith)
            requires
                v > 0,
        ;
        lemma_div_pos_is_pos(v * 990, 1000);
        lemma_multiply_divide_lt(v * 990, 1000, v);
    } else if v < 0 {
        assert(0 <= (-v) * 990 < 1000 * (-v)) by (nonlinear_arith)
            requires
                v < 0,
        ;
        lemma_div_pos_is_pos((-v) * 990, 1000);
        lemma_multiply_divide_lt((-v) * 990, 1000, -v);
    }
}

} // verus!
