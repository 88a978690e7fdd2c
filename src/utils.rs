//! Small arithmetic helpers shared by the generators.

use vstd::arithmetic::div_mod::{
    lemma_div_denominator, lemma_div_is_ordered, lemma_div_multiples_vanish,
    lemma_fundamental_div_mod_converse_div,
};
use vstd::arithmetic::mul::{lemma_mul_inequality, lemma_mul_is_commutative};
use vstd::arithmetic::power2::{lemma2_to64, lemma2_to64_rest, lemma_pow2_pos, lemma_pow2_strictly_increases, lemma_pow2_unfold, pow2};
use vstd::prelude::*;

verus! {

/// The fixed-point value that stands for 1.0 in unsigned unit-range quantities
/// (interpolation weights, envelope levels, sustain levels, phases).
pub const UNIT: u32 = 4294967295;

/// `linear_interp(y0, y1, frac)` on mathematical integers: the point at weight
/// `frac / UNIT` on the line from `y0` to `y1`, rounded down.
pub open spec fn interp(y0: int, y1: int, frac: int) -> int {
    y0 + (y1 - y0) * frac / (UNIT as int)
}

/// Interpolation with a weight in `[0, UNIT]` never leaves the segment between the two points.
pub proof fn lemma_interp_between(y0: int, y1: int, frac: int)
    requires
        0 <= frac <= UNIT,
    ensures
        y0 <= y1 ==> y0 <= interp(y0, y1, frac) <= y1,
        y1 <= y0 ==> y1 <= interp(y0, y1, frac) <= y0,
        frac == 0 ==> interp(y0, y1, frac) == y0,
{
    let u = UNIT as int;
    let d = y1 - y0;
    if d >= 0 {
        lemma_mul_inequality(0, frac, d);
        lemma_mul_inequality(frac, u, d);
        lemma_mul_is_commutative(frac, d);
        lemma_mul_is_commutative(u, d);
        lemma_div_is_ordered(0, d * frac, u);
        lemma_div_is_ordered(d * frac, d * u, u);
        lemma_div_multiples_vanish(d, u);
    } else {
        let m = -d;
        lemma_mul_inequality(0, frac, m);
        lemma_mul_inequality(frac, u, m);
        lemma_mul_is_commutative(frac, m);
        lemma_mul_is_commutative(u, m);
        assert(d * frac == -(m * frac)) by (nonlinear_arith)
            requires
                m == -d,
        ;
        assert(d * u == -(m * u)) by (nonlinear_arith)
            requires
                m == -d,
        ;
        lemma_div_is_ordered(d * u, d * frac, u);
        lemma_div_is_ordered(d * frac, 0, u);
        lemma_div_multiples_vanish(d, u);
        assert((d * u) / u == d) by {
            lemma_mul_is_commutative(d, u);
            lemma_div_multiples_vanish(d, u);
        }
    }
    if frac == 0 {
        assert(d * frac == 0);
    }
}

/// `linear_interp(y0, y1, frac)` is linear interpolation of `y0` and `y1` with the
/// fixed-point weight `frac`, where `UNIT` stands for 1.0 and the result is rounded down.
pub fn linear_interp(y0: i64, y1: i64, frac: u32) -> (r: i64)
    ensures
        r == interp(y0 as int, y1 as int, frac as int),
{
    proof {
        lemma_interp_between(y0 as int, y1 as int, frac as int);
    }
    let u: i128 = UNIT as i128;
    let d: i128 = (y1 as i128) - (y0 as i128);
    assert(-0x1_0000_0000_0000_0000 <= d <= 0x1_0000_0000_0000_0000);
    let p: i128 = d * (frac as i128);
    assert(-0x1_0000_0000_0000_0000_0000_0000 <= p <= 0x1_0000_0000_0000_0000_0000_0000) by (nonlinear_arith)
        requires
            p == d * (frac as i128),
            -0x1_0000_0000_0000_0000 <= d <= 0x1_0000_0000_0000_0000,
            0 <= frac <= 0xffff_ffff,
    ;
    let q: i128 = if p >= 0 {
        p / u
    } else {
        let m: i128 = -p;
        let a: i128 = (m + u - 1) / u;
        proof {
            let mi = m as int;
            let ui = u as int;
            let ai = a as int;
            assert(ai * ui <= mi + ui - 1 < ai * ui + ui) by {
                vstd::arithmetic::div_mod::lemma_fundamental_div_mod(mi + ui - 1, ui);
                vstd::arithmetic::div_mod::lemma_mod_bound(mi + ui - 1, ui);
                lemma_mul_is_commutative(ai, ui);
            }
            assert(ui * (-ai) + (ai * ui - mi) == -mi) by (nonlinear_arith);
            lemma_fundamental_div_mod_converse_div(-mi, ui, -ai, ai * ui - mi);
        }
        -a
    };
    (y0 as i128 + q) as i64
}

/// `ilog_2(x)` is the base 2 logarithm of `x`, rounded down; zero when `x` is zero.
pub fn ilog_2(x: usize) -> (r: u32)
    ensures
        x == 0 ==> r == 0,
        x >= 1 ==> pow2(r as nat) <= x < pow2(r as nat + 1),
{
    let mut x_: usize = x;
    let mut res: u32 = 0;
    proof {
        lemma2_to64();
    }
    while 1 < x_
        invariant
            x_ as nat == x as nat / pow2(res as nat),
            x >= 1 ==> x_ >= 1,
            x == 0 ==> res == 0,
            res <= 64,
            x >= 1 ==> pow2(res as nat) <= x,
        decreases x_,
    {
        proof {
            lemma_pow2_pos(res as nat);
            lemma_div_denominator(x as int, pow2(res as nat) as int, 2);
            lemma_pow2_unfold(res as nat + 1);
            lemma_mul_is_commutative(2, pow2(res as nat) as int);
            // 2 <= x / 2^res gives 2^(res+1) <= x
            vstd::arithmetic::div_mod::lemma_fundamental_div_mod(x as int, pow2(res as nat) as int);
            vstd::arithmetic::div_mod::lemma_mod_bound(x as int, pow2(res as nat) as int);
            assert(pow2(res as nat) * 2 <= pow2(res as nat) * (x as nat / pow2(res as nat))) by (nonlinear_arith)
                requires
                    2 <= x as nat / pow2(res as nat),
                    pow2(res as nat) > 0,
            ;
            if res >= 64 {
                lemma2_to64_rest();
                if res > 64 {
                    lemma_pow2_strictly_increases(64, res as nat);
                }
            }
        }
        x_ = x_ / 2;
        res = res + 1;
    }
    proof {
        if x >= 1 {
            lemma_pow2_pos(res as nat);
            lemma_pow2_unfold(res as nat + 1);
            vstd::arithmetic::div_mod::lemma_fundamental_div_mod(x as int, pow2(res as nat) as int);
            vstd::arithmetic::div_mod::lemma_mod_bound(x as int, pow2(res as nat) as int);
        }
    }
    res
}

} // verus!
