//! Fixed-point arithmetic in milli-units: the value 1000 stands for 1.0 of
//! model space. Division rounds toward zero, matching the way the scene's
//! formulas convert fractional values to integers.

use vstd::prelude::*;
use vstd::arithmetic::div_mod::{lemma_div_is_ordered, lemma_div_multiples_vanish};

verus! {

/// Largest operand magnitude accepted by `fx_mul`.
pub const FX_LIM: i64 = 1_000_000_000;

/// Division rounded toward zero (the rounding of the pipeline's
/// fraction-to-integer conversions), as opposed to the Euclidean `/`.
#[verifier::opaque]
pub open spec fn tdiv(a: int, b: int) -> int {
    if a >= 0 {
        a / b
    } else {
        -((-a) / b)
    }
}

/// Fixed-point product: `a * b / 1000`, rounded toward zero.
#[verifier::opaque]
pub open spec fn fx_mul_s(a: int, b: int) -> int {
    tdiv(a * b, 1000)
}

/// Clamp `v` into `[lo, hi]`.
pub open spec fn clip_s(v: int, lo: int, hi: int) -> int {
    if v < lo {
        lo
    } else if v > hi {
        hi
    } else {
        v
    }
}

pub proof fn lemma_tdiv_interval(x: int, d: int)
    requires
        0 < d,
    ensures
        x >= 0 ==> 0 <= tdiv(x, d) <= x,
        x < 0 ==> x <= tdiv(x, d) <= 0,
{
    reveal(tdiv);
    if x >= 0 {
        lemma_div_is_ordered(0, x, d);
        vstd::arithmetic::div_mod::lemma_div_nonincreasing(x, d);
    } else {
        lemma_div_is_ordered(0, -x, d);
        vstd::arithmetic::div_mod::lemma_div_nonincreasing(-x, d);
    }
}

/// A product scaled back by 1000 keeps the bound of its first factor when the
/// second stays within one unit.
pub proof fn lemma_fx_mul_unit(a: int, b: int, m: int)
    requires
        -m <= a <= m,
        -1000 <= b <= 1000,
        0 <= m,
    ensures
        -m <= fx_mul_s(a, b) <= m,
{
    reveal(fx_mul_s);
    reveal(tdiv);
    assert(-(m * 1000) <= a * b <= m * 1000) by (nonlinear_arith)
        requires
            -m <= a <= m,
            -1000 <= b <= 1000,
            0 <= m,
    ;
    lemma_tdiv_interval(a * b, 1000);
    if a * b >= 0 {
        lemma_div_is_ordered(a * b, m * 1000, 1000);
        lemma_div_multiples_vanish(m, 1000);
    } else {
        lemma_div_is_ordered(-(a * b), m * 1000, 1000);
        lemma_div_multiples_vanish(m, 1000);
    }
}

/// Range of a fixed-point product from the ranges of its operands.
pub proof fn lemma_fx_mul_range(a: int, b: int, am: int, bm: int)
    requires
        -am <= a <= am,
        -bm <= b <= bm,
        0 <= am,
        0 <= bm,
    ensures
        -(am * bm / 1000) <= fx_mul_s(a, b) <= am * bm / 1000,
{
    reveal(fx_mul_s);
    reveal(tdiv);
    assert(-(am * bm) <= a * b <= am * bm) by (nonlinear_arith)
        requires
            -am <= a <= am,
            -bm <= b <= bm,
            0 <= am,
            0 <= bm,
    ;
    lemma_tdiv_interval(a * b, 1000);
    if a * b >= 0 {
        lemma_div_is_ordered(a * b, am * bm, 1000);
    } else {
        lemma_div_is_ordered(-(a * b), am * bm, 1000);
    }
}

/// A fixed-point product of nonnegative operands is nonnegative.
pub proof fn lemma_fx_mul_nonneg(a: int, b: int)
    requires
        0 <= a,
        0 <= b,
    ensures
        0 <= fx_mul_s(a, b),
{
    reveal(fx_mul_s);
    reveal(tdiv);
    assert(0 <= a * b) by (nonlinear_arith)
        requires
            0 <= a,
            0 <= b,
    ;
    lemma_tdiv_interval(a * b, 1000);
}

/// The angle folded into one turn: the Euclidean remainder by two pi,
/// always in [0, FX_TWO_PI).
pub open spec fn angle_norm_s(x: int) -> int {
    x % 6282
}

/// Sine on the half turn [0, FX_PI], in milli-units, by a rational
/// approximation: `16 x (pi - x) / (5 pi^2 - 4 x (pi - x))`.
#[verifier::opaque]
pub open spec fn sin_half_s(x: int) -> int {
    let p = x * (3141 - x);
    (16 * p * 1000) / (5 * 3141 * 3141 - 4 * p)
}

/// Sine of an angle in milli-radians, in milli-units of [-1, 1].
#[verifier::opaque]
pub open spec fn fx_sin_s(x: int) -> int {
    let n = angle_norm_s(x);
    if n <= 3141 {
        sin_half_s(n)
    } else {
        -sin_half_s(n - 3141)
    }
}

/// Cosine of an angle in milli-radians: the sine a quarter turn ahead.
#[verifier::opaque]
pub open spec fn fx_cos_s(x: int) -> int {
    fx_sin_s(x + 1571)
}

/// Fold an angle into [0, FX_TWO_PI).
pub fn angle_norm(x: i64) -> (r: i64)
    requires
        i64::MIN < x,
    ensures
        r == angle_norm_s(x as int),
        0 <= r < 6282,
{
    if x >= 0 {
        ((x as u64) % 6282) as i64
    } else {
        let m: u64 = ((-x) as u64) % 6282;
        proof {
            let q = ((-x) as int) / 6282;
            vstd::arithmetic::div_mod::lemma_fundamental_div_mod((-x) as int, 6282);
            if m == 0 {
                vstd::arithmetic::div_mod::lemma_mod_multiples_vanish(-q, 0, 6282);
            } else {
                vstd::arithmetic::div_mod::lemma_mod_multiples_vanish(-q - 1, 6282 - m, 6282);
                vstd::arithmetic::div_mod::lemma_small_mod((6282 - m) as nat, 6282);
            }
        }
        if m == 0 {
            0
        } else {
            (6282 - m) as i64
        }
    }
}

/// Sine on [0, FX_PI].
fn sin_half(x: i64) -> (r: i64)
    requires
        0 <= x <= 3141,
    ensures
        r == sin_half_s(x as int),
        0 <= r <= 1000,
{
    let xu = x as u64;
    proof {
        reveal(sin_half_s);
        assert(0 <= (x as int) * (3141 - x as int) <= 3141 * 3141) by (nonlinear_arith)
            requires
                0 <= x as int <= 3141,
        ;
    }
    let p: u64 = xu * (3141 - xu);
    let num: u64 = 16 * p * 1000;
    let den: u64 = 5 * 3141 * 3141 - 4 * p;
    proof {
        assert(20 * (p as int) <= 49_329_405) by (nonlinear_arith)
            requires
                p as int == (x as int) * (3141 - x as int),
                0 <= x as int <= 3141,
        ;
        assert(num as int <= den as int * 1000);
        lemma_div_is_ordered(num as int, den as int * 1000, den as int);
        lemma_div_multiples_vanish(1000, den as int);
    }
    (num / den) as i64
}

/// Sine of an angle in milli-radians, in milli-units of [-1, 1].
pub fn fx_sin(x: i64) -> (r: i64)
    requires
        i64::MIN < x,
    ensures
        r == fx_sin_s(x as int),
        -1000 <= r <= 1000,
{
    proof {
        reveal(fx_sin_s);
    }
    let n = angle_norm(x);
    if n <= 3141 {
        sin_half(n)
    } else {
        -sin_half(n - 3141)
    }
}

/// Cosine of an angle in milli-radians, in milli-units of [-1, 1].
pub fn fx_cos(x: i64) -> (r: i64)
    requires
        i64::MIN < x,
        x <= i64::MAX - 1571,
    ensures
        r == fx_cos_s(x as int),
        -1000 <= r <= 1000,
{
    proof {
        reveal(fx_cos_s);
    }
    fx_sin(x + 1571)
}

/// Truncating division of `x` by a positive divisor.
pub fn tdiv64(x: i64, d: i64) -> (r: i64)
    requires
        0 < d,
        i64::MIN < x,
    ensures
        r == tdiv(x as int, d as int),
        x >= 0 ==> 0 <= r <= x,
        x < 0 ==> x <= r <= 0,
{
    proof {
        reveal(tdiv);
        lemma_tdiv_interval(x as int, d as int);
    }
    if x >= 0 {
        ((x as u64) / (d as u64)) as i64
    } else {
        let m: u64 = ((-x) as u64) / (d as u64);
        -(m as i64)
    }
}

/// Fixed-point product: `a * b / 1000`, rounded toward zero.
pub fn fx_mul(a: i64, b: i64) -> (r: i64)
    requires
        -FX_LIM <= a <= FX_LIM,
        -FX_LIM <= b <= FX_LIM,
    ensures
        r == fx_mul_s(a as int, b as int),
{
    proof {
        reveal(fx_mul_s);
        assert(-1_000_000_000_000_000_000 <= (a as int) * (b as int) <= 1_000_000_000_000_000_000)
            by (nonlinear_arith)
            requires
                -1_000_000_000 <= a as int <= 1_000_000_000,
                -1_000_000_000 <= b as int <= 1_000_000_000,
        ;
    }
    tdiv64(a * b, 1000)
}

/// Clamp `v` into `[lo, hi]`.
pub fn clip(v: i64, lo: i64, hi: i64) -> (r: i64)
    requires
        lo <= hi,
    ensures
        r == clip_s(v as int, lo as int, hi as int),
{
    if v < lo {
        lo
    } else if v > hi {
        hi
    } else {
        v
    }
}

} // verus!
