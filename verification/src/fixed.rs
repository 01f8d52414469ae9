//! Fixed-point scalars.
//!
//! A real value `v` is represented by the integer `v * FX_ONE`. Products are
//! rescaled with a division that truncates toward zero, matching the rounding
//! a hardware float-to-integer cast would apply at the end of the pipeline.

use vstd::prelude::*;
use vstd::math::abs;
use vstd::arithmetic::div_mod::{lemma_div_is_ordered, lemma_div_multiples_vanish,
    lemma_fundamental_div_mod, lemma_mod_division_less_than_divisor};
use vstd::arithmetic::mul::lemma_mul_inequality;

verus! {

/// One unit in fixed-point representation.
pub const FX_ONE: i64 = 65536;

/// Division by `FX_ONE` that truncates toward zero (Euclidean division on
/// the magnitude, with the sign restored).
pub open spec fn fx_div_trunc(p: int) -> int {
    if p >= 0 {
        p / (FX_ONE as int)
    } else {
        -((-p) / (FX_ONE as int))
    }
}

/// The fixed-point product: multiply and rescale, truncating toward zero.
pub open spec fn fx_mul_spec(a: int, s: int) -> int {
    fx_div_trunc(a * s)
}

/// The magnitude of a truncating division is the divided magnitude.
pub proof fn lemma_fx_div_trunc_abs(p: int)
    ensures
        abs(fx_div_trunc(p)) == abs(p) as int / (FX_ONE as int),
{
}

/// A bound on the dividend gives a bound on the truncated quotient.
pub proof fn lemma_fx_div_trunc_bound(p: int, b: int)
    requires
        0 <= b,
        abs(p) <= b * (FX_ONE as int),
    ensures
        abs(fx_div_trunc(p)) <= b,
{
    lemma_fx_div_trunc_abs(p);
    lemma_div_is_ordered(abs(p) as int, b * (FX_ONE as int), FX_ONE as int);
    lemma_div_multiples_vanish(b, FX_ONE as int);
}

/// The magnitude of a product is the product of the magnitudes.
pub proof fn lemma_abs_mul(a: int, b: int)
    ensures
        abs(a * b) == abs(a) * abs(b),
{
    if a < 0 && b >= 0 {
        assert(a * b <= 0 && (-a) * b == -(a * b)) by (nonlinear_arith)
            requires a < 0, b >= 0;
    } else if a >= 0 && b < 0 {
        assert(a * b <= 0 && a * (-b) == -(a * b)) by (nonlinear_arith)
            requires a >= 0, b < 0;
    } else if a < 0 && b < 0 {
        assert(a * b >= 0 && (-a) * (-b) == a * b) by (nonlinear_arith)
            requires a < 0, b < 0;
    } else {
        assert(a * b >= 0) by (nonlinear_arith)
            requires a >= 0, b >= 0;
    }
}

/// Multiplying by one unit is the identity.
pub proof fn lemma_fx_mul_one(a: int)
    ensures
        fx_mul_spec(a, FX_ONE as int) == a,
{
    let f = FX_ONE as int;
    if a >= 0 {
        lemma_div_multiples_vanish(a, f);
    } else {
        assert(-(a * f) == (-a) * f) by (nonlinear_arith);
        lemma_div_multiples_vanish(-a, f);
    }
}

/// Multiplying by zero gives zero.
pub proof fn lemma_fx_mul_zero(a: int)
    ensures
        fx_mul_spec(a, 0) == 0,
{
}

/// A truncating division leaves less than one unit unaccounted for.
pub proof fn lemma_fx_div_trunc_close(x: int)
    ensures
        abs(x - (FX_ONE as int) * fx_div_trunc(x)) < FX_ONE as int,
{
    let f = FX_ONE as int;
    if x >= 0 {
        lemma_fundamental_div_mod(x, f);
        lemma_mod_division_less_than_divisor(x, f);
    } else {
        lemma_fundamental_div_mod(-x, f);
        lemma_mod_division_less_than_divisor(-x, f);
        assert(f * -((-x) / f) == -(f * ((-x) / f))) by (nonlinear_arith);
    }
}

/// The truncated quotient moves by at most the movement of the dividend,
/// with two units of rounding slack.
pub proof fn lemma_fx_div_trunc_lipschitz(x: int, y: int)
    ensures
        (FX_ONE as int) * abs(fx_div_trunc(x) - fx_div_trunc(y)) <= abs(x - y) + 2 * (
        FX_ONE as int),
{
    let f = FX_ONE as int;
    lemma_fx_div_trunc_close(x);
    lemma_fx_div_trunc_close(y);
    let dx = fx_div_trunc(x);
    let dy = fx_div_trunc(y);
    assert(f * (dx - dy) == f * dx - f * dy) by (nonlinear_arith);
    lemma_abs_mul(f, dx - dy);
}

/// The fixed-point product moves by at most the movement of each factor,
/// weighted by the other factor's magnitude, with two units of slack —
/// everything scaled up by one unit to stay in whole numbers.
pub proof fn lemma_fx_mul_lipschitz(a1: int, s1: int, a2: int, s2: int)
    ensures
        (FX_ONE as int) * abs(fx_mul_spec(a1, s1) - fx_mul_spec(a2, s2)) <= abs(a1) * abs(s1 - s2)
            + abs(s2) * abs(a1 - a2) + 2 * (FX_ONE as int),
{
    lemma_fx_div_trunc_lipschitz(a1 * s1, a2 * s2);
    assert(a1 * s1 - a2 * s2 == a1 * (s1 - s2) + s2 * (a1 - a2)) by (nonlinear_arith);
    lemma_abs_mul(a1, s1 - s2);
    lemma_abs_mul(s2, a1 - a2);
}

/// A unit-bounded factor never grows the other operand.
pub proof fn lemma_fx_mul_abs_le(a: int, s: int)
    requires
        abs(s) <= FX_ONE as int,
    ensures
        abs(fx_mul_spec(a, s)) <= abs(a),
{
    lemma_abs_mul(a, s);
    lemma_mul_inequality(abs(s) as int, FX_ONE as int, abs(a) as int);
    lemma_fx_div_trunc_bound(a * s, abs(a) as int);
}

/// The movement of one fixed-point product between two nearby parameter
/// sets, from a bound `ca` on the first factor, the parameter distance `d`,
/// and a unit-scaled bound `ea` on the first factor's own movement.
pub proof fn lemma_fx_mul_pair_delta(
    a1: int,
    s1: int,
    a2: int,
    s2: int,
    ca: int,
    d: int,
    ea: int,
)
    requires
        abs(a1) <= ca,
        abs(s2) <= FX_ONE as int,
        abs(s1 - s2) <= d,
        (FX_ONE as int) * abs(a1 - a2) <= ea,
    ensures
        (FX_ONE as int) * abs(fx_mul_spec(a1, s1) - fx_mul_spec(a2, s2)) <= ca * d + ea + 2 * (
        FX_ONE as int),
{
    lemma_fx_mul_lipschitz(a1, s1, a2, s2);
    lemma_mul_inequality(abs(a1) as int, ca, abs(s1 - s2) as int);
    lemma_mul_inequality(abs(s1 - s2) as int, d, ca);
    lemma_mul_inequality(abs(s2) as int, FX_ONE as int, abs(a1 - a2) as int);
}

/// Rescale a double-width fixed-point value down by one unit, truncating
/// toward zero.
pub fn fx_unscale(p: i64) -> (r: i64)
    requires
        abs(p as int) <= 0x4000_0000_0000_0000,
    ensures
        r == fx_div_trunc(p as int),
        abs(r as int) == abs(p as int) as int / (FX_ONE as int),
{
    proof {
        lemma_fx_div_trunc_abs(p as int);
    }
    if p < 0 {
        let mag: u64 = (-p) as u64;
        let q: u64 = mag / 65536;
        assert(q <= mag) by {
            assert(mag as int / 65536 <= mag as int) by (nonlinear_arith)
                requires mag >= 0;
        }
        -(q as i64)
    } else {
        let mag: u64 = p as u64;
        let q: u64 = mag / 65536;
        assert(q <= mag) by {
            assert(mag as int / 65536 <= mag as int) by (nonlinear_arith)
                requires mag >= 0;
        }
        q as i64
    }
}

/// The fixed-point product of a value and a unit-bounded factor (a sine,
/// cosine or projection entry). The result never exceeds the first operand
/// in magnitude.
pub fn fx_mul(a: i64, s: i64) -> (r: i64)
    requires
        abs(a as int) <= 0x4000_0000_0000,
        abs(s as int) <= FX_ONE as int,
    ensures
        r == fx_mul_spec(a as int, s as int),
        abs(r as int) <= abs(a as int),
{
    proof {
        lemma_abs_mul(a as int, s as int);
        lemma_mul_inequality(abs(s as int) as int, FX_ONE as int, abs(a as int) as int);
        assert(abs(a as int) * abs(s as int) == abs(s as int) * abs(a as int))
            by (nonlinear_arith);
    }
    let p: i64 = a * s;
    let r = fx_unscale(p);
    proof {
        lemma_fx_div_trunc_bound((a as int) * (s as int), abs(a as int) as int);
    }
    r
}

} // verus!
