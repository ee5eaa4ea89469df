//! Fixed-point scale constants and truncating division, with the laws the
//! reflection and integration proofs rest on.

use vstd::prelude::*;
use vstd::arithmetic::div_mod::lemma_div_of0;
use vstd::arithmetic::div_mod::lemma_div_nonincreasing;
use vstd::arithmetic::div_mod::lemma_div_pos_is_pos;
use vstd::arithmetic::div_mod::lemma_fundamental_div_mod;
use vstd::arithmetic::div_mod::lemma_fundamental_div_mod_converse_div;
use vstd::arithmetic::div_mod::lemma_fundamental_div_mod_converse_mod;

verus! {

/// Number of fixed-point ticks in one world unit (and in one second).
pub const UNIT: i64 = 1000;

/// Largest magnitude, in ticks, that a position or velocity component
/// handled by the library may have (one million world units).
pub const COORD_LIMIT: i64 = 1_000_000_000;

/// Largest frame duration accepted, in ticks (one thousand seconds).
pub const DT_LIMIT: i64 = 1_000_000;

/// Division that rounds toward zero, the rounding the executable code uses.
pub open spec fn div_trunc(a: int, d: int) -> int
    recommends
        d > 0,
{
    if a >= 0 {
        a / d
    } else {
        -((-a) / d)
    }
}

/// The quotient keeps the dividend's sign and its magnitude never exceeds
/// the dividend's.
pub proof fn lemma_div_trunc_bounds(a: int, d: int)
    requires
        0 < d,
    ensures
        a >= 0 ==> 0 <= div_trunc(a, d) <= a,
        a < 0 ==> a <= div_trunc(a, d) <= 0,
{
    if a >= 0 {
        lemma_div_pos_is_pos(a, d);
        lemma_div_nonincreasing(a, d);
    } else {
        lemma_div_pos_is_pos(-a, d);
        lemma_div_nonincreasing(-a, d);
    }
}

/// When `d` divides `a` exactly, multiplying the truncated quotient by `d`
/// recovers `a`.
pub proof fn lemma_div_trunc_exact(a: int, d: int)
    requires
        0 < d,
        a % d == 0,
    ensures
        d * div_trunc(a, d) == a,
{
    lemma_fundamental_div_mod(a, d);
    if a < 0 {
        let q = a / d;
        assert((-q) * d == -(d * q)) by (nonlinear_arith);
        assert(-a == (-q) * d + 0);
        lemma_fundamental_div_mod_converse_div(-a, d, -q, 0);
    }
}

/// Truncating division recovers the factor of an exact multiple.
pub proof fn lemma_div_trunc_of_multiple(e: int, d: int)
    requires
        0 < d,
    ensures
        div_trunc(e * d, d) == e,
        (e * d) % d == 0,
{
    lemma_fundamental_div_mod_converse_mod(e * d, d, e, 0);
    if e >= 0 {
        assert(e * d >= 0) by (nonlinear_arith)
            requires
                e >= 0,
                d > 0,
        ;
        lemma_fundamental_div_mod_converse_div(e * d, d, e, 0);
    } else {
        assert(e * d < 0) by (nonlinear_arith)
            requires
                e < 0,
                d > 0,
        ;
        assert(-(e * d) == (-e) * d) by (nonlinear_arith);
        lemma_fundamental_div_mod_converse_div((-e) * d, d, -e, 0);
    }
}

/// Truncating division misses its dividend by less than one divisor:
/// multiplying the quotient back lands within `d` of `a`.
pub proof fn lemma_div_trunc_approx(a: int, d: int)
    requires
        0 < d,
    ensures
        -d < d * div_trunc(a, d) - a < d,
{
    lemma_fundamental_div_mod(a, d);
    if a < 0 {
        lemma_fundamental_div_mod(-a, d);
        let q = (-a) / d;
        assert(d * (-q) == -(d * q)) by (nonlinear_arith);
    }
}

/// Truncating division of `a` by positive `d`, total on all `i64`
/// dividends.
pub fn div_trunc_i64(a: i64, d: i64) -> (r: i64)
    requires
        0 < d,
    ensures
        r == div_trunc(a as int, d as int),
{
    proof {
        lemma_div_trunc_bounds(a as int, d as int);
        if a == 0 {
            lemma_div_of0(d as int);
        }
    }
    let r_opt = a.checked_div(d);
    match r_opt {
        Some(q) => q,
        None => 0,
    }
}

} // verus!
