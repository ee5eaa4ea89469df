//! Fixed-point three-component vectors and the elastic-reflection formula.

use vstd::prelude::*;

use crate::fixed::COORD_LIMIT;
use crate::fixed::UNIT;
use crate::fixed::div_trunc;
use crate::fixed::div_trunc_i64;
use crate::fixed::lemma_div_trunc_approx;
use crate::fixed::lemma_div_trunc_bounds;
use crate::fixed::lemma_div_trunc_exact;
use crate::fixed::lemma_div_trunc_of_multiple;

verus! {

/// A vector of three fixed-point components.
#[derive(Clone, Copy, PartialEq, Eq, Structural, Debug)]
pub struct Vector3 {
    pub x: i64,
    pub y: i64,
    pub z: i64,
}

/// The mathematical dot product of two vectors, in squared ticks.
pub open spec fn dot(a: Vector3, b: Vector3) -> int {
    a.x * b.x + a.y * b.y + a.z * b.z
}

/// Every component has magnitude at most `COORD_LIMIT`.
pub open spec fn in_range(v: Vector3) -> bool {
    &&& -COORD_LIMIT <= v.x <= COORD_LIMIT
    &&& -COORD_LIMIT <= v.y <= COORD_LIMIT
    &&& -COORD_LIMIT <= v.z <= COORD_LIMIT
}

/// Every component has magnitude at most `UNIT`, as any component of a
/// unit-length normal does once scaled to ticks.
pub open spec fn normal_in_range(n: Vector3) -> bool {
    &&& -UNIT <= n.x <= UNIT
    &&& -UNIT <= n.y <= UNIT
    &&& -UNIT <= n.z <= UNIT
}

/// The all-zero vector.
pub open spec fn zero_spec() -> Vector3 {
    Vector3 { x: 0, y: 0, z: 0 }
}

impl Vector3 {
    pub fn new(x: i64, y: i64, z: i64) -> (r: Vector3)
        ensures
            r == (Vector3 { x, y, z }),
    {
        Vector3 { x, y, z }
    }

    pub fn zero() -> (r: Vector3)
        ensures
            r == zero_spec(),
    {
        Vector3 { x: 0, y: 0, z: 0 }
    }
}

/// The dot product of two vectors whose components are bounded tightly
/// enough that the computation cannot overflow.
pub fn dot_product(a: Vector3, b: Vector3) -> (r: i64)
    requires
        in_range(a),
        in_range(b),
    ensures
        r == dot(a, b),
{
    proof {
        assert(a.x * b.x <= COORD_LIMIT * COORD_LIMIT && a.x * b.x >= -(COORD_LIMIT * COORD_LIMIT)
            && a.y * b.y <= COORD_LIMIT * COORD_LIMIT && a.y * b.y >= -(COORD_LIMIT * COORD_LIMIT)
            && a.z * b.z <= COORD_LIMIT * COORD_LIMIT && a.z * b.z >= -(COORD_LIMIT * COORD_LIMIT))
            by (nonlinear_arith)
            requires
                -COORD_LIMIT <= a.x <= COORD_LIMIT,
                -COORD_LIMIT <= a.y <= COORD_LIMIT,
                -COORD_LIMIT <= a.z <= COORD_LIMIT,
                -COORD_LIMIT <= b.x <= COORD_LIMIT,
                -COORD_LIMIT <= b.y <= COORD_LIMIT,
                -COORD_LIMIT <= b.z <= COORD_LIMIT,
        ;
    }
    a.x * b.x + a.y * b.y + a.z * b.z
}

/// True when every component of `n` is at most `UNIT` in magnitude.
pub fn check_normal_in_range(n: &Vector3) -> (b: bool)
    ensures
        b == normal_in_range(*n),
{
    -UNIT <= n.x && n.x <= UNIT && -UNIT <= n.y && n.y <= UNIT && -UNIT <= n.z && n.z <= UNIT
}

/// `n` has unit length once scaled to ticks: `n`·`n` equals `UNIT`².
pub open spec fn is_unit_normal(n: Vector3) -> bool {
    dot(n, n) == UNIT * UNIT
}

/// One component of the elastic reflection: `v_i - (2 (v·n) n_i) / UNIT²`,
/// with `d` standing for the dot product `v`·`n`.
pub open spec fn reflect_coord(vi: int, d: int, ni: int) -> int {
    vi - div_trunc(2 * d * ni, UNIT * UNIT)
}

/// The elastic reflection `v - 2 (v·n) n` of a velocity `v` across a
/// normal `n`, computed in ticks with truncating division.
pub open spec fn reflected(v: Vector3, n: Vector3) -> Vector3 {
    let d = dot(v, n);
    Vector3 {
        x: reflect_coord(v.x as int, d, n.x as int) as i64,
        y: reflect_coord(v.y as int, d, n.y as int) as i64,
        z: reflect_coord(v.z as int, d, n.z as int) as i64,
    }
}

/// The three divisions in `reflected(v, n)` are exact, so no rounding
/// occurs; true in particular of every axis-aligned unit normal.
pub open spec fn reflects_exactly(v: Vector3, n: Vector3) -> bool {
    let d = dot(v, n);
    &&& (2 * d * n.x) % (UNIT * UNIT) == 0
    &&& (2 * d * n.y) % (UNIT * UNIT) == 0
    &&& (2 * d * n.z) % (UNIT * UNIT) == 0
}

/// A component of a scaled unit normal is at most `UNIT` in magnitude.
pub proof fn lemma_unit_normal_in_range(n: Vector3)
    requires
        is_unit_normal(n),
    ensures
        normal_in_range(n),
{
    assert(-UNIT <= n.x <= UNIT && -UNIT <= n.y <= UNIT && -UNIT <= n.z <= UNIT)
        by (nonlinear_arith)
        requires
            n.x * n.x + n.y * n.y + n.z * n.z == UNIT * UNIT,
    ;
}

/// The reflection of `v` across `n`. The contract pins every component of
/// the result to the reflection formula.
pub fn reflect(v: Vector3, n: Vector3) -> (r: Vector3)
    requires
        in_range(v),
        normal_in_range(n),
    ensures
        r == reflected(v, n),
        -7 * COORD_LIMIT <= r.x <= 7 * COORD_LIMIT,
        -7 * COORD_LIMIT <= r.y <= 7 * COORD_LIMIT,
        -7 * COORD_LIMIT <= r.z <= 7 * COORD_LIMIT,
{
    proof {
        lemma_dot_with_normal_bounded(v, n);
    }
    let d = dot_product(v, n);
    proof {
        assert(-6 * COORD_LIMIT * UNIT * UNIT <= 2 * d * n.x <= 6 * COORD_LIMIT * UNIT * UNIT
            && -6 * COORD_LIMIT * UNIT * UNIT <= 2 * d * n.y <= 6 * COORD_LIMIT * UNIT * UNIT
            && -6 * COORD_LIMIT * UNIT * UNIT <= 2 * d * n.z <= 6 * COORD_LIMIT * UNIT * UNIT)
            by (nonlinear_arith)
            requires
                -3 * COORD_LIMIT * UNIT <= d <= 3 * COORD_LIMIT * UNIT,
                -UNIT <= n.x <= UNIT,
                -UNIT <= n.y <= UNIT,
                -UNIT <= n.z <= UNIT,
        ;
        lemma_div_trunc_bounds(2 * d * n.x, UNIT * UNIT);
        lemma_div_trunc_bounds(2 * d * n.y, UNIT * UNIT);
        lemma_div_trunc_bounds(2 * d * n.z, UNIT * UNIT);
    }
    let u2 = UNIT * UNIT;
    let rx = v.x - div_trunc_i64(2 * d * n.x, u2);
    let ry = v.y - div_trunc_i64(2 * d * n.y, u2);
    let rz = v.z - div_trunc_i64(2 * d * n.z, u2);
    Vector3 { x: rx, y: ry, z: rz }
}

/// The dot product of a bounded vector with a bounded normal stays small.
pub proof fn lemma_dot_with_normal_bounded(v: Vector3, n: Vector3)
    requires
        in_range(v),
        normal_in_range(n),
    ensures
        -3 * COORD_LIMIT * UNIT <= dot(v, n) <= 3 * COORD_LIMIT * UNIT,
{
    assert(-3 * COORD_LIMIT * UNIT <= v.x * n.x + v.y * n.y + v.z * n.z <= 3 * COORD_LIMIT
        * UNIT) by (nonlinear_arith)
        requires
            -COORD_LIMIT <= v.x <= COORD_LIMIT,
            -COORD_LIMIT <= v.y <= COORD_LIMIT,
            -COORD_LIMIT <= v.z <= COORD_LIMIT,
            -UNIT <= n.x <= UNIT,
            -UNIT <= n.y <= UNIT,
            -UNIT <= n.z <= UNIT,
    ;
}

/// Reflecting twice across the same unit normal gives back the original
/// velocity, whenever neither reflection rounds.
///
/// The divisions of the first reflection are exact by hypothesis; the
/// proof shows the second reflection's divisions are then exact as well.
/// A normal whose reflection rounds (one not axis-aligned, such as the
/// scaled unit vector with components three fifths and four fifths of
/// `UNIT`) is excluded: for it the double reflection may differ from the
/// original by the rounding error.
pub proof fn lemma_reflect_involution(v: Vector3, n: Vector3)
    requires
        in_range(v),
        is_unit_normal(n),
        reflects_exactly(v, n),
    ensures
        reflected(reflected(v, n), n) == v,
{
    lemma_unit_normal_in_range(n);
    let u2 = UNIT * UNIT;
    let d = dot(v, n);
    lemma_dot_with_normal_bounded(v, n);
    let ex = div_trunc(2 * d * n.x, u2);
    let ey = div_trunc(2 * d * n.y, u2);
    let ez = div_trunc(2 * d * n.z, u2);
    lemma_div_trunc_exact(2 * d * n.x, u2);
    lemma_div_trunc_exact(2 * d * n.y, u2);
    lemma_div_trunc_exact(2 * d * n.z, u2);
    // Each correction term is small enough that the intermediate vector's
    // components fit their machine type exactly.
    assert(-6 * COORD_LIMIT <= ex <= 6 * COORD_LIMIT && -6 * COORD_LIMIT <= ey <= 6 * COORD_LIMIT
        && -6 * COORD_LIMIT <= ez <= 6 * COORD_LIMIT) by (nonlinear_arith)
        requires
            u2 == UNIT * UNIT,
            UNIT == 1000,
            COORD_LIMIT == 1_000_000_000,
            u2 * ex == 2 * d * n.x,
            u2 * ey == 2 * d * n.y,
            u2 * ez == 2 * d * n.z,
            -3 * COORD_LIMIT * UNIT <= d <= 3 * COORD_LIMIT * UNIT,
            -UNIT <= n.x <= UNIT,
            -UNIT <= n.y <= UNIT,
            -UNIT <= n.z <= UNIT,
    ;
    let r1 = reflected(v, n);
    assert(r1.x == v.x - ex && r1.y == v.y - ey && r1.z == v.z - ez);
    // The corrections project back onto the normal exactly twice the dot
    // product, so the reflected vector's dot product with `n` is `-d`.
    let d1 = dot(r1, n);
    assert((v.x - ex) * n.x == v.x * n.x - ex * n.x) by (nonlinear_arith);
    assert((v.y - ey) * n.y == v.y * n.y - ey * n.y) by (nonlinear_arith);
    assert((v.z - ez) * n.z == v.z * n.z - ez * n.z) by (nonlinear_arith);
    let s = ex * n.x + ey * n.y + ez * n.z;
    assert(d1 == d - s);
    assert(u2 * (ex * n.x) == 2 * d * (n.x * n.x)) by (nonlinear_arith)
        requires
            u2 * ex == 2 * d * n.x,
    ;
    assert(u2 * (ey * n.y) == 2 * d * (n.y * n.y)) by (nonlinear_arith)
        requires
            u2 * ey == 2 * d * n.y,
    ;
    assert(u2 * (ez * n.z) == 2 * d * (n.z * n.z)) by (nonlinear_arith)
        requires
            u2 * ez == 2 * d * n.z,
    ;
    assert(u2 * s == u2 * (2 * d)) by (nonlinear_arith)
        requires
            s == ex * n.x + ey * n.y + ez * n.z,
            u2 * (ex * n.x) == 2 * d * (n.x * n.x),
            u2 * (ey * n.y) == 2 * d * (n.y * n.y),
            u2 * (ez * n.z) == 2 * d * (n.z * n.z),
            n.x * n.x + n.y * n.y + n.z * n.z == u2,
    ;
    assert(s == 2 * d) by (nonlinear_arith)
        requires
            u2 * s == u2 * (2 * d),
            u2 > 0,
    ;
    assert(d1 == -d);
    // The second reflection divides the negated products, again exactly,
    // and so subtracts the negated corrections.
    assert(2 * d1 * n.x == (-ex) * u2 && 2 * d1 * n.y == (-ey) * u2 && 2 * d1 * n.z == (-ez)
        * u2) by (nonlinear_arith)
        requires
            d1 == -d,
            u2 * ex == 2 * d * n.x,
            u2 * ey == 2 * d * n.y,
            u2 * ez == 2 * d * n.z,
    ;
    lemma_div_trunc_of_multiple(-ex, u2);
    lemma_div_trunc_of_multiple(-ey, u2);
    lemma_div_trunc_of_multiple(-ez, u2);
    let r2 = reflected(r1, n);
    assert(r2.x == v.x && r2.y == v.y && r2.z == v.z);
}

/// Reflecting twice across the same unit normal lands within a few
/// thousandths of a unit of the original velocity: each component of the
/// double reflection differs from the original by at most seven ticks,
/// the accumulated rounding of the six truncating divisions.
pub proof fn lemma_reflect_involution_approx(v: Vector3, n: Vector3)
    requires
        in_range(v),
        is_unit_normal(n),
    ensures
        -7 <= reflected(reflected(v, n), n).x - v.x <= 7,
        -7 <= reflected(reflected(v, n), n).y - v.y <= 7,
        -7 <= reflected(reflected(v, n), n).z - v.z <= 7,
{
    lemma_unit_normal_in_range(n);
    lemma_dot_with_normal_bounded(v, n);
    let u2 = UNIT * UNIT;
    let d = dot(v, n);
    let ex = div_trunc(2 * d * n.x, u2);
    let ey = div_trunc(2 * d * n.y, u2);
    let ez = div_trunc(2 * d * n.z, u2);
    lemma_div_trunc_approx(2 * d * n.x, u2);
    lemma_div_trunc_approx(2 * d * n.y, u2);
    lemma_div_trunc_approx(2 * d * n.z, u2);
    // How far each first-round division landed from its exact dividend.
    let ax = u2 * ex - 2 * d * n.x;
    let ay = u2 * ey - 2 * d * n.y;
    let az = u2 * ez - 2 * d * n.z;
    // The corrections are small, so the intermediate vector's components
    // fit their machine type exactly.
    assert(-7 * COORD_LIMIT <= ex <= 7 * COORD_LIMIT && -7 * COORD_LIMIT <= ey <= 7 * COORD_LIMIT
        && -7 * COORD_LIMIT <= ez <= 7 * COORD_LIMIT) by (nonlinear_arith)
        requires
            u2 == UNIT * UNIT,
            UNIT == 1000,
            COORD_LIMIT == 1_000_000_000,
            u2 * ex == 2 * d * n.x + ax,
            u2 * ey == 2 * d * n.y + ay,
            u2 * ez == 2 * d * n.z + az,
            -u2 < ax < u2,
            -u2 < ay < u2,
            -u2 < az < u2,
            -3 * COORD_LIMIT * UNIT <= d <= 3 * COORD_LIMIT * UNIT,
            -UNIT <= n.x <= UNIT,
            -UNIT <= n.y <= UNIT,
            -UNIT <= n.z <= UNIT,
    ;
    let r1 = reflected(v, n);
    assert(r1.x == v.x - ex && r1.y == v.y - ey && r1.z == v.z - ez);
    let d1 = dot(r1, n);
    assert((v.x - ex) * n.x == v.x * n.x - ex * n.x) by (nonlinear_arith);
    assert((v.y - ey) * n.y == v.y * n.y - ey * n.y) by (nonlinear_arith);
    assert((v.z - ez) * n.z == v.z * n.z - ez * n.z) by (nonlinear_arith);
    let s = ex * n.x + ey * n.y + ez * n.z;
    assert(d1 == d - s);
    assert(u2 * (ex * n.x) == 2 * d * (n.x * n.x) + ax * n.x) by (nonlinear_arith)
        requires
            u2 * ex == 2 * d * n.x + ax,
    ;
    assert(u2 * (ey * n.y) == 2 * d * (n.y * n.y) + ay * n.y) by (nonlinear_arith)
        requires
            u2 * ey == 2 * d * n.y + ay,
    ;
    assert(u2 * (ez * n.z) == 2 * d * (n.z * n.z) + az * n.z) by (nonlinear_arith)
        requires
            u2 * ez == 2 * d * n.z + az,
    ;
    let t = ax * n.x + ay * n.y + az * n.z;
    assert(u2 * s == u2 * (2 * d) + t) by (nonlinear_arith)
        requires
            s == ex * n.x + ey * n.y + ez * n.z,
            t == ax * n.x + ay * n.y + az * n.z,
            u2 * (ex * n.x) == 2 * d * (n.x * n.x) + ax * n.x,
            u2 * (ey * n.y) == 2 * d * (n.y * n.y) + ay * n.y,
            u2 * (ez * n.z) == 2 * d * (n.z * n.z) + az * n.z,
            n.x * n.x + n.y * n.y + n.z * n.z == u2,
    ;
    assert(-3 * u2 * UNIT <= t <= 3 * u2 * UNIT) by (nonlinear_arith)
        requires
            t == ax * n.x + ay * n.y + az * n.z,
            -u2 < ax < u2,
            -u2 < ay < u2,
            -u2 < az < u2,
            -UNIT <= n.x <= UNIT,
            -UNIT <= n.y <= UNIT,
            -UNIT <= n.z <= UNIT,
            u2 == UNIT * UNIT,
            UNIT == 1000,
    ;
    // The reflected dot product is the negated one, up to the divisions'
    // rounding.
    let dd = d1 + d;
    assert(u2 * dd == -t) by (nonlinear_arith)
        requires
            d1 == d - s,
            dd == d1 + d,
            u2 * s == u2 * (2 * d) + t,
    ;
    assert(-3 * UNIT <= dd <= 3 * UNIT) by (nonlinear_arith)
        requires
            u2 * dd == -t,
            -3 * u2 * UNIT <= t <= 3 * u2 * UNIT,
            u2 == UNIT * UNIT,
            UNIT == 1000,
    ;
    // Second round of divisions.
    let fx = div_trunc(2 * d1 * n.x, u2);
    let fy = div_trunc(2 * d1 * n.y, u2);
    let fz = div_trunc(2 * d1 * n.z, u2);
    lemma_div_trunc_approx(2 * d1 * n.x, u2);
    lemma_div_trunc_approx(2 * d1 * n.y, u2);
    lemma_div_trunc_approx(2 * d1 * n.z, u2);
    let bx = u2 * fx - 2 * d1 * n.x;
    let by = u2 * fy - 2 * d1 * n.y;
    let bz = u2 * fz - 2 * d1 * n.z;
    // Each second-round correction cancels the first-round one to within
    // seven ticks.
    assert(-7 <= fx + ex <= 7 && -7 <= fy + ey <= 7 && -7 <= fz + ez <= 7) by (nonlinear_arith)
        requires
            u2 * fx == 2 * d1 * n.x + bx,
            u2 * fy == 2 * d1 * n.y + by,
            u2 * fz == 2 * d1 * n.z + bz,
            u2 * ex == 2 * d * n.x + ax,
            u2 * ey == 2 * d * n.y + ay,
            u2 * ez == 2 * d * n.z + az,
            d1 == -d + dd,
            -3 * UNIT <= dd <= 3 * UNIT,
            -u2 < ax < u2,
            -u2 < ay < u2,
            -u2 < az < u2,
            -u2 < bx < u2,
            -u2 < by < u2,
            -u2 < bz < u2,
            -UNIT <= n.x <= UNIT,
            -UNIT <= n.y <= UNIT,
            -UNIT <= n.z <= UNIT,
            u2 == UNIT * UNIT,
            UNIT == 1000,
    ;
    let r2 = reflected(r1, n);
    assert(r2.x == r1.x - fx && r2.y == r1.y - fy && r2.z == r1.z - fz);
    assert(r2.x - v.x == -(ex + fx) && r2.y - v.y == -(ey + fy) && r2.z - v.z == -(ez + fz));
}

/// `n` points along one coordinate axis with unit length in ticks.
pub open spec fn is_axis_normal(n: Vector3) -> bool {
    ||| ((n.x == UNIT || n.x == -UNIT) && n.y == 0 && n.z == 0)
    ||| (n.x == 0 && (n.y == UNIT || n.y == -UNIT) && n.z == 0)
    ||| (n.x == 0 && n.y == 0 && (n.z == UNIT || n.z == -UNIT))
}

/// An axis-aligned unit normal is a unit normal across which every
/// reflection is exact, so the involution law applies to it.
pub proof fn lemma_axis_normal_reflects_exactly(v: Vector3, n: Vector3)
    requires
        is_axis_normal(n),
    ensures
        is_unit_normal(n),
        reflects_exactly(v, n),
{
    let u2 = UNIT * UNIT;
    let d = dot(v, n);
    assert(n.x * n.x + n.y * n.y + n.z * n.z == u2) by (nonlinear_arith)
        requires
            is_axis_normal(n),
            u2 == UNIT * UNIT,
    ;
    lemma_div_trunc_of_multiple(0, u2);
    if n.y == 0 && n.z == 0 {
        assert(2 * d * n.x == (2 * v.x) * u2) by (nonlinear_arith)
            requires
                d == v.x * n.x + v.y * n.y + v.z * n.z,
                n.x == UNIT || n.x == -UNIT,
                n.y == 0 && n.z == 0,
                u2 == UNIT * UNIT,
        ;
        lemma_div_trunc_of_multiple(2 * v.x as int, u2);
    } else if n.x == 0 && n.z == 0 {
        assert(2 * d * n.y == (2 * v.y) * u2) by (nonlinear_arith)
            requires
                d == v.x * n.x + v.y * n.y + v.z * n.z,
                n.y == UNIT || n.y == -UNIT,
                n.x == 0 && n.z == 0,
                u2 == UNIT * UNIT,
        ;
        lemma_div_trunc_of_multiple(2 * v.y as int, u2);
    } else {
        assert(2 * d * n.z == (2 * v.z) * u2) by (nonlinear_arith)
            requires
                d == v.x * n.x + v.y * n.y + v.z * n.z,
                n.z == UNIT || n.z == -UNIT,
                n.x == 0 && n.y == 0,
                u2 == UNIT * UNIT,
        ;
        lemma_div_trunc_of_multiple(2 * v.z as int, u2);
    }
}

/// Reflecting across an axis-aligned unit normal flips the component along
/// that axis and leaves the other two unchanged.
pub proof fn lemma_axis_reflection_flips_component(v: Vector3, n: Vector3)
    requires
        in_range(v),
        is_axis_normal(n),
    ensures
        n.x != 0 ==> reflected(v, n) == (Vector3 { x: (-v.x) as i64, y: v.y, z: v.z }),
        n.y != 0 ==> reflected(v, n) == (Vector3 { x: v.x, y: (-v.y) as i64, z: v.z }),
        n.z != 0 ==> reflected(v, n) == (Vector3 { x: v.x, y: v.y, z: (-v.z) as i64 }),
{
    let u2 = UNIT * UNIT;
    let d = dot(v, n);
    lemma_div_trunc_of_multiple(0, u2);
    if n.y == 0 && n.z == 0 {
        assert(2 * d * n.x == (2 * v.x) * u2) by (nonlinear_arith)
            requires
                d == v.x * n.x + v.y * n.y + v.z * n.z,
                n.x == UNIT || n.x == -UNIT,
                n.y == 0 && n.z == 0,
                u2 == UNIT * UNIT,
        ;
        lemma_div_trunc_of_multiple(2 * v.x as int, u2);
    } else if n.x == 0 && n.z == 0 {
        assert(2 * d * n.y == (2 * v.y) * u2) by (nonlinear_arith)
            requires
                d == v.x * n.x + v.y * n.y + v.z * n.z,
                n.y == UNIT || n.y == -UNIT,
                n.x == 0 && n.z == 0,
                u2 == UNIT * UNIT,
        ;
        lemma_div_trunc_of_multiple(2 * v.y as int, u2);
    } else {
        assert(2 * d * n.z == (2 * v.z) * u2) by (nonlinear_arith)
            requires
                d == v.x * n.x + v.y * n.y + v.z * n.z,
                n.z == UNIT || n.z == -UNIT,
                n.x == 0 && n.y == 0,
                u2 == UNIT * UNIT,
        ;
        lemma_div_trunc_of_multiple(2 * v.z as int, u2);
    }
}

} // verus!
