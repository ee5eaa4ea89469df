//! Euler integration: positions advance by velocity times elapsed time.

use vstd::prelude::*;

use crate::fixed::COORD_LIMIT;
use crate::fixed::DT_LIMIT;
use crate::fixed::UNIT;
use crate::fixed::div_trunc;
use crate::fixed::div_trunc_i64;
use crate::fixed::lemma_div_trunc_bounds;
use crate::vec3::Vector3;
use crate::vec3::in_range;

verus! {

/// One integrated component: `p_i + v_i·dt / UNIT` with truncating
/// division, `dt` given in ticks of a thousandth of a second.
pub open spec fn advance_coord(pi: int, vi: int, dt: int) -> int {
    pi + div_trunc(vi * dt, UNIT as int)
}

/// The position `p` advanced by `v` times the elapsed time `dt`.
pub open spec fn advanced(p: Vector3, v: Vector3, dt: i64) -> Vector3 {
    Vector3 {
        x: advance_coord(p.x as int, v.x as int, dt as int) as i64,
        y: advance_coord(p.y as int, v.y as int, dt as int) as i64,
        z: advance_coord(p.z as int, v.z as int, dt as int) as i64,
    }
}

/// Advances `p` by `v * dt`. The contract pins every component of the
/// result to the integration formula.
pub fn integrate(p: Vector3, v: Vector3, dt: i64) -> (r: Vector3)
    requires
        in_range(p),
        in_range(v),
        0 <= dt <= DT_LIMIT,
    ensures
        r == advanced(p, v, dt),
{
    proof {
        assert(-COORD_LIMIT * DT_LIMIT <= v.x * dt <= COORD_LIMIT * DT_LIMIT && -COORD_LIMIT
            * DT_LIMIT <= v.y * dt <= COORD_LIMIT * DT_LIMIT && -COORD_LIMIT * DT_LIMIT <= v.z * dt
            <= COORD_LIMIT * DT_LIMIT) by (nonlinear_arith)
            requires
                -COORD_LIMIT <= v.x <= COORD_LIMIT,
                -COORD_LIMIT <= v.y <= COORD_LIMIT,
                -COORD_LIMIT <= v.z <= COORD_LIMIT,
                0 <= dt <= DT_LIMIT,
        ;
        lemma_div_trunc_bounds(v.x * dt, UNIT as int);
        lemma_div_trunc_bounds(v.y * dt, UNIT as int);
        lemma_div_trunc_bounds(v.z * dt, UNIT as int);
    }
    Vector3 {
        x: p.x + div_trunc_i64(v.x * dt, UNIT),
        y: p.y + div_trunc_i64(v.y * dt, UNIT),
        z: p.z + div_trunc_i64(v.z * dt, UNIT),
    }
}

/// What one frame of integration does to a (position, velocity) pair: the
/// position advances and the velocity is kept; a pair whose components are
/// out of range is skipped, never a fault.
pub open spec fn stepped(state: (Vector3, Vector3), dt: i64) -> (Vector3, Vector3) {
    if in_range(state.0) && in_range(state.1) {
        (advanced(state.0, state.1, dt), state.1)
    } else {
        state
    }
}

/// True when every component of `v` is at most `COORD_LIMIT` in magnitude.
pub fn check_in_range(v: &Vector3) -> (b: bool)
    ensures
        b == in_range(*v),
{
    -COORD_LIMIT <= v.x && v.x <= COORD_LIMIT && -COORD_LIMIT <= v.y && v.y <= COORD_LIMIT
        && -COORD_LIMIT <= v.z && v.z <= COORD_LIMIT
}

/// Advances every (position, velocity) pair by one frame, independently
/// and in place.
pub fn integrate_all(states: &mut Vec<(Vector3, Vector3)>, dt: i64)
    requires
        0 <= dt <= DT_LIMIT,
    ensures
        final(states)@.len() == old(states)@.len(),
        forall|j: int|
            0 <= j < old(states)@.len() ==> final(states)@[j] == stepped(
                #[trigger] old(states)@[j],
                dt,
            ),
{
    let ghost orig = states@;
    let n = states.len();
    let mut i: usize = 0;
    while i < n
        invariant
            i <= n,
            n == states@.len(),
            states@.len() == orig.len(),
            0 <= dt <= DT_LIMIT,
            forall|j: int| i <= j < n ==> states@[j] == orig[j],
            forall|j: int| 0 <= j < i ==> states@[j] == stepped(#[trigger] orig[j], dt),
        decreases n - i,
    {
        let (p, v) = states[i];
        if check_in_range(&p) && check_in_range(&v) {
            let np = integrate(p, v, dt);
            states[i] = (np, v);
        }
        i = i + 1;
    }
}

} // verus!
