//! Motion planning for animated cursor movement.
//!
//! A motion plan is a finite sequence of screen points interpolated
//! between a start position and a target position.  Step `i` of a plan
//! with `steps` steps lies at `start + trunc((target - start) * i / steps)`
//! on each axis, where `trunc` is division truncating toward zero.  The
//! plan deliberately begins at the start position and stops short of the
//! target; the dispatcher issues one final direct move to the exact
//! target after consuming the plan.

use vstd::prelude::*;

use vstd::arithmetic::div_mod::{
    lemma_basic_div, lemma_div_is_ordered, lemma_div_multiples_vanish, lemma_div_pos_is_pos,
};
use vstd::arithmetic::mul::{lemma_mul_inequality, lemma_mul_is_commutative};

verus! {

/// Integer division of `a` by `b` truncating toward zero, for `b > 0`.
pub open spec fn div_toward_zero(a: int, b: int) -> int {
    if a >= 0 {
        a / b
    } else {
        -((-a) / b)
    }
}

/// The coordinate of step `i` of a motion plan on one axis.
pub open spec fn plan_coord(start: int, target: int, i: int, steps: int) -> int {
    start + div_toward_zero((target - start) * i, steps)
}

/// The offset `trunc(delta * i / steps)` never overshoots the full
/// displacement `delta` and never points away from it.
pub proof fn lemma_offset_bounds(delta: int, i: int, steps: int)
    requires
        0 <= i < steps,
    ensures
        delta >= 0 ==> 0 <= div_toward_zero(delta * i, steps) <= delta,
        delta < 0 ==> delta <= div_toward_zero(delta * i, steps) <= 0,
{
    if delta >= 0 {
        lemma_mul_inequality(0, delta, i);
        assert(0 * i == 0) by (nonlinear_arith);
        lemma_div_pos_is_pos(delta * i, steps);
        lemma_mul_inequality(i, steps, delta);
        lemma_mul_is_commutative(delta, i);
        lemma_mul_is_commutative(delta, steps);
        lemma_div_is_ordered(delta * i, delta * steps, steps);
        lemma_div_multiples_vanish(delta, steps);
        lemma_mul_is_commutative(steps, delta);
    } else {
        let mag = -delta;
        assert((-delta) * i == -(delta * i)) by (nonlinear_arith);
        lemma_mul_inequality(0, mag, i);
        assert(0 * i == 0) by (nonlinear_arith);
        lemma_div_pos_is_pos(mag * i, steps);
        lemma_mul_inequality(i, steps, mag);
        lemma_mul_is_commutative(mag, i);
        lemma_mul_is_commutative(mag, steps);
        lemma_div_is_ordered(mag * i, mag * steps, steps);
        lemma_div_multiples_vanish(mag, steps);
        lemma_mul_is_commutative(steps, mag);
    }
}

/// Every step of a plan lies between the start and the target on each axis.
pub proof fn lemma_plan_coord_in_range(start: int, target: int, i: int, steps: int)
    requires
        0 <= i < steps,
    ensures
        start <= target ==> start <= plan_coord(start, target, i, steps) <= target,
        target <= start ==> target <= plan_coord(start, target, i, steps) <= start,
{
    lemma_offset_bounds(target - start, i, steps);
}

/// A plan with zero displacement stays at the start: every step of
/// `plan(p, p, steps)` equals `p`.
pub proof fn lemma_plan_zero_displacement(p: int, i: int, steps: int)
    requires
        0 <= i < steps,
    ensures
        plan_coord(p, p, i, steps) == p,
{
    assert(0 * i == 0) by (nonlinear_arith);
    lemma_basic_div(0, steps);
}

/// Step 0 of any plan is exactly the start position.
pub proof fn lemma_plan_starts_at_start(start: int, target: int, steps: int)
    requires
        1 <= steps,
    ensures
        plan_coord(start, target, 0, steps) == start,
{
    assert((target - start) * 0 == 0) by (nonlinear_arith);
    lemma_basic_div(0, steps);
}

/// Plans never move backward: along an axis whose target is at or below
/// the start the step coordinates are non-increasing, and along an axis
/// whose target is at or above the start they are non-decreasing.
pub proof fn lemma_plan_coord_monotone(start: int, target: int, i: int, j: int, steps: int)
    requires
        0 <= i <= j < steps,
    ensures
        target <= start ==> plan_coord(start, target, j, steps) <= plan_coord(
            start,
            target,
            i,
            steps,
        ),
        start <= target ==> plan_coord(start, target, i, steps) <= plan_coord(
            start,
            target,
            j,
            steps,
        ),
{
    let delta = target - start;
    if delta >= 0 {
        lemma_mul_inequality(0, delta, i);
        assert(0 * i == 0) by (nonlinear_arith);
        lemma_mul_inequality(0, delta, j);
        assert(0 * j == 0) by (nonlinear_arith);
        lemma_mul_inequality(i, j, delta);
        lemma_mul_is_commutative(delta, i);
        lemma_mul_is_commutative(delta, j);
        lemma_div_is_ordered(delta * i, delta * j, steps);
    } else {
        let mag = -delta;
        assert((-delta) * i == -(delta * i)) by (nonlinear_arith);
        assert((-delta) * j == -(delta * j)) by (nonlinear_arith);
        lemma_mul_inequality(0, mag, i);
        assert(0 * i == 0) by (nonlinear_arith);
        lemma_mul_inequality(0, mag, j);
        assert(0 * j == 0) by (nonlinear_arith);
        lemma_mul_inequality(i, j, mag);
        lemma_mul_is_commutative(mag, i);
        lemma_mul_is_commutative(mag, j);
        lemma_div_is_ordered(mag * i, mag * j, steps);
    }
}

/// One interpolated coordinate of a motion plan.
fn interp_coord(start: i32, target: i32, i: usize, steps: usize) -> (r: i32)
    requires
        i < steps,
    ensures
        r as int == plan_coord(start as int, target as int, i as int, steps as int),
{
    proof {
        lemma_offset_bounds(target as int - start as int, i as int, steps as int);
    }
    let delta: i64 = target as i64 - start as i64;
    if delta >= 0 {
        assert((delta as u128) * (i as u128) <= 0xFFFF_FFFFu128
            * 0xFFFF_FFFF_FFFF_FFFFu128) by (nonlinear_arith)
            requires
                (delta as u128) <= 0xFFFF_FFFFu128,
                (i as u128) <= 0xFFFF_FFFF_FFFF_FFFFu128,
        ;
        let prod: u128 = (delta as u128) * (i as u128);
        let q: u128 = prod / (steps as u128);
        assert(q as int == div_toward_zero((target as int - start as int) * (i as int), steps as int));
        let off: i64 = q as i64;
        (start as i64 + off) as i32
    } else {
        let neg: i64 = -delta;
        assert((neg as u128) * (i as u128) <= 0xFFFF_FFFFu128
            * 0xFFFF_FFFF_FFFF_FFFFu128) by (nonlinear_arith)
            requires
                (neg as u128) <= 0xFFFF_FFFFu128,
                (i as u128) <= 0xFFFF_FFFF_FFFF_FFFFu128,
        ;
        let prod: u128 = (neg as u128) * (i as u128);
        let q: u128 = prod / (steps as u128);
        proof {
            assert((-(delta as int)) * (i as int) == -((delta as int) * (i as int)))
                by (nonlinear_arith);
        }
        assert(q as int == -div_toward_zero(
            (target as int - start as int) * (i as int),
            steps as int,
        ));
        let off: i64 = q as i64;
        (start as i64 - off) as i32
    }
}

/// Calculate smooth mouse movement steps.
///
/// Returns exactly `steps` points; point `i` sits at
/// `start + trunc(displacement * i / steps)` per axis, so the sequence
/// begins at the current position and approaches, without necessarily
/// reaching, the target.  Callers must supply `steps >= 1`.
pub fn calculate_smooth_movement(
    current_x: i32,
    current_y: i32,
    target_x: i32,
    target_y: i32,
    steps: usize,
) -> (r: Vec<(i32, i32)>)
    requires
        1 <= steps,
    ensures
        r@.len() == steps,
        forall|i: int|
            0 <= i < steps ==> (#[trigger] r@[i]).0 as int == plan_coord(
                current_x as int,
                target_x as int,
                i,
                steps as int,
            ),
        forall|i: int|
            0 <= i < steps ==> (#[trigger] r@[i]).1 as int == plan_coord(
                current_y as int,
                target_y as int,
                i,
                steps as int,
            ),
{
    let mut r: Vec<(i32, i32)> = Vec::new();
    let mut i: usize = 0;
    while i < steps
        invariant
            i <= steps,
            r@.len() == i,
            forall|k: int|
                0 <= k < i ==> (#[trigger] r@[k]).0 as int == plan_coord(
                    current_x as int,
                    target_x as int,
                    k,
                    steps as int,
                ),
            forall|k: int|
                0 <= k < i ==> (#[trigger] r@[k]).1 as int == plan_coord(
                    current_y as int,
                    target_y as int,
                    k,
                    steps as int,
                ),
        decreases steps - i,
    {
        let nx = interp_coord(current_x, target_x, i, steps);
        let ny = interp_coord(current_y, target_y, i, steps);
        r.push((nx, ny));
        i = i + 1;
    }
    r
}

/// True when the pair (x, y) lies inside the screen rectangle from the
/// origin to (max_x, max_y), both bounds inclusive.
pub fn validate_coordinates(x: i32, y: i32, max_x: i32, max_y: i32) -> (r: bool)
    ensures
        r == (x >= 0 && y >= 0 && x <= max_x && y <= max_y),
{
    x >= 0 && y >= 0 && x <= max_x && y <= max_y
}

} // verus!
