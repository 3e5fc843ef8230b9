//! The escape-radius solver.
//!
//! An orbit iterated with parameter magnitude `c_norm` is certain to diverge
//! once it leaves a disk of radius `R` with `R^2 - R >= c_norm`.  The solver
//! finds such an `R` by Newton's method on `f(R) = R^2 - R - c_norm` starting
//! from two, stopping once `f(R)` lands in `[0, NEWTON_TOL_RAW]`, and falls
//! back to the safe radius two whenever the iteration stalls on a flat
//! gradient or leaves the accepted band.

use crate::fixed::{fx_div_v, fx_mul_v, fx_rdiv, fx_sub_v, Fixed, FX_SCALE};
use vstd::prelude::*;

verus! {

/// How many Newton steps are attempted before giving up.
pub const NEWTON_STEPS: u32 = 20;

/// Acceptance band for the residual: one hundredth, in raw units.
pub const NEWTON_TOL_RAW: i64 = 42949672;

/// The raw residual `radius^2 - radius - c_norm`.
pub open spec fn delta_v(radius: int, c_norm: int) -> int {
    fx_sub_v(fx_sub_v(fx_mul_v(radius, radius), radius), c_norm)
}

/// The raw gradient `2 * radius - 1`.
pub open spec fn gradient_v(radius: int) -> int {
    fx_sub_v(fx_mul_v(2 * (FX_SCALE as int), radius), FX_SCALE as int)
}

/// The raw radius after at most `fuel` Newton steps: stop inside the
/// acceptance band, bail out to two on a flat or descending gradient, and
/// otherwise step by the quotient of residual and gradient.
pub open spec fn newton_iter_v(radius: int, c_norm: int, fuel: nat) -> int
    decreases fuel,
{
    if fuel == 0 {
        radius
    } else {
        let d = delta_v(radius, c_norm);
        if 0 <= d <= NEWTON_TOL_RAW as int {
            radius
        } else if gradient_v(radius) <= 0 {
            2 * (FX_SCALE as int)
        } else {
            newton_iter_v(fx_sub_v(radius, fx_div_v(d, gradient_v(radius))), c_norm, (fuel - 1) as nat)
        }
    }
}

/// The raw radius the solver returns: the Newton result if it lies in the
/// accepted band (nonnegative residual, at most two), else two.
pub open spec fn escape_radius_v(c_norm: int) -> int {
    let r = newton_iter_v(2 * (FX_SCALE as int), c_norm, NEWTON_STEPS as nat);
    if delta_v(r, c_norm) >= 0 && r <= 2 * (FX_SCALE as int) {
        r
    } else {
        2 * (FX_SCALE as int)
    }
}

/// Whenever the parameter magnitude is at most two, the returned radius
/// dominates it: `radius^2 - radius - c_norm >= 0` holds of the result, for
/// the fallback radius as well as for an accepted Newton solution.
pub proof fn lemma_escape_radius_dominates(c_norm: int)
    requires
        0 <= c_norm <= 2 * (FX_SCALE as int),
    ensures
        delta_v(escape_radius_v(c_norm), c_norm) >= 0,
{
    let two = 2 * (FX_SCALE as int);
    let r = newton_iter_v(two, c_norm, NEWTON_STEPS as nat);
    if !(delta_v(r, c_norm) >= 0 && r <= two) {
        let s = FX_SCALE as int;
        assert((2 * s) * (2 * s) == 0x4_0000_0000_0000_0000) by (nonlinear_arith)
            requires
                s == 0x1_0000_0000,
        ;
        assert(fx_rdiv(0x4_0000_0000_0000_0000, s) == 4 * s);
        assert(fx_mul_v(two, two) == 4 * s);
        assert(delta_v(two, c_norm) == 4 * s - two - c_norm);
    }
}

/// For a parameter magnitude of zero the Newton iteration settles just
/// above one within four steps, and its square is a positive escape disk.
pub proof fn lemma_escape_radius_at_zero()
    ensures
        escape_radius_v(0) == 4311810305,
        fx_mul_v(escape_radius_v(0), escape_radius_v(0)) > 0,
{
    assert(fx_mul_v(8589934592, 8589934592) == 17179869184);
    assert(delta_v(8589934592, 0) == 8589934592);
    assert(gradient_v(8589934592) == 12884901888);
    assert(fx_div_v(8589934592, 12884901888) == 2863311530);
    assert(fx_mul_v(5726623062, 5726623062) == 7635497417);
    assert(delta_v(5726623062, 0) == 1908874355);
    assert(gradient_v(5726623062) == 7158278828);
    assert(fx_div_v(1908874355, 7158278828) == 1145324612);
    assert(fx_mul_v(4581298450, 4581298450) == 4886718348);
    assert(delta_v(4581298450, 0) == 305419898);
    assert(gradient_v(4581298450) == 4867629604);
    assert(fx_div_v(305419898, 4867629604) == 269488145);
    assert(fx_mul_v(4311810305, 4311810305) == 4328719365);
    assert(delta_v(4311810305, 0) == 16909060);
    reveal_with_fuel(newton_iter_v, 6);
    assert(newton_iter_v(2 * (FX_SCALE as int), 0, NEWTON_STEPS as nat) == 4311810305);
}

/// Solve for the escape radius of an orbit whose parameter has magnitude
/// `c_norm`, never exceeding the safe radius two.
pub fn find_escape_radius(c_norm: Fixed) -> (r: Fixed)
    ensures
        r@ == escape_radius_v(c_norm@),
        r@ <= 2 * (FX_SCALE as int),
        delta_v(r@, c_norm@) >= 0 || r@ == 2 * (FX_SCALE as int),
{
    let two = Fixed::from_int(2);
    let mut radius = two;
    let mut idx: u32 = 0;
    while idx < NEWTON_STEPS
        invariant_except_break
            idx <= NEWTON_STEPS,
            two@ == 2 * (FX_SCALE as int),
            newton_iter_v(radius@, c_norm@, (NEWTON_STEPS - idx) as nat) == newton_iter_v(
                2 * (FX_SCALE as int),
                c_norm@,
                NEWTON_STEPS as nat,
            ),
        ensures
            radius@ == newton_iter_v(2 * (FX_SCALE as int), c_norm@, NEWTON_STEPS as nat),
        decreases NEWTON_STEPS - idx,
    {
        let ghost fuel = (NEWTON_STEPS - idx) as nat;
        let delta_r = radius.times(radius).minus(radius).minus(c_norm);
        if !delta_r.lt(Fixed::zero()) && delta_r.le(Fixed::from_raw(NEWTON_TOL_RAW)) {
            break ;
        }
        let gradient = two.times(radius).minus(Fixed::one());
        if gradient.le(Fixed::zero()) {
            radius = two;
            break ;
        }
        radius = radius.minus(delta_r.div_by(gradient));
        idx = idx + 1;
    }
    let delta_r = radius.times(radius).minus(radius).minus(c_norm);
    if !delta_r.lt(Fixed::zero()) && radius.le(two) {
        radius
    } else {
        two
    }
}

} // verus!
