//! The integer power of a vector, by repeated squaring. The products
//! themselves are floating-point work done by the caller; what is decided
//! here is which of them to form, and in which order.
use vstd::prelude::*;
use crate::lanes::{is_nan, EXPONENT_BITS, FRACTION_BITS};
use crate::vec4f::Vec4f;

verus! {

/// The quiet NaN that stands for a power with no defined exponent.
pub const QUIET_NAN: u32 = 0x7FC0_0100;

/// The encoding of one.
pub const ONE: u32 = 0x3F80_0000;

/// How a vector is raised to an `i32` exponent.
#[derive(Clone, Copy, Debug, PartialEq, Eq, Structural)]
pub enum PowPlan {
    /// The exponent has no negation in `i32`: the result is the quiet NaN in
    /// every lane.
    Undefined,
    /// The lanes raised to this non-negative exponent.
    Direct(u32),
    /// One divided by the lanes raised to this positive exponent.
    Reciprocal(u32),
}

/// One round of repeated squaring, taken on the exponent still to apply.
#[derive(Clone, Copy, Debug, PartialEq, Eq, Structural)]
pub struct PowStep {
    /// Multiply the running product by the current power.
    pub multiply: bool,
    /// The exponent still to apply after this round.
    pub rest: u32,
    /// Square the current power and take another round; where this is
    /// false the running product is the result.
    pub square: bool,
}

/// The vector whose lanes all hold the quiet NaN.
pub fn nan_vec() -> (r: Vec4f)
    ensures
        r@ == seq![QUIET_NAN, QUIET_NAN, QUIET_NAN, QUIET_NAN],
        is_nan(QUIET_NAN),
{
    assert(0x7FC0_0100u32 & 0x7F80_0000u32 == 0x7F80_0000u32) by (bit_vector);
    assert(0x7FC0_0100u32 & 0x007F_FFFFu32 != 0) by (bit_vector);
    Vec4f::from_scalar(QUIET_NAN)
}

/// One in every lane: the running product before the first round, and the
/// result of the power zero.
pub fn pow_start() -> (r: Vec4f)
    ensures
        r@ == seq![ONE, ONE, ONE, ONE],
{
    Vec4f::from_scalar(ONE)
}

/// How to raise a vector to the power `n`: directly for `n` of zero or more,
/// as a reciprocal for negative `n`, and as the quiet NaN for `i32::MIN`,
/// whose negation does not fit.
pub fn pow_plan(n: i32) -> (r: PowPlan)
    ensures
        n >= 0 ==> r == PowPlan::Direct(n as u32),
        i32::MIN < n < 0 ==> r == PowPlan::Reciprocal((-n) as u32),
        n == i32::MIN ==> r == PowPlan::Undefined,
{
    if n < 0 {
        if n == i32::MIN {
            return PowPlan::Undefined;
        }
        return PowPlan::Reciprocal((-n) as u32);
    }
    PowPlan::Direct(n as u32)
}

/// The round of repeated squaring on `rest`: multiply where its lowest bit
/// is set, halve it, and go on while anything is left.
pub fn pow_step(rest: u32) -> (r: PowStep)
    ensures
        r.multiply == (rest % 2 == 1),
        r.rest == rest / 2,
        r.square == (rest / 2 != 0),
{
    let half = rest / 2;
    PowStep { multiply: rest % 2 == 1, rest: half, square: half != 0 }
}

/// The exponent that the rounds starting at `rest`, with the current power at
/// exponent `power`, gather into the running product.
pub open spec fn exponent_gathered(rest: nat, power: nat) -> nat
    decreases rest,
{
    if rest == 0 {
        0
    } else {
        (if rest % 2 == 1 { power } else { 0 }) + exponent_gathered(rest / 2, 2 * power)
    }
}

/// Taking the rounds of `pow_step` from `rest` with the current power at
/// exponent `power` gathers exponent `rest * power`; from `n` and the vector
/// itself, the running product ends as the vector to the power `n`.
pub proof fn lemma_exponent_gathered(rest: nat, power: nat)
    ensures
        exponent_gathered(rest, power) == rest * power,
    decreases rest,
{
    if rest > 0 {
        lemma_exponent_gathered(rest / 2, 2 * power);
        let h = rest / 2;
        assert(rest == 2 * h + rest % 2);
        assert(h * (2 * power) == (2 * h) * power) by (nonlinear_arith);
        if rest % 2 == 1 {
            assert(rest * power == (2 * h) * power + power) by (nonlinear_arith)
                requires
                    rest == 2 * h + 1,
            ;
        } else {
            assert(rest * power == (2 * h) * power) by (nonlinear_arith)
                requires
                    rest == 2 * h,
            ;
        }
    } else {
        assert(rest * power == 0) by (nonlinear_arith)
            requires
                rest == 0,
        ;
    }
}

} // verus!
