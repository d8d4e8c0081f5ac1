//! What the machine does with IEEE-754 doubles. It never computes with them:
//! it orders them and flips their sign, which the bit pattern alone decides,
//! and leaves the rest to the embedder as a `FloatTask`.

use crate::vm::num::tri_state;
use vstd::prelude::*;

verus! {

/// Work on doubles that an instruction leaves to the embedder. Each operand
/// is the bit pattern of a double, or a signed integer where that is said.
/// The machine has already taken the operands off the stack.
#[derive(Debug, PartialEq, Eq, Clone, Copy, Structural)]
pub enum FloatTask {
    /// Push the bit pattern of `lhs + rhs`.
    Add { lhs: u64, rhs: u64 },
    /// Push the bit pattern of `lhs - rhs`.
    Sub { lhs: u64, rhs: u64 },
    /// Push the bit pattern of `lhs * rhs`.
    Mul { lhs: u64, rhs: u64 },
    /// Push the bit pattern of `lhs / rhs`.
    Div { lhs: u64, rhs: u64 },
    /// Push the bit pattern of the double nearest to this signed integer.
    FromInt(u64),
    /// Push the signed integer that this double converts to.
    ToInt(u64),
    /// Write this double to the output with six digits behind the point.
    Print(u64),
    /// Take a token off the input, read it as a double and push its bit
    /// pattern; a token that is no double ends the run with `ParseError`.
    Scan,
}

/// The sign bit of a double.
pub const SIGN_BIT: u64 = 0x8000_0000_0000_0000;

/// The bit pattern of positive infinity: every larger magnitude is a NaN.
pub const INFINITY_BITS: u64 = 0x7ff0_0000_0000_0000;

/// The bit pattern without its sign bit.
pub open spec fn magnitude(x: u64) -> u64 {
    if x >= SIGN_BIT {
        (x - SIGN_BIT) as u64
    } else {
        x
    }
}

/// Whether the bit pattern is a NaN.
pub open spec fn is_nan(x: u64) -> bool {
    magnitude(x) > INFINITY_BITS
}

/// Where a double that is no NaN stands on the number line, up to a
/// monotone scale: its magnitude, negated where the sign bit is set. Both
/// zeros stand at 0.
pub open spec fn rank(x: u64) -> int {
    if x >= SIGN_BIT {
        -(magnitude(x) as int)
    } else {
        magnitude(x) as int
    }
}

/// The order of two doubles by their bit patterns: -1, 0 or 1 as `lhs` is
/// less than, equal to or greater than `rhs`, and 0 where either is a NaN.
pub open spec fn float_order(lhs: u64, rhs: u64) -> int {
    if is_nan(lhs) || is_nan(rhs) {
        0
    } else if rank(lhs) < rank(rhs) {
        -1
    } else if rank(lhs) > rank(rhs) {
        1
    } else {
        0
    }
}

/// The bit pattern with its sign bit flipped.
pub open spec fn float_neg(x: u64) -> u64 {
    if x >= SIGN_BIT {
        (x - SIGN_BIT) as u64
    } else {
        (x + SIGN_BIT) as u64
    }
}

/// Flips the sign bit of a double.
pub fn negate(x: u64) -> (r: u64)
    ensures
        r == float_neg(x),
{
    if x >= SIGN_BIT {
        x - SIGN_BIT
    } else {
        x + SIGN_BIT
    }
}

/// Orders two doubles by their bit patterns, and gives the slot that a
/// comparison leaves.
pub fn order(lhs: u64, rhs: u64) -> (r: u64)
    ensures
        r == tri_state(float_order(lhs, rhs)),
{
    let lneg = lhs >= SIGN_BIT;
    let rneg = rhs >= SIGN_BIT;
    let lmag = if lneg { lhs - SIGN_BIT } else { lhs };
    let rmag = if rneg { rhs - SIGN_BIT } else { rhs };
    if lmag > INFINITY_BITS || rmag > INFINITY_BITS {
        0
    } else if lneg && !rneg {
        if lmag == 0 && rmag == 0 { 0 } else { u64::MAX }
    } else if !lneg && rneg {
        if lmag == 0 && rmag == 0 { 0 } else { 1 }
    } else if lmag == rmag {
        0
    } else if (lmag < rmag) == !lneg {
        u64::MAX
    } else {
        1
    }
}

} // verus!
