//! Arithmetic on pairs of unsigned operands, as exposed by the calculator
//! command line.

use vstd::prelude::*;

verus! {

/// The calculator's arguments after parsing: two operands and exactly one
/// operation switch.
pub struct SimpleOpsCli {
    pub op1: u64,
    pub op2: u64,
    pub sum: bool,
    pub sub: bool,
    pub mul: bool,
    pub div: bool,
}

/// Sum of the two operands.
pub fn sum(left: u64, right: u64) -> (r: u64)
    requires
        left + right <= u64::MAX,
    ensures
        r == left + right,
{
    left + right
}

/// Difference of the two operands.
pub fn sub(left: u64, right: u64) -> (r: u64)
    requires
        right <= left,
    ensures
        r == left - right,
{
    left - right
}

/// Product of the two operands.
pub fn mul(left: u64, right: u64) -> (r: u64)
    requires
        left * right <= u64::MAX,
    ensures
        r == left * right,
{
    left * right
}

/// Quotient of the two operands; division by zero is refused.
pub fn div(left: u64, right: u64) -> (r: u64)
    requires
        right != 0,
    ensures
        r == left / right,
{
    left / right
}

} // verus!
