//! Errors surfaced by the accrual and health engines.
//!
//! Arithmetic errors (overflow, underflow) abort the operation that hit
//! them; the remaining variants report invariant violations, missing
//! state, and policy rejections with enough context to diagnose them.

use vstd::prelude::*;

verus! {

/// The arithmetic operation that failed.
#[derive(Clone, Copy, Debug, PartialEq, Eq, Structural)]
pub enum ArithmeticOp {
    Add,
    Sub,
    Mul,
    Div,
}

/// Failure of an accrual or health computation.
#[derive(Clone, Debug, PartialEq, Eq)]
pub enum Error {
    /// An arithmetic operation on the given operands left the
    /// representable range (for `Sub`: the result would be negative).
    Overflow { op: ArithmeticOp, operand1: u128, operand2: u128 },
    /// A withdrawal pre-check named a denom the user holds no position in.
    NoUserBalance,
    /// A denom with a stored position has no market configuration.
    MarketNotFound { denom: String },
    /// The denom is routed neither to the safety fund nor to the fee
    /// collector, so it cannot be distributed.
    AssetNotEnabledForDistribution { denom: String },
    /// A configuration parameter is outside its allowed range.
    InvalidParam { param_name: String },
}

} // verus!
