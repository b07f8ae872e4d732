//! Error taxonomy shared by all three sale variants.
//!
//! Every operation either succeeds in full or fails with one specific kind;
//! nothing is partially applied and nothing is retried internally.

use vstd::prelude::*;

verus! {

/// The reason an operation was rejected.
#[derive(Clone, Copy, Debug, PartialEq, Eq, Structural)]
pub enum AuctionError {
    /// Bad timestamps, prices or schedule fractions at initialization or update.
    InvalidConfiguration,
    /// The operation was attempted outside its legal lifecycle state.
    StateViolation,
    /// An intermediate product or a final result did not fit its integer width.
    ArithmeticOverflow,
    /// A formula would have divided by zero.
    DivisionByZero,
    /// The computed payment exceeded the buyer's declared slippage bound.
    SlippageExceeded,
    /// The computed allocation would push cumulative sales past the total supply.
    CapacityExceeded,
    /// The caller is not the owner of the record it tried to change.
    AuthorizationDenied,
}

} // verus!
