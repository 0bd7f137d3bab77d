//! The ways a mortgage computation can fail.

use crate::decimal::Dec;
use vstd::prelude::*;

verus! {

#[derive(Clone, Copy, Debug, PartialEq, Eq, Structural)]
pub enum MortgageError {
    /// The quoted annual rate lies outside `0%..=100%`.
    RateOutOfRange,
    /// The amount borrowed is negative.
    NegativePrincipal,
    /// The amortization period is zero years.
    ZeroAmortizationPeriod,
    /// A value could not be carried between number representations.
    Conversion,
    /// Decimal arithmetic overflowed or divided by zero.
    Arithmetic,
}

/// `r` is what a decimal computation with checked result `v` returns:
/// the value itself, or an arithmetic failure.
pub open spec fn outcome(r: Result<Dec, MortgageError>, v: Option<(int, nat)>) -> bool {
    match v {
        Some(x) => r matches Ok(d) && d@ == x,
        None => r == Err::<Dec, MortgageError>(MortgageError::Arithmetic),
    }
}

} // verus!
