//! Conversion of an annual rate between compounding frequencies:
//! `r2 = ((1 + r1/n1)^(n1/n2) - 1) * n2`.
//!
//! The power has a fractional exponent and is left to the caller; this module
//! computes its base and exponent, and the rate from its result.

use crate::decimal::{
    checked_add, checked_div, checked_mul, checked_sub, difference_of, product_of, quotient_of,
    sum_of, Dec,
};
use crate::error::{outcome, MortgageError};
use vstd::prelude::*;

verus! {

/// The base `1 + rate/n1` and the exponent `n1/n2` of the power.
pub open spec fn power_inputs(rate: (int, nat), n1: nat, n2: nat) -> Option<((int, nat), (int, nat))> {
    match quotient_of(rate, (n1 as int, 0nat)) {
        None => None,
        Some(per_period) => match sum_of((1, 0nat), per_period) {
            None => None,
            Some(base) => match quotient_of((n1 as int, 0nat), (n2 as int, 0nat)) {
                None => None,
                Some(exponent) => Some((base, exponent)),
            },
        },
    }
}

/// The rate compounded `n2` times a year from the growth of one such period:
/// `(growth - 1) * n2`.
pub open spec fn rate_from_growth_spec(growth: (int, nat), n2: nat) -> Option<(int, nat)> {
    match difference_of(growth, (1, 0nat)) {
        None => None,
        Some(excess) => product_of(excess, (n2 as int, 0nat)),
    }
}

/// The base and the exponent of the power that converts `rate`, compounded
/// `n1` times a year, to a rate compounded `n2` times a year.
pub fn compounding_power_inputs(rate: Dec, n1: u64, n2: u64) -> (r: Result<(Dec, Dec), MortgageError>)
    ensures
        match power_inputs(rate@, n1 as nat, n2 as nat) {
            Some(v) => r matches Ok(p) && p.0@ == v.0 && p.1@ == v.1,
            None => r == Err::<(Dec, Dec), MortgageError>(MortgageError::Arithmetic),
        },
{
    let from = Dec::from_u64(n1);
    let to = Dec::from_u64(n2);
    let per_period = match checked_div(rate, from) {
        Some(x) => x,
        None => return Err(MortgageError::Arithmetic),
    };
    let base = match checked_add(Dec::literal(1, 0), per_period) {
        Some(x) => x,
        None => return Err(MortgageError::Arithmetic),
    };
    match checked_div(from, to) {
        Some(exponent) => Ok((base, exponent)),
        None => Err(MortgageError::Arithmetic),
    }
}

/// The rate compounded `n2` times a year whose growth over one of its
/// periods is `growth`.
pub fn rate_from_growth(growth: Dec, n2: u64) -> (r: Result<Dec, MortgageError>)
    ensures
        outcome(r, rate_from_growth_spec(growth@, n2 as nat)),
{
    let excess = match checked_sub(growth, Dec::literal(1, 0)) {
        Some(x) => x,
        None => return Err(MortgageError::Arithmetic),
    };
    match checked_mul(excess, Dec::from_u64(n2)) {
        Some(x) => Ok(x),
        None => Err(MortgageError::Arithmetic),
    }
}

} // verus!
