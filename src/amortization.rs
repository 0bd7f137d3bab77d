//! The fixed periodic payment that repays a loan over a number of periods:
//! `a = p * r * (1 + r)^n / ((1 + r)^n - 1)`.

use crate::decimal::{
    checked_add, checked_div, checked_mul, checked_powu, checked_sub, difference_of, power_of,
    product_of, quotient_of, sum_of, Dec,
};
use crate::error::{outcome, MortgageError};
use vstd::prelude::*;

verus! {

/// `p * r * g / (g - 1.0)` where `g = (1.0 + r)^n`, each step in checked
/// decimal arithmetic.
pub open spec fn amortized_payment(p: (int, nat), r: (int, nat), n: nat) -> Option<(int, nat)> {
    match sum_of((10, 1nat), r) {
        None => None,
        Some(step) => match power_of(step, n) {
            None => None,
            Some(growth) => match product_of(p, r) {
                None => None,
                Some(interest) => match product_of(interest, growth) {
                    None => None,
                    Some(numerator) => match difference_of(growth, (10, 1nat)) {
                        None => None,
                        Some(denominator) => quotient_of(numerator, denominator),
                    },
                },
            },
        },
    }
}

/// The payment per period that repays principal `p` over `n` periods at the
/// rate `r` per period. A zero rate leaves nothing to divide by and fails.
pub fn mortgage_payment(p: Dec, r: Dec, n: u64) -> (res: Result<Dec, MortgageError>)
    ensures
        outcome(res, amortized_payment(p@, r@, n as nat)),
{
    let one = Dec::literal(10, 1);
    let step = match checked_add(one, r) {
        Some(x) => x,
        None => return Err(MortgageError::Arithmetic),
    };
    let growth = match checked_powu(step, n) {
        Some(x) => x,
        None => return Err(MortgageError::Arithmetic),
    };
    let interest = match checked_mul(p, r) {
        Some(x) => x,
        None => return Err(MortgageError::Arithmetic),
    };
    let numerator = match checked_mul(interest, growth) {
        Some(x) => x,
        None => return Err(MortgageError::Arithmetic),
    };
    let denominator = match checked_sub(growth, one) {
        Some(x) => x,
        None => return Err(MortgageError::Arithmetic),
    };
    match checked_div(numerator, denominator) {
        Some(x) => Ok(x),
        None => Err(MortgageError::Arithmetic),
    }
}

} // verus!
