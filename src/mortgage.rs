//! A Canadian mortgage: the quoted rate is compounded semi-annually, the
//! payment is computed on the equivalent monthly-compounded rate and then
//! scaled to the payment frequency.

use crate::amortization::{amortized_payment, mortgage_payment};
use crate::compounding::{
    compounding_power_inputs, power_inputs, rate_from_growth, rate_from_growth_spec,
};
use crate::decimal::{checked_div, checked_mul, less_than, pow10, product_of, quotient_of, Dec};
use crate::error::{outcome, MortgageError};
use vstd::prelude::*;

verus! {

/// How often a payment falls due.
#[derive(Clone, Copy, Debug, PartialEq, Eq, Structural)]
pub enum PaymentFrequency {
    Monthly,
    SemiMonthly,
    BiWeekly,
    AcceleratedBiWeekly,
    Weekly,
    AcceleratedWeekly,
}

/// One loan. The rate it keeps is the annual rate compounded monthly that is
/// equivalent to the quoted one.
#[derive(Clone, Copy, Debug, PartialEq, Eq)]
pub struct CanadianMortage {
    principal: Dec,
    interest_rate: Dec,
    amortization_period: u64,
    payment_frequency: PaymentFrequency,
}

/// A quoted annual rate, in percent, lies in `0..=100`.
pub open spec fn rate_in_range(rate: (int, nat)) -> bool {
    0 <= rate.0 && rate.0 <= 100 * pow10(rate.1)
}

/// The first rule that the terms of a loan break, if any.
pub open spec fn validation(principal: (int, nat), rate: (int, nat), years: nat) -> Option<MortgageError> {
    if !rate_in_range(rate) {
        Some(MortgageError::RateOutOfRange)
    } else if principal.0 < 0 {
        Some(MortgageError::NegativePrincipal)
    } else if years == 0 {
        Some(MortgageError::ZeroAmortizationPeriod)
    } else {
        None
    }
}

/// The base and the exponent of the power that turns a quoted rate in
/// percent, compounded twice a year, into one compounded twelve times.
pub open spec fn quoted_power_inputs(rate: (int, nat)) -> Option<((int, nat), (int, nat))> {
    match quotient_of(rate, (100, 0nat)) {
        None => None,
        Some(fraction) => power_inputs(fraction, 2, 12),
    }
}

/// `r` is the loan built from its terms once the power returned `growth`.
pub open spec fn built(
    r: Result<CanadianMortage, MortgageError>,
    principal: (int, nat),
    years: u64,
    frequency: PaymentFrequency,
    growth: Option<Dec>,
) -> bool {
    match growth {
        None => r == Err::<CanadianMortage, MortgageError>(MortgageError::Conversion),
        Some(g) => match rate_from_growth_spec(g@, 12) {
            None => r == Err::<CanadianMortage, MortgageError>(MortgageError::Arithmetic),
            Some(rate) => r matches Ok(m) && m.principal_view() == principal && m.rate_view()
                == rate && m.years_view() == years && m.frequency_view() == frequency,
        },
    }
}

/// The payment per month: the monthly rate is a twelfth of the annual one,
/// and there are twelve payments a year.
pub open spec fn monthly_payment_of(m: CanadianMortage) -> Option<(int, nat)> {
    if m.years_view() * 12 > u64::MAX {
        None
    } else {
        match quotient_of(m.rate_view(), (12, 0nat)) {
            None => None,
            Some(rate) => amortized_payment(m.principal_view(), rate, (m.years_view() * 12) as nat),
        }
    }
}

/// The payment due at `frequency` for a monthly payment `monthly`.
pub open spec fn scaled_payment(frequency: PaymentFrequency, monthly: (int, nat)) -> Option<(int, nat)> {
    match frequency {
        PaymentFrequency::Monthly => Some(monthly),
        PaymentFrequency::SemiMonthly => quotient_of(monthly, (2, 0nat)),
        PaymentFrequency::BiWeekly => match product_of(monthly, (12, 0nat)) {
            None => None,
            Some(yearly) => quotient_of(yearly, (26, 0nat)),
        },
        PaymentFrequency::AcceleratedBiWeekly => quotient_of(monthly, (2, 0nat)),
        PaymentFrequency::Weekly => match product_of(monthly, (12, 0nat)) {
            None => None,
            Some(yearly) => quotient_of(yearly, (52, 0nat)),
        },
        PaymentFrequency::AcceleratedWeekly => quotient_of(monthly, (4, 0nat)),
    }
}

/// The payment due at the loan's own frequency.
pub open spec fn payment_of(m: CanadianMortage) -> Option<(int, nat)> {
    match monthly_payment_of(m) {
        None => None,
        Some(monthly) => scaled_payment(m.frequency_view(), monthly),
    }
}

/// Two loans with the same principal, rate and amortization period.
pub open spec fn same_loan(a: CanadianMortage, b: CanadianMortage) -> bool {
    a.principal_view() == b.principal_view() && a.rate_view() == b.rate_view() && a.years_view()
        == b.years_view()
}

impl CanadianMortage {
    pub closed spec fn principal_view(self) -> (int, nat) {
        self.principal@
    }

    /// The annual rate, as a fraction, compounded monthly.
    pub closed spec fn rate_view(self) -> (int, nat) {
        self.interest_rate@
    }

    pub closed spec fn years_view(self) -> u64 {
        self.amortization_period
    }

    pub closed spec fn frequency_view(self) -> PaymentFrequency {
        self.payment_frequency
    }

    /// A loan of `mortgage_amount` at the annual rate `interest_rate`, in
    /// percent and compounded semi-annually, repaid over
    /// `amortization_period` years.
    ///
    /// The conversion to monthly compounding raises a base to a fractional
    /// power; `fractional_power(base, exponent)` computes it, or answers
    /// `None` where it cannot represent a value.
    pub fn new<F: Fn(Dec, Dec) -> Option<Dec>>(
        mortgage_amount: Dec,
        interest_rate: Dec,
        amortization_period: u64,
        payment_frequency: PaymentFrequency,
        fractional_power: F,
    ) -> (r: Result<CanadianMortage, MortgageError>)
        requires
            forall|base: Dec, exponent: Dec| call_requires(fractional_power, (base, exponent)),
        ensures
            validation(mortgage_amount@, interest_rate@, amortization_period as nat) matches Some(e)
                ==> r == Err::<CanadianMortage, MortgageError>(e),
            validation(mortgage_amount@, interest_rate@, amortization_period as nat) is None
                ==> match quoted_power_inputs(interest_rate@) {
                None => r == Err::<CanadianMortage, MortgageError>(MortgageError::Arithmetic),
                Some(inputs) => exists|base: Dec, exponent: Dec, growth: Option<Dec>|
                    #![trigger call_ensures(fractional_power, (base, exponent), growth)]
                    base@ == inputs.0 && exponent@ == inputs.1 && call_ensures(
                        fractional_power,
                        (base, exponent),
                        growth,
                    ) && built(
                        r,
                        mortgage_amount@,
                        amortization_period,
                        payment_frequency,
                        growth,
                    ),
            },
    {
        if less_than(interest_rate, Dec::literal(0, 1)) || less_than(
            Dec::literal(1000, 1),
            interest_rate,
        ) {
            proof {
                lemma_rate_bounds(interest_rate@);
            }
            return Err(MortgageError::RateOutOfRange);
        }
        proof {
            lemma_rate_bounds(interest_rate@);
        }
        if mortgage_amount.mantissa() < 0 {
            return Err(MortgageError::NegativePrincipal);
        }
        if amortization_period == 0 {
            return Err(MortgageError::ZeroAmortizationPeriod);
        }
        let fraction = match checked_div(interest_rate, Dec::literal(100, 0)) {
            Some(x) => x,
            None => return Err(MortgageError::Arithmetic),
        };
        let (base, exponent) = match compounding_power_inputs(fraction, 2, 12) {
            Ok(p) => p,
            Err(e) => return Err(e),
        };
        let growth = fractional_power(base, exponent);
        let result = match growth {
            None => Err(MortgageError::Conversion),
            Some(g) => match rate_from_growth(g, 12) {
                Ok(rate) => Ok(
                    CanadianMortage {
                        principal: mortgage_amount,
                        interest_rate: rate,
                        amortization_period,
                        payment_frequency,
                    },
                ),
                Err(e) => Err(e),
            },
        };
        result
    }

    /// The payment due at the loan's frequency.
    pub fn payment(&self) -> (r: Result<Dec, MortgageError>)
        ensures
            outcome(r, payment_of(*self)),
    {
        let periods = match self.amortization_period.checked_mul(12) {
            Some(n) => n,
            None => return Err(MortgageError::Arithmetic),
        };
        let monthly_rate = match checked_div(self.interest_rate, Dec::literal(12, 0)) {
            Some(x) => x,
            None => return Err(MortgageError::Arithmetic),
        };
        let monthly = match mortgage_payment(self.principal, monthly_rate, periods) {
            Ok(x) => x,
            Err(e) => return Err(e),
        };
        let scaled = match self.payment_frequency {
            PaymentFrequency::Monthly => Some(monthly),
            PaymentFrequency::SemiMonthly => checked_div(monthly, Dec::literal(2, 0)),
            PaymentFrequency::BiWeekly => match checked_mul(monthly, Dec::literal(12, 0)) {
                Some(yearly) => checked_div(yearly, Dec::literal(26, 0)),
                None => None,
            },
            PaymentFrequency::AcceleratedBiWeekly => checked_div(monthly, Dec::literal(2, 0)),
            PaymentFrequency::Weekly => match checked_mul(monthly, Dec::literal(12, 0)) {
                Some(yearly) => checked_div(yearly, Dec::literal(52, 0)),
                None => None,
            },
            PaymentFrequency::AcceleratedWeekly => checked_div(monthly, Dec::literal(4, 0)),
        };
        match scaled {
            Some(x) => Ok(x),
            None => Err(MortgageError::Arithmetic),
        }
    }
}

/// Comparing with `0.0` and `100.0` decides whether a rate is in range.
proof fn lemma_rate_bounds(rate: (int, nat))
    ensures
        !value_lt_zero(rate) && !value_gt_hundred(rate) <==> rate_in_range(rate),
{
    reveal_with_fuel(pow10, 2);
    assert(pow10(1) == 10);
    assert((rate.0 * 10 < 0) <==> (rate.0 < 0)) by (nonlinear_arith);
    assert((1000 * pow10(rate.1) < rate.0 * 10) <==> (100 * pow10(rate.1) < rate.0))
        by (nonlinear_arith);
}

spec fn value_lt_zero(rate: (int, nat)) -> bool {
    crate::decimal::value_lt(rate, (0, 1nat))
}

spec fn value_gt_hundred(rate: (int, nat)) -> bool {
    crate::decimal::value_lt((1000, 1nat), rate)
}

/// Accelerated payments divide the monthly payment of the same loan: by two
/// for accelerated bi-weekly payments and by four for accelerated weekly ones,
/// not by way of the yearly total.
pub proof fn accelerated_payments_divide_monthly(monthly: CanadianMortage, other: CanadianMortage)
    requires
        same_loan(monthly, other),
        monthly.frequency_view() == PaymentFrequency::Monthly,
    ensures
        match payment_of(monthly) {
            Some(m) => (other.frequency_view() == PaymentFrequency::AcceleratedBiWeekly
                ==> payment_of(other) == quotient_of(m, (2, 0nat))) && (other.frequency_view()
                == PaymentFrequency::AcceleratedWeekly ==> payment_of(other) == quotient_of(
                m,
                (4, 0nat),
            )),
            None => payment_of(other) is None,
        },
{
}

} // verus!
