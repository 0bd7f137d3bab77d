use canadian_mortgage::amortization::mortgage_payment;
use canadian_mortgage::compounding::{compounding_power_inputs, rate_from_growth};
use canadian_mortgage::decimal::Dec;
use canadian_mortgage::error::MortgageError;
use canadian_mortgage::mortgage::{CanadianMortage, PaymentFrequency};
use rust_decimal::prelude::{FromPrimitive, ToPrimitive};
use rust_decimal::{Decimal, MathematicalOps};

fn to_decimal(d: Dec) -> Decimal {
    Decimal::from_i128_with_scale(d.mantissa(), d.scale())
}

fn from_decimal(d: Decimal) -> Dec {
    Dec::from_parts(d.mantissa(), d.scale()).unwrap()
}

fn dec(s: &str) -> Dec {
    from_decimal(Decimal::from_str_exact(s).unwrap())
}

fn exact(s: &str) -> Decimal {
    Decimal::from_str_exact(s).unwrap()
}

fn float_power(base: Dec, exponent: Dec) -> Option<Dec> {
    let b = to_decimal(base).to_f64()?;
    let e = to_decimal(exponent).to_f64()?;
    Decimal::from_f64(b.powf(e)).map(from_decimal)
}

fn convert_compounding_basis(rate: Dec, n1: u64, n2: u64) -> Decimal {
    let (base, exponent) = compounding_power_inputs(rate, n1, n2).unwrap();
    to_decimal(rate_from_growth(float_power(base, exponent).unwrap(), n2).unwrap())
}

fn mortgage(amount: &str, rate: &str, years: u64, freq: PaymentFrequency) -> CanadianMortage {
    CanadianMortage::new(dec(amount), dec(rate), years, freq, float_power).unwrap()
}

fn payment_of(amount: &str, rate: &str, years: u64, freq: PaymentFrequency) -> Decimal {
    to_decimal(mortgage(amount, rate, years, freq).payment().unwrap())
}

#[test]
fn check_compounding_basis() {
    assert_eq!(
        convert_compounding_basis(dec("0.06"), 2, 1),
        exact("0.0609"),
        "Rate for Canadian mortages"
    );
    assert_eq!(
        convert_compounding_basis(dec("0.06"), 2, 12),
        exact("0.059263464374364"),
        "equivalent rate compounded monthly"
    );
}

#[test]
fn mortgage_is_valid() {
    let rate = from_decimal(exact("0.105") / exact("12"));
    assert_eq!(
        to_decimal(mortgage_payment(dec("10000000.0"), rate, 10 * 12).unwrap()),
        exact("134934.99677554698793630975554"),
        "big mortgage"
    );
    let rate = from_decimal(exact("0.065") / exact("12"));
    assert_eq!(
        to_decimal(mortgage_payment(dec("200000"), rate, 30 * 12).unwrap()),
        exact("1264.136046985927464091663357"),
        "big mortgage"
    );
}

#[test]
fn canadian_mortgage_payments_are_valid() {
    assert_eq!(
        payment_of("430000.0", "4.59", 25, PaymentFrequency::AcceleratedWeekly),
        exact("600.37384132280845354662242562"),
        "old Canadian mortgage, accelerated weekly payments"
    );
    assert_eq!(
        payment_of("430000.0", "4.59", 25, PaymentFrequency::AcceleratedBiWeekly),
        exact("1200.7476826456169070932448512"),
        "old Canadian mortgage, accelerated weekly payments"
    );
    assert_eq!(
        payment_of("430000.0", "4.59", 25, PaymentFrequency::Monthly),
        exact("2401.4953652912338141864897025"),
        "old Canadian mortgage"
    );
    assert_eq!(
        payment_of("100000.0", "6", 25, PaymentFrequency::Monthly),
        exact("639.80662367674280200695111231"),
        "tiny Canadian mortgage"
    );
    assert_eq!(
        payment_of("100000.0", "5", 25, PaymentFrequency::Monthly),
        exact("581.60498503699913800017437566"),
        "small Canadian mortgage"
    );
}

#[test]
fn conversion_round_trip_returns_the_rate() {
    for (rate, n1, n2) in [("0.06", 2u64, 12u64), ("0.0459", 2, 12), ("0.12", 12, 1), ("0.03", 4, 52)] {
        let there = convert_compounding_basis(dec(rate), n1, n2);
        let back = convert_compounding_basis(from_decimal(there), n2, n1);
        assert!((back - exact(rate)).abs() < exact("0.000000001"), "{rate}: {back}");
    }
}

#[test]
fn payment_matches_the_equivalent_formula() {
    for (p, r, n) in [("200000", "0.005", 360u64), ("10000", "0.01", 12), ("430000", "0.004", 300)] {
        let a = to_decimal(mortgage_payment(dec(p), dec(r), n).unwrap());
        let (p, r) = (exact(p), exact(r));
        let other = p * r / (Decimal::ONE - (Decimal::ONE + r).powi(-(n as i64)));
        assert!((a - other).abs() < exact("0.0000001"), "{a} against {other}");
    }
}

#[test]
fn accelerated_payments_divide_the_monthly_payment() {
    let monthly = payment_of("430000.0", "4.59", 25, PaymentFrequency::Monthly);
    let bi = payment_of("430000.0", "4.59", 25, PaymentFrequency::AcceleratedBiWeekly);
    let weekly = payment_of("430000.0", "4.59", 25, PaymentFrequency::AcceleratedWeekly);
    assert_eq!(bi, monthly / exact("2"));
    assert_eq!(weekly, monthly / exact("4"));
}

#[test]
fn other_frequencies_follow_the_table() {
    let monthly = payment_of("100000.0", "6", 25, PaymentFrequency::Monthly);
    assert_eq!(
        payment_of("100000.0", "6", 25, PaymentFrequency::SemiMonthly),
        monthly / exact("2")
    );
    assert_eq!(
        payment_of("100000.0", "6", 25, PaymentFrequency::BiWeekly),
        monthly * exact("12") / exact("26")
    );
    assert_eq!(
        payment_of("100000.0", "6", 25, PaymentFrequency::Weekly),
        monthly * exact("12") / exact("52")
    );
    assert!(payment_of("100000.0", "6", 25, PaymentFrequency::Weekly) < monthly / exact("4"));
}

#[test]
fn rate_bounds_are_inclusive() {
    let build = |rate: &str| {
        CanadianMortage::new(dec("100000"), dec(rate), 25, PaymentFrequency::Monthly, float_power)
    };
    assert!(build("0").is_ok());
    assert!(build("0.0").is_ok());
    assert!(build("100").is_ok());
    assert!(build("100.00").is_ok());
    assert_eq!(build("-0.01").unwrap_err(), MortgageError::RateOutOfRange);
    assert_eq!(build("100.01").unwrap_err(), MortgageError::RateOutOfRange);
}

#[test]
fn invalid_terms_are_rejected() {
    let negative =
        CanadianMortage::new(dec("-1"), dec("5"), 25, PaymentFrequency::Monthly, float_power);
    assert_eq!(negative.unwrap_err(), MortgageError::NegativePrincipal);
    let no_years =
        CanadianMortage::new(dec("1000"), dec("5"), 0, PaymentFrequency::Monthly, float_power);
    assert_eq!(no_years.unwrap_err(), MortgageError::ZeroAmortizationPeriod);
    let out_of_range_first =
        CanadianMortage::new(dec("-1"), dec("101"), 0, PaymentFrequency::Monthly, float_power);
    assert_eq!(out_of_range_first.unwrap_err(), MortgageError::RateOutOfRange);
}

#[test]
fn failed_power_is_a_conversion_error() {
    let r = CanadianMortage::new(dec("1000"), dec("5"), 25, PaymentFrequency::Monthly, |_, _| None);
    assert_eq!(r.unwrap_err(), MortgageError::Conversion);
}

#[test]
fn zero_rate_payment_fails() {
    let m = mortgage("100000", "0", 25, PaymentFrequency::Monthly);
    assert_eq!(m.payment().unwrap_err(), MortgageError::Arithmetic);
    assert_eq!(
        mortgage_payment(dec("1000"), dec("0"), 12).unwrap_err(),
        MortgageError::Arithmetic
    );
}

#[test]
fn overflow_is_an_arithmetic_error() {
    let huge = from_decimal(Decimal::MAX);
    assert_eq!(
        mortgage_payment(huge, dec("0.5"), 1000).unwrap_err(),
        MortgageError::Arithmetic
    );
    let m = mortgage("1000", "5", u64::MAX, PaymentFrequency::Monthly);
    assert_eq!(m.payment().unwrap_err(), MortgageError::Arithmetic);
}

#[test]
fn power_inputs_for_semi_annual_to_monthly() {
    let (base, exponent) = compounding_power_inputs(dec("0.0459"), 2, 12).unwrap();
    assert_eq!(to_decimal(base), exact("1.02295"));
    assert_eq!(to_decimal(exponent), exact("2") / exact("12"));
    assert_eq!(
        compounding_power_inputs(dec("0.05"), 0, 12).unwrap_err(),
        MortgageError::Arithmetic
    );
    assert_eq!(
        compounding_power_inputs(dec("0.05"), 2, 0).unwrap_err(),
        MortgageError::Arithmetic
    );
}

#[test]
fn rate_from_growth_is_excess_times_frequency() {
    assert_eq!(to_decimal(rate_from_growth(dec("1.005"), 12).unwrap()), exact("0.06"));
    assert_eq!(to_decimal(rate_from_growth(dec("1"), 12).unwrap()), exact("0"));
}

#[test]
fn decimal_parts_are_checked() {
    let d = Dec::from_parts(12345, 3).unwrap();
    assert_eq!((d.mantissa(), d.scale()), (12345, 3));
    assert_eq!(Dec::from_u64(u64::MAX).mantissa(), u64::MAX as i128);
    assert!(Dec::from_parts(0, 29).is_none());
    assert!(Dec::from_parts(Decimal::MAX.mantissa() + 1, 0).is_none());
    assert!(Dec::from_parts(-Decimal::MAX.mantissa() - 1, 0).is_none());
}
