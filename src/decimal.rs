//! An exact fixed-point decimal number held as plain values, with its
//! arithmetic carried out by `rust_decimal`.

use rust_decimal::Decimal;
use rust_decimal::MathematicalOps;
use vstd::prelude::*;

verus! {

/// The largest magnitude of a mantissa: 96 bits.
pub const MAX_MANTISSA: i128 = 0xFFFF_FFFF_FFFF_FFFF_FFFF_FFFF;

/// The largest number of digits after the decimal point.
pub const MAX_SCALE: u32 = 28;

/// `10` to the power `n`.
pub open spec fn pow10(n: nat) -> int
    decreases n,
{
    if n == 0 {
        1
    } else {
        10 * pow10((n - 1) as nat)
    }
}

/// Whether a mantissa and a scale describe a representable decimal.
pub open spec fn representable(mantissa: int, scale: int) -> bool {
    -MAX_MANTISSA <= mantissa <= MAX_MANTISSA && 0 <= scale <= MAX_SCALE
}

/// The number `mantissa / 10^scale`, exact: an amount of money, a rate or a
/// factor. Two values that differ only by trailing zeros (`1.0` and `1`) are
/// distinct here, as they carry distinct scales.
#[derive(Clone, Copy, Debug, PartialEq, Eq)]
pub struct Dec {
    mantissa: i128,
    scale: u32,
}

impl View for Dec {
    type V = (int, nat);

    /// The mantissa and the scale.
    closed spec fn view(&self) -> (int, nat) {
        (self.mantissa as int, self.scale as nat)
    }
}

/// `a < b` as numbers: `a.0 / 10^a.1 < b.0 / 10^b.1`.
pub open spec fn value_lt(a: (int, nat), b: (int, nat)) -> bool {
    a.0 * pow10(b.1) < b.0 * pow10(a.1)
}

/// What a checked operation gives, as plain values.
pub open spec fn opt_view(r: Option<Dec>) -> Option<(int, nat)> {
    match r {
        Some(d) => Some(d@),
        None => None,
    }
}

/// The result of `rust_decimal`'s checked addition of two decimals.
pub uninterp spec fn sum_of(a: (int, nat), b: (int, nat)) -> Option<(int, nat)>;

/// The result of `rust_decimal`'s checked subtraction of two decimals.
pub uninterp spec fn difference_of(a: (int, nat), b: (int, nat)) -> Option<(int, nat)>;

/// The result of `rust_decimal`'s checked multiplication of two decimals.
pub uninterp spec fn product_of(a: (int, nat), b: (int, nat)) -> Option<(int, nat)>;

/// The result of `rust_decimal`'s checked division of two decimals.
pub uninterp spec fn quotient_of(a: (int, nat), b: (int, nat)) -> Option<(int, nat)>;

/// The result of `rust_decimal`'s checked power of a decimal to a whole exponent.
pub uninterp spec fn power_of(a: (int, nat), exp: nat) -> Option<(int, nat)>;

impl Dec {
    #[verifier::type_invariant]
    spec fn well_formed(self) -> bool {
        representable(self.mantissa as int, self.scale as int)
    }

    /// The decimal `mantissa / 10^scale`, where that is representable.
    pub fn from_parts(mantissa: i128, scale: u32) -> (r: Option<Dec>)
        ensures
            r is Some <==> representable(mantissa as int, scale as int),
            r matches Some(d) ==> d@ == (mantissa as int, scale as nat),
    {
        if -MAX_MANTISSA <= mantissa && mantissa <= MAX_MANTISSA && scale <= MAX_SCALE {
            Some(Dec { mantissa, scale })
        } else {
            None
        }
    }

    /// The decimal `mantissa / 10^scale`, for parts known to be representable.
    pub fn literal(mantissa: i128, scale: u32) -> (r: Dec)
        requires
            representable(mantissa as int, scale as int),
        ensures
            r@ == (mantissa as int, scale as nat),
    {
        Dec { mantissa, scale }
    }

    /// The whole number `n`, with scale zero; every `u64` fits in 96 bits.
    pub fn from_u64(n: u64) -> (r: Dec)
        ensures
            r@ == (n as int, 0nat),
    {
        Dec { mantissa: n as i128, scale: 0 }
    }

    pub fn mantissa(&self) -> (r: i128)
        ensures
            r as int == self@.0,
            -MAX_MANTISSA <= r <= MAX_MANTISSA,
    {
        proof {
            use_type_invariant(self);
        }
        self.mantissa
    }

    pub fn scale(&self) -> (r: u32)
        ensures
            r as nat == self@.1,
            r <= MAX_SCALE,
    {
        proof {
            use_type_invariant(self);
        }
        self.scale
    }
}

/// Relies on `Decimal::from_i128_with_scale`, `Decimal::mantissa` and
/// `Decimal::scale`, here on a representable pair, and on `Decimal::checked_add`.
#[verifier::external_body]
pub(crate) fn checked_add(a: Dec, b: Dec) -> (r: Option<Dec>)
    ensures
        opt_view(r) == sum_of(a@, b@),
{
    let x = Decimal::from_i128_with_scale(a.mantissa, a.scale);
    let y = Decimal::from_i128_with_scale(b.mantissa, b.scale);
    x.checked_add(y).map(|d| Dec { mantissa: d.mantissa(), scale: d.scale() })
}

/// Relies on `Decimal::checked_sub`, with the conversions of `checked_add`.
#[verifier::external_body]
pub(crate) fn checked_sub(a: Dec, b: Dec) -> (r: Option<Dec>)
    ensures
        opt_view(r) == difference_of(a@, b@),
{
    let x = Decimal::from_i128_with_scale(a.mantissa, a.scale);
    let y = Decimal::from_i128_with_scale(b.mantissa, b.scale);
    x.checked_sub(y).map(|d| Dec { mantissa: d.mantissa(), scale: d.scale() })
}

/// Relies on `Decimal::checked_mul`, with the conversions of `checked_add`.
#[verifier::external_body]
pub(crate) fn checked_mul(a: Dec, b: Dec) -> (r: Option<Dec>)
    ensures
        opt_view(r) == product_of(a@, b@),
{
    let x = Decimal::from_i128_with_scale(a.mantissa, a.scale);
    let y = Decimal::from_i128_with_scale(b.mantissa, b.scale);
    x.checked_mul(y).map(|d| Dec { mantissa: d.mantissa(), scale: d.scale() })
}

/// Relies on `Decimal::checked_div`, with the conversions of `checked_add`:
/// `None` on a zero divisor (`div_impl` answers `DivByZero`) or on overflow.
#[verifier::external_body]
pub(crate) fn checked_div(a: Dec, b: Dec) -> (r: Option<Dec>)
    ensures
        opt_view(r) == quotient_of(a@, b@),
        b@.0 == 0 ==> r is None,
{
    let x = Decimal::from_i128_with_scale(a.mantissa, a.scale);
    let y = Decimal::from_i128_with_scale(b.mantissa, b.scale);
    x.checked_div(y).map(|d| Dec { mantissa: d.mantissa(), scale: d.scale() })
}

/// Relies on `MathematicalOps::checked_powu`, with the conversions of
/// `checked_add`: repeated checked multiplication, `None` on overflow.
#[verifier::external_body]
pub(crate) fn checked_powu(a: Dec, exp: u64) -> (r: Option<Dec>)
    ensures
        opt_view(r) == power_of(a@, exp as nat),
{
    let x = Decimal::from_i128_with_scale(a.mantissa, a.scale);
    x.checked_powu(exp).map(|d| Dec { mantissa: d.mantissa(), scale: d.scale() })
}

/// Relies on `Decimal`'s `PartialOrd`, with the conversions of `checked_add`:
/// `cmp_impl` orders decimals by their numeric values, whatever their scales.
#[verifier::external_body]
pub(crate) fn less_than(a: Dec, b: Dec) -> (r: bool)
    ensures
        r == value_lt(a@, b@),
{
    let x = Decimal::from_i128_with_scale(a.mantissa, a.scale);
    let y = Decimal::from_i128_with_scale(b.mantissa, b.scale);
    x < y
}

} // verus!
