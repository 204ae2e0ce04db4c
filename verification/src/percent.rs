//! Decimal fee percentage reported with a quote.

use vstd::prelude::*;
use rust_decimal::Decimal;

verus! {

/// The decimal number type of `rust_decimal`, carried through opaquely.
#[verifier::external_type_specification]
#[verifier::external_body]
pub struct ExDecimal(Decimal);

/// Number of fractional digits of a reported fee percentage.
pub const FEE_PCT_SCALE: u32 = 4;

/// The decimal `num / 10^scale`, as `Decimal::from_i128_with_scale`
/// builds it from a mantissa and a scale.
pub uninterp spec fn decimal_with_scale(num: i128, scale: u32) -> Decimal;

/// Calls `Decimal::from_i128_with_scale`. That function returns the
/// decimal with mantissa `num` and `scale` fractional digits, and it
/// panics when the scale exceeds 28 or the mantissa 96 bits. The result
/// depends on the two arguments alone.
#[verifier::external_body]
pub(crate) fn decimal_from_parts(num: i128, scale: u32) -> (d: Decimal)
    requires
        scale <= 28,
        -0xFFFF_FFFF_FFFF_FFFF_FFFF_FFFF <= num <= 0xFFFF_FFFF_FFFF_FFFF_FFFF_FFFF,
    ensures
        d == decimal_with_scale(num, scale),
{
    Decimal::from_i128_with_scale(num, scale)
}

/// The percentage `hundredths_of_bps / 10^4` as a decimal.
pub fn fee_percent(hundredths_of_bps: u64) -> (d: Decimal)
    ensures
        d == decimal_with_scale(hundredths_of_bps as i128, FEE_PCT_SCALE),
{
    decimal_from_parts(hundredths_of_bps as i128, FEE_PCT_SCALE)
}

} // verus!
