//! The boundary to `rust_decimal`.
//!
//! A `Decimal` is a signed 96-bit mantissa and a scale: it stands for
//! `mantissa / 10^scale`. Verified code never holds one. It hands mantissas
//! and scales to the functions below, which build the decimals, make one call
//! into `rust_decimal` and hand the mantissa and scale of the result back.
//! What each contract claims of that call is believed, not proved.

use rust_decimal::Decimal;
use rust_decimal::RoundingStrategy;
use std::str::FromStr;
use vstd::prelude::*;

verus! {

/// The largest magnitude of a decimal's mantissa: `2^96 - 1`.
pub const MAX_MANTISSA: i128 = 79_228_162_514_264_337_593_543_950_335;

/// The largest scale of a decimal.
pub const MAX_SCALE: u32 = 28;

/// Whether `m` is the mantissa of some decimal.
pub open spec fn is_mantissa(m: int) -> bool {
    -MAX_MANTISSA <= m <= MAX_MANTISSA
}

/// `10^n`.
pub open spec fn pow10(n: nat) -> int
    decreases n,
{
    if n == 0 {
        1
    } else {
        10 * pow10((n - 1) as nat)
    }
}

/// The decimal `mantissa / 10^scale` cut to at most `places` fractional
/// digits, dropping the digits beyond them (rounding toward zero).
pub open spec fn truncated(mantissa: int, scale: nat, places: nat) -> (int, nat) {
    if scale <= places {
        (mantissa, scale)
    } else if mantissa >= 0 {
        (mantissa / pow10((scale - places) as nat), places)
    } else {
        (-((-mantissa) / pow10((scale - places) as nat)), places)
    }
}

/// The decimal `mantissa / 10^scale` without trailing fractional zeros.
pub open spec fn stripped(mantissa: int, scale: nat) -> (int, nat)
    decreases scale,
{
    if scale > 0 && mantissa % 10 == 0 {
        stripped(mantissa / 10, (scale - 1) as nat)
    } else {
        (mantissa, scale)
    }
}

/// The text that `rust_decimal` prints for the decimal `mantissa / 10^scale`.
pub uninterp spec fn decimal_text(mantissa: int, scale: nat) -> Seq<char>;

/// The mantissa and scale that `rust_decimal` reads from `text`, or `None`
/// where it rejects the text.
pub uninterp spec fn decimal_parse(text: Seq<char>) -> Option<(int, nat)>;

/// `Decimal::checked_add` on two decimals of one scale.
///
/// Claims that where the sum of the mantissas is itself a mantissa, the call
/// succeeds and returns that sum at the same scale.
#[verifier::external_body]
pub(crate) fn decimal_add(a: i128, b: i128, scale: u32) -> (r: Option<(i128, u32)>)
    requires
        is_mantissa(a as int),
        is_mantissa(b as int),
        is_mantissa(a + b),
        scale <= MAX_SCALE,
    ensures
        r == Some(((a + b) as i128, scale)),
{
    let lhs = Decimal::from_i128_with_scale(a, scale);
    let rhs = Decimal::from_i128_with_scale(b, scale);
    match lhs.checked_add(rhs) {
        Some(d) => Some((d.mantissa(), d.scale())),
        None => None,
    }
}

/// `Decimal::checked_sub` on two decimals of one scale.
///
/// Claims that where the difference of the mantissas is itself a mantissa,
/// the call succeeds and returns that difference at the same scale.
#[verifier::external_body]
pub(crate) fn decimal_sub(a: i128, b: i128, scale: u32) -> (r: Option<(i128, u32)>)
    requires
        is_mantissa(a as int),
        is_mantissa(b as int),
        is_mantissa(a - b),
        scale <= MAX_SCALE,
    ensures
        r == Some(((a - b) as i128, scale)),
{
    let lhs = Decimal::from_i128_with_scale(a, scale);
    let rhs = Decimal::from_i128_with_scale(b, scale);
    match lhs.checked_sub(rhs) {
        Some(d) => Some((d.mantissa(), d.scale())),
        None => None,
    }
}

/// The `<` of `Decimal` on two decimals of one scale.
///
/// Claims that decimals of one scale are ordered as their mantissas are.
#[verifier::external_body]
pub(crate) fn decimal_lt(a: i128, b: i128, scale: u32) -> (r: bool)
    requires
        is_mantissa(a as int),
        is_mantissa(b as int),
        scale <= MAX_SCALE,
    ensures
        r == (a < b),
{
    Decimal::from_i128_with_scale(a, scale) < Decimal::from_i128_with_scale(b, scale)
}

/// `Decimal::round_dp_with_strategy` with `RoundingStrategy::ToZero`.
///
/// Claims that a decimal with at most `places` fractional digits comes back
/// as it is, and that of any other the digits beyond `places` are dropped.
#[verifier::external_body]
pub(crate) fn decimal_truncate(mantissa: i128, scale: u32, places: u32) -> (r: (i128, u32))
    requires
        is_mantissa(mantissa as int),
        scale <= MAX_SCALE,
    ensures
        r.0 == truncated(mantissa as int, scale as nat, places as nat).0,
        r.1 == truncated(mantissa as int, scale as nat, places as nat).1,
{
    let d = Decimal::from_i128_with_scale(mantissa, scale);
    let t = d.round_dp_with_strategy(places, RoundingStrategy::ToZero);
    (t.mantissa(), t.scale())
}

/// `Decimal::normalize`.
///
/// Claims that the call removes every trailing zero of the fraction, and
/// nothing else.
#[verifier::external_body]
pub(crate) fn decimal_normalize(mantissa: i128, scale: u32) -> (r: (i128, u32))
    requires
        is_mantissa(mantissa as int),
        scale <= MAX_SCALE,
    ensures
        r.0 == stripped(mantissa as int, scale as nat).0,
        r.1 == stripped(mantissa as int, scale as nat).1,
{
    let n = Decimal::from_i128_with_scale(mantissa, scale).normalize();
    (n.mantissa(), n.scale())
}

/// The `to_string` of `Decimal`.
///
/// Claims only that the text depends on the mantissa and the scale alone.
#[verifier::external_body]
pub(crate) fn decimal_to_string(mantissa: i128, scale: u32) -> (r: String)
    requires
        is_mantissa(mantissa as int),
        scale <= MAX_SCALE,
    ensures
        r@ == decimal_text(mantissa as int, scale as nat),
{
    Decimal::from_i128_with_scale(mantissa, scale).to_string()
}

/// The `from_str` of `Decimal`.
///
/// Claims only that the outcome depends on the text alone.
#[verifier::external_body]
pub(crate) fn decimal_from_str(text: &str) -> (r: Option<(i128, u32)>)
    ensures
        match r {
            Some(d) => decimal_parse(text@) == Some((d.0 as int, d.1 as nat)),
            None => decimal_parse(text@) is None,
        },
{
    match Decimal::from_str(text) {
        Ok(d) => Some((d.mantissa(), d.scale())),
        Err(_) => None,
    }
}

} // verus!
