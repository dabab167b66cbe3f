//! Exact money: a signed count of ten-thousandths.
//!
//! An [`Amount`] is a decimal with four fractional digits. Sums,
//! differences and comparisons are those of `rust_decimal`, which is exact
//! on such decimals as long as the result fits its 96 bits; the contracts
//! here state them over the count of ten-thousandths.

use crate::decimal::decimal_add;
use crate::decimal::decimal_from_str;
use crate::decimal::decimal_lt;
use crate::decimal::decimal_normalize;
use crate::decimal::decimal_parse;
use crate::decimal::decimal_sub;
use crate::decimal::decimal_text;
use crate::decimal::decimal_to_string;
use crate::decimal::decimal_truncate;
use crate::decimal::is_mantissa;
use crate::decimal::pow10;
use crate::decimal::stripped;
use crate::decimal::truncated;
use crate::decimal::MAX_MANTISSA;
use crate::decimal::MAX_SCALE;
use vstd::prelude::*;

verus! {

/// The number of fractional digits that an amount keeps.
pub const SCALE: u32 = 4;

/// The largest magnitude of an amount, in ten-thousandths.
pub const MAX_UNITS: i128 = MAX_MANTISSA;

/// Whether `units` ten-thousandths can be held by an [`Amount`].
pub open spec fn representable(units: int) -> bool {
    -MAX_UNITS <= units <= MAX_UNITS
}

/// The ten-thousandths in the decimal `mantissa / 10^scale` once its
/// fraction is cut to four digits, or `None` where the pair is no decimal or
/// the result is too large for an [`Amount`].
pub open spec fn units_of_decimal(mantissa: int, scale: nat) -> Option<int> {
    if !is_mantissa(mantissa) || scale > MAX_SCALE {
        None
    } else {
        let cut = truncated(mantissa, scale, SCALE as nat);
        let units = cut.0 * pow10((SCALE - cut.1) as nat);
        if representable(units) {
            Some(units)
        } else {
            None
        }
    }
}

/// The ten-thousandths that a decimal text stands for, or `None` where the
/// text is no decimal or stands for too large a value.
pub open spec fn units_of_text(text: Seq<char>) -> Option<int> {
    match decimal_parse(text) {
        Some(d) => units_of_decimal(d.0, d.1),
        None => None,
    }
}

/// The text of `units` ten-thousandths, without trailing fractional zeros.
pub open spec fn text_of_units(units: int) -> Seq<char> {
    let short = stripped(units, SCALE as nat);
    decimal_text(short.0, short.1)
}

/// An amount of money with exactly four fractional digits.
///
/// Its view is the number of ten-thousandths it holds, so `1.5` has the view
/// `15000`. Every amount is [`representable`].
#[derive(Clone, Copy, Debug, PartialEq, Eq, Structural)]
pub struct Amount {
    units: i128,
}

impl View for Amount {
    type V = int;

    closed spec fn view(&self) -> int {
        self.units as int
    }
}

impl vstd::std_specs::convert::FromSpecImpl<i64> for Amount {
    open spec fn obeys_from_spec() -> bool {
        true
    }

    closed spec fn from_spec(whole: i64) -> Amount {
        Amount { units: (whole * 10_000) as i128 }
    }
}

impl From<i64> for Amount {
    /// The amount of `whole` units of money, without a fraction.
    fn from(whole: i64) -> (r: Amount)
        ensures
            r@ == whole * 10_000,
    {
        Amount { units: whole as i128 * 10_000 }
    }
}

impl Default for Amount {
    /// No money.
    fn default() -> (r: Amount)
        ensures
            r@ == 0,
    {
        Amount::zero()
    }
}

/// `10^n` for the few `n` that scaling to four digits needs.
fn power_of_ten(n: u32) -> (p: i128)
    requires
        n <= SCALE,
    ensures
        p == pow10(n as nat),
        1 <= p <= 10_000,
{
    reveal_with_fuel(pow10, 5);
    if n == 0 {
        1
    } else if n == 1 {
        10
    } else if n == 2 {
        100
    } else if n == 3 {
        1_000
    } else {
        10_000
    }
}

/// Cutting digits never makes a mantissa larger, and leaves at most `places`
/// of them.
proof fn lemma_truncated_bounds(mantissa: int, scale: nat, places: nat)
    requires
        is_mantissa(mantissa),
    ensures
        is_mantissa(truncated(mantissa, scale, places).0),
        truncated(mantissa, scale, places).1 <= places,
{
    if scale > places {
        let d = pow10((scale - places) as nat);
        lemma_pow10_positive((scale - places) as nat);
        if mantissa >= 0 {
            assert(0 <= mantissa / d <= mantissa) by (nonlinear_arith)
                requires
                    mantissa >= 0,
                    d >= 1,
            ;
        } else {
            assert(0 <= (-mantissa) / d <= -mantissa) by (nonlinear_arith)
                requires
                    -mantissa >= 0,
                    d >= 1,
            ;
        }
    }
}

proof fn lemma_pow10_positive(n: nat)
    ensures
        pow10(n) >= 1,
    decreases n,
{
    if n > 0 {
        lemma_pow10_positive((n - 1) as nat);
    }
}

/// Stripping zeros never makes a mantissa larger, nor a scale.
proof fn lemma_stripped_bounds(mantissa: int, scale: nat)
    requires
        is_mantissa(mantissa),
    ensures
        is_mantissa(stripped(mantissa, scale).0),
        stripped(mantissa, scale).1 <= scale,
    decreases scale,
{
    if scale > 0 && mantissa % 10 == 0 {
        lemma_stripped_bounds(mantissa / 10, (scale - 1) as nat);
    }
}

impl Amount {
    /// What holds of every amount: it is [`representable`].
    #[verifier::type_invariant]
    pub open spec fn within_bounds(self) -> bool {
        representable(self@)
    }

    /// No money.
    pub fn zero() -> (r: Amount)
        ensures
            r@ == 0,
    {
        Amount { units: 0 }
    }

    /// The amount of `units` ten-thousandths, where one exists.
    pub fn from_units(units: i128) -> (r: Option<Amount>)
        ensures
            match r {
                Some(a) => representable(units as int) && a@ == units,
                None => !representable(units as int),
            },
    {
        if units < -MAX_UNITS || units > MAX_UNITS {
            None
        } else {
            Some(Amount { units })
        }
    }

    /// The ten-thousandths held.
    pub fn units(&self) -> (u: i128)
        ensures
            u == self@,
            representable(u as int),
    {
        proof {
            use_type_invariant(self);
        }
        self.units
    }

    /// The amount that the decimal `mantissa / 10^scale` stands for, its
    /// fraction cut to four digits toward zero.
    pub fn from_decimal(mantissa: i128, scale: u32) -> (r: Option<Amount>)
        ensures
            match r {
                Some(a) => units_of_decimal(mantissa as int, scale as nat) == Some(a@),
                None => units_of_decimal(mantissa as int, scale as nat) is None,
            },
    {
        if mantissa < -MAX_MANTISSA || mantissa > MAX_MANTISSA || scale > MAX_SCALE {
            return None;
        }
        let cut = decimal_truncate(mantissa, scale, SCALE);
        proof {
            lemma_truncated_bounds(mantissa as int, scale as nat, SCALE as nat);
        }
        let factor: i128 = power_of_ten(SCALE - cut.1);
        assert(-MAX_MANTISSA * 10_000 <= cut.0 * factor <= MAX_MANTISSA * 10_000)
            by (nonlinear_arith)
            requires
                -MAX_MANTISSA <= cut.0 <= MAX_MANTISSA,
                1 <= factor <= 10_000,
        ;
        let units: i128 = cut.0 * factor;
        Amount::from_units(units)
    }

    /// The amount that a decimal text stands for: the decimal that
    /// `rust_decimal` reads from it, its fraction cut to four digits toward
    /// zero.
    pub fn parse(text: &str) -> (r: Option<Amount>)
        ensures
            match r {
                Some(a) => units_of_text(text@) == Some(a@),
                None => units_of_text(text@) is None,
            },
    {
        match decimal_from_str(text) {
            Some(d) => Amount::from_decimal(d.0, d.1),
            None => None,
        }
    }

    /// The sum, where it is representable.
    pub fn checked_add(self, other: Amount) -> (r: Option<Amount>)
        ensures
            match r {
                Some(a) => representable(self@ + other@) && a@ == self@ + other@,
                None => !representable(self@ + other@),
            },
    {
        proof {
            use_type_invariant(self);
            use_type_invariant(other);
        }
        let sum: i128 = self.units + other.units;
        if sum < -MAX_UNITS || sum > MAX_UNITS {
            return None;
        }
        match decimal_add(self.units, other.units, SCALE) {
            Some(d) => Some(Amount { units: d.0 }),
            None => None,
        }
    }

    /// The difference, where it is representable.
    pub fn checked_sub(self, other: Amount) -> (r: Option<Amount>)
        ensures
            match r {
                Some(a) => representable(self@ - other@) && a@ == self@ - other@,
                None => !representable(self@ - other@),
            },
    {
        proof {
            use_type_invariant(self);
            use_type_invariant(other);
        }
        let difference: i128 = self.units - other.units;
        if difference < -MAX_UNITS || difference > MAX_UNITS {
            return None;
        }
        match decimal_sub(self.units, other.units, SCALE) {
            Some(d) => Some(Amount { units: d.0 }),
            None => None,
        }
    }

    /// The sum of two amounts.
    pub fn plus(self, other: Amount) -> (r: Amount)
        requires
            representable(self@ + other@),
        ensures
            r@ == self@ + other@,
    {
        match self.checked_add(other) {
            Some(a) => a,
            None => vstd::pervasive::unreached(),
        }
    }

    /// The difference of two amounts.
    pub fn minus(self, other: Amount) -> (r: Amount)
        requires
            representable(self@ - other@),
        ensures
            r@ == self@ - other@,
    {
        match self.checked_sub(other) {
            Some(a) => a,
            None => vstd::pervasive::unreached(),
        }
    }

    /// Whether this amount is smaller than `other`.
    pub fn less_than(&self, other: &Amount) -> (r: bool)
        ensures
            r == (self@ < other@),
    {
        proof {
            use_type_invariant(self);
            use_type_invariant(other);
        }
        decimal_lt(self.units, other.units, SCALE)
    }

    /// The amount as decimal text, without trailing fractional zeros.
    pub fn to_text(&self) -> (text: String)
        ensures
            text@ == text_of_units(self@),
    {
        proof {
            use_type_invariant(self);
            lemma_stripped_bounds(self.units as int, SCALE as nat);
        }
        let short = decimal_normalize(self.units, SCALE);
        decimal_to_string(short.0, short.1)
    }
}

} // verus!
