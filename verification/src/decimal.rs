//! Non-negative fixed-point decimals with 18 fractional digits.
//!
//! Every quantity the governance rules compute with — vote powers, fee
//! amounts, option shares — is such a decimal: an integer count of
//! atto-units, held in a `u128`. A whole unit is [`DECIMAL_SCALE`]
//! atto-units. Division truncates towards zero, so a share lies in `[0, 1]`
//! and a sum of shares can fall short of one whole by at most one atto-unit
//! per summand.

use vstd::prelude::*;
use vstd::arithmetic::mul::lemma_mul_inequality;
use vstd::arithmetic::div_mod::lemma_fundamental_div_mod;

verus! {

/// Atto-units per whole unit: one decimal holds 18 fractional digits.
pub const DECIMAL_SCALE: u128 = 1_000_000_000_000_000_000;

/// A non-negative fixed-point decimal: `atto` atto-units, where
/// [`DECIMAL_SCALE`] atto-units make one whole unit.
#[derive(Clone, Copy, Debug, PartialEq, Eq, Structural)]
pub struct Decimal {
    /// The value in atto-units.
    pub atto: u128,
}

impl Decimal {
    /// The decimal zero.
    pub fn zero() -> (r: Decimal)
        ensures
            r.atto == 0,
    {
        Decimal { atto: 0 }
    }

    /// The whole number `n` as a decimal.
    pub fn from_count(n: u64) -> (r: Decimal)
        ensures
            r.atto == n * DECIMAL_SCALE,
    {
        proof {
            lemma_count_scale_fits(n as nat);
        }
        Decimal { atto: (n as u128) * DECIMAL_SCALE }
    }

    /// The sum of two decimals.
    pub fn add(self, other: Decimal) -> (r: Decimal)
        requires
            self.atto + other.atto <= u128::MAX,
        ensures
            r.atto == self.atto + other.atto,
    {
        Decimal { atto: self.atto + other.atto }
    }

    /// The difference of two decimals.
    pub fn sub(self, other: Decimal) -> (r: Decimal)
        requires
            other.atto <= self.atto,
        ensures
            r.atto == self.atto - other.atto,
    {
        Decimal { atto: self.atto - other.atto }
    }

    /// Whether `self` is at least `other`.
    pub fn ge(self, other: Decimal) -> (r: bool)
        ensures
            r == (self.atto >= other.atto),
    {
        self.atto >= other.atto
    }
}

/// The ratio `part / whole` of two whole counts, as a decimal truncated
/// towards zero; this is how an option's share of the total vote power is
/// computed.
pub fn ratio_of_counts(part: u64, whole: u64) -> (r: Decimal)
    requires
        whole > 0,
    ensures
        r.atto == (part * DECIMAL_SCALE) / (whole as int),
{
    proof {
        lemma_count_scale_fits(part as nat);
    }
    Decimal { atto: ((part as u128) * DECIMAL_SCALE) / (whole as u128) }
}

/// A whole count times [`DECIMAL_SCALE`] fits in a `u128`.
pub proof fn lemma_count_scale_fits(n: nat)
    requires
        n <= u64::MAX,
    ensures
        n * DECIMAL_SCALE <= u128::MAX,
{
    lemma_mul_inequality(n as int, u64::MAX as int, DECIMAL_SCALE as int);
}

/// Truncating division of `a * DECIMAL_SCALE` by a positive `b` lands within
/// one atto-unit below the exact ratio: `b * q <= a * DECIMAL_SCALE < b * (q + 1)`.
pub proof fn lemma_ratio_bounds(a: int, b: int)
    requires
        0 <= a,
        0 < b,
    ensures
        b * ((a * DECIMAL_SCALE) / b) <= a * DECIMAL_SCALE,
        a * DECIMAL_SCALE < b * ((a * DECIMAL_SCALE) / b) + b,
{
    let p = a * DECIMAL_SCALE;
    lemma_fundamental_div_mod(p, b);
    assert(0 <= p) by {
        lemma_mul_inequality(0, a, DECIMAL_SCALE as int);
    }
    assert(0 <= p % b < b);
}

} // verus!
