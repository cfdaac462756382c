//! Fixed-point and ratio arithmetic of the contracts.
//!
//! Amounts are `u128` (the contracts' `Uint128`); fractions are [`Decimal`],
//! a fixed-point number with eighteen decimal places, held by its atomics.
//! The 256-bit intermediate products are computed by `cosmwasm_std`.
use vstd::prelude::*;

verus! {

/// One in atomics: `10^18`.
pub const DECIMAL_FRACTIONAL: u128 = 1_000_000_000_000_000_000u128;

/// `a * numerator / denominator`, rounded down, on unbounded integers.
pub open spec fn spec_multiply_ratio(a: int, numerator: int, denominator: int) -> int {
    (a * numerator) / denominator
}

/// The atomics of the fraction `numerator / denominator`, rounded down.
pub open spec fn spec_ratio_atomics(numerator: int, denominator: int) -> int {
    spec_multiply_ratio(numerator, DECIMAL_FRACTIONAL as int, denominator)
}

/// An amount times a decimal given by its atomics, rounded down.
pub open spec fn spec_mul_decimal(amount: int, atomics: int) -> int {
    spec_multiply_ratio(amount, atomics, DECIMAL_FRACTIONAL as int)
}

/// A fixed-point fraction with eighteen decimal places: the value is
/// `atomics / 10^18`.
#[derive(Clone, Copy, Debug, PartialEq, Eq, Structural)]
pub struct Decimal {
    pub atomics: u128,
}

/// `Uint128::multiply_ratio` of `cosmwasm_std`: `a * numerator / denominator`
/// computed through a 256-bit product and rounded down. It panics when the
/// denominator is zero or the quotient does not fit in 128 bits, so both are
/// excluded here.
#[verifier::external_body]
fn cw_multiply_ratio(a: u128, numerator: u128, denominator: u128) -> (r: u128)
    requires
        denominator != 0,
        spec_multiply_ratio(a as int, numerator as int, denominator as int) <= u128::MAX,
    ensures
        r as int == spec_multiply_ratio(a as int, numerator as int, denominator as int),
{
    cosmwasm_std::Uint128::new(a).multiply_ratio(numerator, denominator).u128()
}

/// `Decimal::from_ratio` of `cosmwasm_std`: the decimal whose atomics are
/// `numerator * 10^18 / denominator`, rounded down. It panics on a zero
/// denominator and when the atomics overflow, both excluded here.
#[verifier::external_body]
fn cw_decimal_from_ratio(numerator: u128, denominator: u128) -> (r: Decimal)
    requires
        denominator != 0,
        spec_ratio_atomics(numerator as int, denominator as int) <= u128::MAX,
    ensures
        r.atomics as int == spec_ratio_atomics(numerator as int, denominator as int),
{
    Decimal { atomics: cosmwasm_std::Decimal::from_ratio(numerator, denominator).atomics().u128() }
}

/// `Uint128 * Decimal` of `cosmwasm_std`: `amount * atomics / 10^18`, rounded
/// down (zero when either side is zero). It panics when the product does not
/// fit in 128 bits, which is excluded here.
#[verifier::external_body]
fn cw_mul_decimal(amount: u128, d: Decimal) -> (r: u128)
    requires
        spec_mul_decimal(amount as int, d.atomics as int) <= u128::MAX,
    ensures
        r as int == spec_mul_decimal(amount as int, d.atomics as int),
{
    (cosmwasm_std::Uint128::new(amount) * cosmwasm_std::Decimal::new(
        cosmwasm_std::Uint128::new(d.atomics),
    )).u128()
}

/// `Uint128::checked_multiply_ratio` of `cosmwasm_std`: `a * numerator /
/// denominator` computed through a 256-bit product and rounded down, or
/// nothing when the denominator is zero or the quotient does not fit in 128
/// bits.
#[verifier::external_body]
fn cw_checked_multiply_ratio(a: u128, numerator: u128, denominator: u128) -> (r: Option<u128>)
    ensures
        denominator == 0 ==> r is None,
        denominator != 0 ==> r == (if spec_multiply_ratio(a as int, numerator as int, denominator as int)
            <= u128::MAX {
            Some(spec_multiply_ratio(a as int, numerator as int, denominator as int) as u128)
        } else {
            None
        }),
{
    match cosmwasm_std::Uint128::new(a).checked_multiply_ratio(numerator, denominator) {
        Ok(v) => Some(v.u128()),
        Err(_) => None,
    }
}

/// `a * numerator / denominator`, rounded down, when the denominator is not
/// zero and the quotient fits in 128 bits; nothing otherwise.
pub fn checked_multiply_ratio(a: u128, numerator: u128, denominator: u128) -> (r: Option<u128>)
    ensures
        r is Some <==> denominator != 0 && spec_multiply_ratio(
            a as int,
            numerator as int,
            denominator as int,
        ) <= u128::MAX,
        r is Some ==> r->Some_0 as int == spec_multiply_ratio(
            a as int,
            numerator as int,
            denominator as int,
        ),
{
    cw_checked_multiply_ratio(a, numerator, denominator)
}

/// `a * numerator / denominator`, rounded down, with a 256-bit intermediate
/// product (the contracts' `Uint128::multiply_ratio`).
pub fn multiply_ratio(a: u128, numerator: u128, denominator: u128) -> (r: u128)
    requires
        denominator != 0,
        spec_multiply_ratio(a as int, numerator as int, denominator as int) <= u128::MAX,
    ensures
        r as int == spec_multiply_ratio(a as int, numerator as int, denominator as int),
{
    cw_multiply_ratio(a, numerator, denominator)
}

/// `amount * d`, rounded down.
pub fn mul_decimal(amount: u128, d: Decimal) -> (r: u128)
    requires
        spec_mul_decimal(amount as int, d.atomics as int) <= u128::MAX,
    ensures
        r as int == spec_mul_decimal(amount as int, d.atomics as int),
{
    cw_mul_decimal(amount, d)
}

impl Decimal {
    /// The decimal `0`.
    pub fn zero() -> (r: Decimal)
        ensures
            r.atomics == 0,
    {
        Decimal { atomics: 0 }
    }

    /// The decimal `1`.
    pub fn one() -> (r: Decimal)
        ensures
            r.atomics == DECIMAL_FRACTIONAL,
    {
        Decimal { atomics: DECIMAL_FRACTIONAL }
    }

    /// The decimal `x / 100`.
    pub fn percent(x: u64) -> (r: Decimal)
        ensures
            r.atomics == x * 10_000_000_000_000_000,
    {
        Decimal { atomics: (x as u128) * 10_000_000_000_000_000u128 }
    }

    /// The decimal `numerator / denominator`, rounded down to eighteen places.
    pub fn from_ratio(numerator: u128, denominator: u128) -> (r: Decimal)
        requires
            denominator != 0,
            spec_ratio_atomics(numerator as int, denominator as int) <= u128::MAX,
        ensures
            r.atomics as int == spec_ratio_atomics(numerator as int, denominator as int),
    {
        cw_decimal_from_ratio(numerator, denominator)
    }

    /// Whether the decimal is zero.
    pub fn is_zero(&self) -> (r: bool)
        ensures
            r == (self.atomics == 0),
    {
        self.atomics == 0
    }

    /// The sum of two decimals.
    pub fn add(self, other: Decimal) -> (r: Decimal)
        requires
            self.atomics + other.atomics <= u128::MAX,
        ensures
            r.atomics == self.atomics + other.atomics,
    {
        Decimal { atomics: self.atomics + other.atomics }
    }
}

/// `q * d <= x` bounds `q` by the quotient `x / d`.
pub(crate) proof fn lemma_le_div(q: int, d: int, x: int)
    requires
        d > 0,
        q * d <= x,
    ensures
        q <= x / d,
{
    vstd::arithmetic::div_mod::lemma_fundamental_div_mod(x, d);
    vstd::arithmetic::div_mod::lemma_mod_bound(x, d);
    let m = x / d;
    let r = x % d;
    assert(q <= m) by (nonlinear_arith)
        requires
            x == d * m + r,
            0 <= r < d,
            q * d <= x,
            d > 0,
    ;
}

/// The quotient `x / d` times `d` does not exceed `x`.
pub(crate) proof fn lemma_div_mul_le(x: int, d: int)
    requires
        x >= 0,
        d > 0,
    ensures
        (x / d) * d <= x,
        x / d >= 0,
{
    vstd::arithmetic::div_mod::lemma_fundamental_div_mod(x, d);
    vstd::arithmetic::div_mod::lemma_mod_bound(x, d);
    vstd::arithmetic::div_mod::lemma_div_pos_is_pos(x, d);
    let m = x / d;
    assert(m * d <= x) by (nonlinear_arith)
        requires
            x == d * m + x % d,
            x % d >= 0,
    ;
}

/// A ratio of non-negative amounts is non-negative.
pub(crate) proof fn lemma_ratio_nonneg(n: int, d: int)
    requires
        n >= 0,
        d > 0,
    ensures
        spec_ratio_atomics(n, d) >= 0,
{
    assert(n * 1_000_000_000_000_000_000 >= 0) by (nonlinear_arith)
        requires
            n >= 0,
    ;
}

} // verus!
