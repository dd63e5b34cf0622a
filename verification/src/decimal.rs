//! Fixed-point decimals with 18 fractional digits, and the integer/decimal
//! operations the protocol performs on them.
use vstd::prelude::*;

verus! {

/// 10^18: the number of atomic units in one whole `Decimal`.
pub const DECIMAL_FRACTIONAL: u128 = 1_000_000_000_000_000_000u128;

/// Why a checked arithmetic operation was refused.
#[derive(Clone, Copy, Debug, PartialEq, Eq, Structural)]
pub enum MathError {
    Overflow,
    DivideByZero,
}

/// A non-negative fixed-point number: `atomics / 10^18`.
#[derive(Clone, Copy, Debug, PartialEq, Eq, Structural)]
pub struct Decimal {
    pub atomics: u128,
}

/// `a * d / 10^18`, rounded down: an integer amount multiplied by a decimal.
pub open spec fn spec_mul_floor(a: int, d: int) -> int {
    a * d / (DECIMAL_FRACTIONAL as int)
}

/// `n * 10^18 / d`, rounded down: the atomics of the ratio `n / d`.
pub open spec fn spec_ratio(n: int, d: int) -> int {
    n * (DECIMAL_FRACTIONAL as int) / d
}

/// `n * 10^18 / d`, rounded up.
pub open spec fn spec_ratio_ceil(n: int, d: int) -> int {
    (n * (DECIMAL_FRACTIONAL as int) + d - 1) / d
}

/// `a * n / d`, rounded down.
pub open spec fn spec_mul_ratio(a: int, n: int, d: int) -> int {
    a * n / d
}


/// A value that fits an unsigned 128-bit integer.
pub open spec fn fits_u128(v: int) -> bool {
    0 <= v <= u128::MAX
}

/// Checked decimal product (atomics), `None` on overflow.
pub open spec fn opt_dec_mul(a: int, b: int) -> Option<int> {
    if fits_u128(spec_mul_floor(a, b)) { Some(spec_mul_floor(a, b)) } else { None }
}

/// Checked sum, `None` on overflow.
pub open spec fn opt_add(a: int, b: int) -> Option<int> {
    if a + b <= u128::MAX { Some(a + b) } else { None }
}

/// Checked decimal quotient (atomics), `None` on a zero divisor or overflow.
pub open spec fn opt_dec_div(a: int, b: int) -> Option<int> {
    if b != 0 && spec_ratio(a, b) <= u128::MAX { Some(spec_ratio(a, b)) } else { None }
}

/// Wrapper of `cosmwasm_std::Decimal::checked_from_ratio`: the atomics of
/// `numerator / denominator`, i.e. `numerator * 10^18 / denominator` rounded down,
/// refused when the denominator is zero or the result exceeds `u128::MAX`.
#[verifier::external_body]
fn cw_checked_from_ratio(numerator: u128, denominator: u128) -> (r: Result<u128, MathError>)
    ensures
        r is Ok <==> (denominator != 0 && spec_ratio(numerator as int, denominator as int) <= u128::MAX),
        r matches Err(e) ==> (e == MathError::DivideByZero <==> denominator == 0),
        r matches Ok(v) ==> v == spec_ratio(numerator as int, denominator as int),
{
    match cosmwasm_std::Decimal::checked_from_ratio(numerator, denominator) {
        Ok(d) => Ok(d.atomics().u128()),
        Err(cosmwasm_std::CheckedFromRatioError::DivideByZero) => Err(MathError::DivideByZero),
        Err(cosmwasm_std::CheckedFromRatioError::Overflow) => Err(MathError::Overflow),
    }
}

/// Wrapper of `cosmwasm_std::Decimal::checked_mul`: the atomics of `a * b`, that is
/// `a * b / 10^18` rounded down, refused when it exceeds `u128::MAX`.
#[verifier::external_body]
fn cw_decimal_checked_mul(a: u128, b: u128) -> (r: Option<u128>)
    ensures
        r is Some <==> spec_mul_floor(a as int, b as int) <= u128::MAX,
        r matches Some(v) ==> v == spec_mul_floor(a as int, b as int),
{
    match cosmwasm_std::Decimal::raw(a).checked_mul(cosmwasm_std::Decimal::raw(b)) {
        Ok(d) => Some(d.atomics().u128()),
        Err(_) => None,
    }
}

/// Wrapper of `cosmwasm_std::Uint128::checked_mul_floor` with a `Decimal` of the given
/// atomics: `a * atomics / 10^18` rounded down, refused when it exceeds `u128::MAX`.
#[verifier::external_body]
fn cw_checked_mul_floor(a: u128, atomics: u128) -> (r: Option<u128>)
    ensures
        r is Some <==> spec_mul_floor(a as int, atomics as int) <= u128::MAX,
        r matches Some(v) ==> v == spec_mul_floor(a as int, atomics as int),
{
    match cosmwasm_std::Uint128::new(a).checked_mul_floor(cosmwasm_std::Decimal::raw(atomics)) {
        Ok(v) => Some(v.u128()),
        Err(_) => None,
    }
}

/// Wrapper of `cosmwasm_std::Uint128::checked_div_ceil` with a `Decimal` of the given
/// atomics: `a * 10^18 / atomics` rounded up, refused when `atomics` is zero or the
/// result exceeds `u128::MAX`.
#[verifier::external_body]
fn cw_checked_div_ceil(a: u128, atomics: u128) -> (r: Result<u128, MathError>)
    ensures
        r is Ok <==> (atomics != 0 && spec_ratio_ceil(a as int, atomics as int) <= u128::MAX),
        r matches Err(e) ==> (e == MathError::DivideByZero <==> atomics == 0),
        r matches Ok(v) ==> v == spec_ratio_ceil(a as int, atomics as int),
{
    match cosmwasm_std::Uint128::new(a).checked_div_ceil(cosmwasm_std::Decimal::raw(atomics)) {
        Ok(v) => Ok(v.u128()),
        Err(cosmwasm_std::CheckedMultiplyFractionError::DivideByZero(_)) => Err(MathError::DivideByZero),
        Err(_) => Err(MathError::Overflow),
    }
}

/// Wrapper of `cosmwasm_std::Uint128::checked_multiply_ratio`: `a * numerator / denominator`
/// rounded down, refused when the denominator is zero or the result exceeds `u128::MAX`.
#[verifier::external_body]
fn cw_checked_multiply_ratio(a: u128, numerator: u128, denominator: u128) -> (r: Result<u128, MathError>)
    ensures
        r is Ok <==> (denominator != 0 && spec_mul_ratio(a as int, numerator as int, denominator as int) <= u128::MAX),
        r matches Err(e) ==> (e == MathError::DivideByZero <==> denominator == 0),
        r matches Ok(v) ==> v == spec_mul_ratio(a as int, numerator as int, denominator as int),
{
    match cosmwasm_std::Uint128::new(a).checked_multiply_ratio(numerator, denominator) {
        Ok(v) => Ok(v.u128()),
        Err(cosmwasm_std::CheckedMultiplyRatioError::DivideByZero) => Err(MathError::DivideByZero),
        Err(cosmwasm_std::CheckedMultiplyRatioError::Overflow) => Err(MathError::Overflow),
    }
}

impl Decimal {
    /// The value as a mathematical integer of atomic units.
    pub open spec fn val(self) -> int {
        self.atomics as int
    }

    pub fn zero() -> (r: Decimal)
        ensures
            r.atomics == 0,
    {
        Decimal { atomics: 0 }
    }

    pub fn one() -> (r: Decimal)
        ensures
            r.atomics == DECIMAL_FRACTIONAL,
    {
        Decimal { atomics: DECIMAL_FRACTIONAL }
    }

    /// A decimal given directly by its atomic units.
    pub fn raw(atomics: u128) -> (r: Decimal)
        ensures
            r.atomics == atomics,
    {
        Decimal { atomics }
    }

    pub fn is_zero(&self) -> (r: bool)
        ensures
            r == (self.atomics == 0),
    {
        self.atomics == 0
    }

    /// `numerator / denominator` as a decimal, rounded down to 18 digits.
    pub fn from_ratio(numerator: u128, denominator: u128) -> (r: Result<Decimal, MathError>)
        ensures
            r is Ok <==> (denominator != 0 && spec_ratio(numerator as int, denominator as int) <= u128::MAX),
            r matches Err(e) ==> (e == MathError::DivideByZero <==> denominator == 0),
            r matches Ok(d) ==> d.val() == spec_ratio(numerator as int, denominator as int),
    {
        match cw_checked_from_ratio(numerator, denominator) {
            Ok(v) => Ok(Decimal { atomics: v }),
            Err(e) => Err(e),
        }
    }

    pub fn checked_add(self, other: Decimal) -> (r: Result<Decimal, MathError>)
        ensures
            r is Ok <==> self.val() + other.val() <= u128::MAX,
            r matches Ok(d) ==> d.val() == self.val() + other.val(),
            r matches Err(e) ==> e == MathError::Overflow,
    {
        match self.atomics.checked_add(other.atomics) {
            Some(v) => Ok(Decimal { atomics: v }),
            None => Err(MathError::Overflow),
        }
    }

    pub fn checked_sub(self, other: Decimal) -> (r: Result<Decimal, MathError>)
        ensures
            r is Ok <==> self.val() >= other.val(),
            r matches Ok(d) ==> d.val() == self.val() - other.val(),
            r matches Err(e) ==> e == MathError::Overflow,
    {
        if self.atomics >= other.atomics {
            Ok(Decimal { atomics: self.atomics - other.atomics })
        } else {
            Err(MathError::Overflow)
        }
    }

    /// `self * other`, rounded down to 18 digits.
    pub fn checked_mul(self, other: Decimal) -> (r: Result<Decimal, MathError>)
        ensures
            r is Ok <==> spec_mul_floor(self.val(), other.val()) <= u128::MAX,
            r matches Ok(d) ==> d.val() == spec_mul_floor(self.val(), other.val()),
            r matches Err(e) ==> e == MathError::Overflow,
    {
        match cw_decimal_checked_mul(self.atomics, other.atomics) {
            Some(v) => Ok(Decimal { atomics: v }),
            None => Err(MathError::Overflow),
        }
    }

    /// `self / other`, rounded down to 18 digits.
    pub fn checked_div(self, other: Decimal) -> (r: Result<Decimal, MathError>)
        ensures
            r is Ok <==> (other.val() != 0 && spec_ratio(self.val(), other.val()) <= u128::MAX),
            r matches Err(e) ==> (e == MathError::DivideByZero <==> other.val() == 0),
            r matches Ok(d) ==> d.val() == spec_ratio(self.val(), other.val()),
    {
        Decimal::from_ratio(self.atomics, other.atomics)
    }
}

/// `amount * d`, rounded down (an integer amount scaled by a decimal factor).
pub fn mul_floor(amount: u128, d: Decimal) -> (r: Result<u128, MathError>)
    ensures
        r is Ok <==> spec_mul_floor(amount as int, d.val()) <= u128::MAX,
        r matches Ok(v) ==> v == spec_mul_floor(amount as int, d.val()),
        r matches Err(e) ==> e == MathError::Overflow,
{
    match cw_checked_mul_floor(amount, d.atomics) {
        Some(v) => Ok(v),
        None => Err(MathError::Overflow),
    }
}

/// `amount / d`, rounded down.
pub fn divide_uint128_by_decimal(amount: u128, d: Decimal) -> (r: Result<u128, MathError>)
    ensures
        r is Ok <==> (d.val() != 0 && spec_ratio(amount as int, d.val()) <= u128::MAX),
        r matches Err(e) ==> (e == MathError::DivideByZero <==> d.val() == 0),
        r matches Ok(v) ==> v == spec_ratio(amount as int, d.val()),
{
    cw_checked_multiply_ratio(amount, DECIMAL_FRACTIONAL, d.atomics)
}

/// `amount / d`, rounded up.
pub fn divide_uint128_by_decimal_and_ceil(amount: u128, d: Decimal) -> (r: Result<u128, MathError>)
    ensures
        r is Ok <==> (d.val() != 0 && spec_ratio_ceil(amount as int, d.val()) <= u128::MAX),
        r matches Err(e) ==> (e == MathError::DivideByZero <==> d.val() == 0),
        r matches Ok(v) ==> v == spec_ratio_ceil(amount as int, d.val()),
{
    cw_checked_div_ceil(amount, d.atomics)
}

/// `amount * numerator / denominator`, rounded down.
pub fn multiply_ratio(amount: u128, numerator: u128, denominator: u128) -> (r: Result<u128, MathError>)
    ensures
        r is Ok <==> (denominator != 0 && spec_mul_ratio(amount as int, numerator as int, denominator as int) <= u128::MAX),
        r matches Err(e) ==> (e == MathError::DivideByZero <==> denominator == 0),
        r matches Ok(v) ==> v == spec_mul_ratio(amount as int, numerator as int, denominator as int),
{
    cw_checked_multiply_ratio(amount, numerator, denominator)
}

/// Scaling an amount by a factor of at most one does not increase it.
pub proof fn lemma_mul_floor_le_amount(amount: int, factor: int)
    requires
        amount >= 0,
        0 <= factor <= DECIMAL_FRACTIONAL,
    ensures
        0 <= spec_mul_floor(amount, factor) <= amount,
{
    assert(0 <= amount * factor <= amount * DECIMAL_FRACTIONAL) by (nonlinear_arith)
        requires
            amount >= 0,
            0 <= factor <= DECIMAL_FRACTIONAL,
    ;
    crate::arith::lemma_div_monotone(amount * factor, amount * DECIMAL_FRACTIONAL, DECIMAL_FRACTIONAL as int);
    crate::arith::lemma_mul_div_cancel(amount, DECIMAL_FRACTIONAL as int);
    vstd::arithmetic::div_mod::lemma_div_pos_is_pos(amount * factor, DECIMAL_FRACTIONAL as int);
}

} // verus!
