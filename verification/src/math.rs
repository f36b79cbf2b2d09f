//! Fixed-point decimal arithmetic.
//!
//! A [`Decimal`] is a ratio with 18 fractional digits, stored as a count
//! of atomic units (`10^-18`). Every product and quotient is the floor of
//! the exact rational result; the heavy lifting (a 256-bit intermediate
//! product) is done by `cosmwasm_std`, behind one trusted wrapper whose
//! contract is the floor formula itself. Sums, differences and
//! comparisons act directly on the atomic units and are verified here.

use vstd::prelude::*;

use crate::error::{ArithmeticOp, Error};

verus! {

/// Number of atomic units in one whole unit: 10^18.
pub const DECIMAL_FRACTIONAL: u128 = 1_000_000_000_000_000_000;

/// Floor of `a * b / c` over unbounded integers.
pub open spec fn mul_div(a: int, b: int, c: int) -> int {
    (a * b) / c
}

/// Relies on `cosmwasm_std::Uint128::checked_multiply_ratio`: the full
/// 256-bit product `a * b` divided by `c` and floored, `None` exactly
/// when the quotient does not fit in a `u128`. `c` must not be zero, or
/// the call reports a division by zero instead.
#[verifier::external_body]
fn checked_mul_ratio(a: u128, b: u128, c: u128) -> (r: Option<u128>)
    requires
        c != 0,
    ensures
        r is Some <==> mul_div(a as int, b as int, c as int) <= u128::MAX,
        r matches Some(v) ==> v == mul_div(a as int, b as int, c as int),
{
    cosmwasm_std::Uint128::new(a)
        .checked_multiply_ratio(b, c)
        .ok()
        .map(|v| v.u128())
}

/// A fixed-point decimal: `atomics` counts units of 10^-18.
#[derive(Clone, Copy, Debug, PartialEq, Eq, Structural)]
pub struct Decimal {
    pub atomics: u128,
}

impl Decimal {
    /// The decimal with the given count of atomic units.
    pub fn raw(value: u128) -> (r: Decimal)
        ensures
            r.atomics == value,
    {
        Decimal { atomics: value }
    }

    /// Zero.
    pub fn zero() -> (r: Decimal)
        ensures
            r.atomics == 0,
    {
        Decimal { atomics: 0 }
    }

    /// One whole unit.
    pub fn one() -> (r: Decimal)
        ensures
            r.atomics == DECIMAL_FRACTIONAL,
    {
        Decimal { atomics: DECIMAL_FRACTIONAL }
    }

    /// The count of atomic units.
    pub fn atomics(&self) -> (r: u128)
        ensures
            r == self.atomics,
    {
        self.atomics
    }

    /// True iff the value is zero.
    pub fn is_zero(&self) -> (r: bool)
        ensures
            r == (self.atomics == 0),
    {
        self.atomics == 0
    }

    /// True iff `self < other`.
    pub fn lt(&self, other: &Decimal) -> (r: bool)
        ensures
            r == (self.atomics < other.atomics),
    {
        self.atomics < other.atomics
    }

    /// The ratio `numerator / denominator`, floored to 18 fractional
    /// digits. The caller must rule out the inputs on which the exact
    /// ratio cannot be represented.
    pub fn from_ratio(numerator: u128, denominator: u128) -> (r: Decimal)
        requires
            denominator != 0,
            mul_div(numerator as int, DECIMAL_FRACTIONAL as int, denominator as int)
                <= u128::MAX,
        ensures
            r.atomics == mul_div(
                numerator as int,
                DECIMAL_FRACTIONAL as int,
                denominator as int,
            ),
    {
        let atomics = checked_mul_ratio(numerator, DECIMAL_FRACTIONAL, denominator);
        Decimal { atomics: atomics.unwrap() }
    }

    /// The sum; the caller must rule out overflow.
    pub fn add(self, other: Decimal) -> (r: Decimal)
        requires
            self.atomics + other.atomics <= u128::MAX,
        ensures
            r.atomics == self.atomics + other.atomics,
    {
        Decimal { atomics: self.atomics + other.atomics }
    }

    /// The difference, or an underflow error when `other` exceeds `self`.
    pub fn checked_sub(self, other: Decimal) -> (r: Result<Decimal, Error>)
        ensures
            self.atomics >= other.atomics ==> r == Ok::<Decimal, Error>(
                (Decimal { atomics: (self.atomics - other.atomics) as u128 }),
            ),
            self.atomics < other.atomics ==> r == Err::<Decimal, Error>(
                (Error::Overflow {
                    op: ArithmeticOp::Sub,
                    operand1: self.atomics,
                    operand2: other.atomics,
                }),
            ),
    {
        if self.atomics >= other.atomics {
            Ok(Decimal { atomics: self.atomics - other.atomics })
        } else {
            Err(Error::Overflow {
                op: ArithmeticOp::Sub,
                operand1: self.atomics,
                operand2: other.atomics,
            })
        }
    }

    /// The floored product, or an overflow error when it does not fit.
    pub fn checked_mul(self, other: Decimal) -> (r: Result<Decimal, Error>)
        ensures
            mul_div(self.atomics as int, other.atomics as int, DECIMAL_FRACTIONAL as int)
                <= u128::MAX ==> r == Ok::<Decimal, Error>(
                (Decimal {
                    atomics: mul_div(
                        self.atomics as int,
                        other.atomics as int,
                        DECIMAL_FRACTIONAL as int,
                    ) as u128,
                }),
            ),
            mul_div(self.atomics as int, other.atomics as int, DECIMAL_FRACTIONAL as int)
                > u128::MAX ==> r == Err::<Decimal, Error>(
                (Error::Overflow {
                    op: ArithmeticOp::Mul,
                    operand1: self.atomics,
                    operand2: other.atomics,
                }),
            ),
    {
        match checked_mul_ratio(self.atomics, other.atomics, DECIMAL_FRACTIONAL) {
            Some(atomics) => Ok(Decimal { atomics }),
            None => Err(Error::Overflow {
                op: ArithmeticOp::Mul,
                operand1: self.atomics,
                operand2: other.atomics,
            }),
        }
    }

    /// The floored quotient, or an overflow error when it does not fit.
    /// The caller must rule out a zero divisor.
    pub fn checked_div(self, other: Decimal) -> (r: Result<Decimal, Error>)
        requires
            other.atomics != 0,
        ensures
            mul_div(self.atomics as int, DECIMAL_FRACTIONAL as int, other.atomics as int)
                <= u128::MAX ==> r == Ok::<Decimal, Error>(
                (Decimal {
                    atomics: mul_div(
                        self.atomics as int,
                        DECIMAL_FRACTIONAL as int,
                        other.atomics as int,
                    ) as u128,
                }),
            ),
            mul_div(self.atomics as int, DECIMAL_FRACTIONAL as int, other.atomics as int)
                > u128::MAX ==> r == Err::<Decimal, Error>(
                (Error::Overflow {
                    op: ArithmeticOp::Div,
                    operand1: self.atomics,
                    operand2: other.atomics,
                }),
            ),
    {
        match checked_mul_ratio(self.atomics, DECIMAL_FRACTIONAL, other.atomics) {
            Some(atomics) => Ok(Decimal { atomics }),
            None => Err(Error::Overflow {
                op: ArithmeticOp::Div,
                operand1: self.atomics,
                operand2: other.atomics,
            }),
        }
    }
}

/// `amount * price` as a value in common units, kept as a decimal, or
/// `None` when the product does not fit. An amount of whole asset units
/// times a price per unit needs no flooring: the product is exact.
pub fn checked_value(amount: u128, price: Decimal) -> (r: Option<Decimal>)
    ensures
        r is Some <==> amount as int * price.atomics as int <= u128::MAX,
        r matches Some(v) ==> v.atomics == amount as int * price.atomics as int,
{
    proof {
        vstd::arithmetic::div_mod::lemma_div_basics(amount as int * price.atomics as int);
    }
    match checked_mul_ratio(amount, price.atomics, 1) {
        Some(atomics) => Some(Decimal { atomics }),
        None => None,
    }
}

/// `amount * d`, floored to a whole count of atomic units of the asset.
/// The caller must rule out the inputs on which the product overflows.
pub fn mul_amount(amount: u128, d: Decimal) -> (r: u128)
    requires
        mul_div(amount as int, d.atomics as int, DECIMAL_FRACTIONAL as int) <= u128::MAX,
    ensures
        r == mul_div(amount as int, d.atomics as int, DECIMAL_FRACTIONAL as int),
{
    checked_mul_ratio(amount, d.atomics, DECIMAL_FRACTIONAL).unwrap()
}

} // verus!
