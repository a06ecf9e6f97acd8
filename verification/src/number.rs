//! Numbers of the language: IEEE-754 binary64 values held as their bit patterns.
//!
//! Comparison, negation and absolute value are computed here on the bits.
//! Rounded arithmetic, conversions and decimal text are taken from
//! `rustc_apfloat`, whose results are named by the uninterpreted functions
//! below. The machine's own floats do not occur.

use crate::text::signed_decimal;
use crate::text::whole_text;
use rustc_apfloat::ieee::Double;
use rustc_apfloat::Float;
use rustc_apfloat::Round;
use vstd::prelude::*;

verus! {

/// The sign bit of a binary64 pattern.
pub const SIGN_BIT: u64 = 0x8000_0000_0000_0000;

/// The pattern of positive infinity; every larger magnitude is a NaN.
pub const INFINITY_BITS: u64 = 0x7ff0_0000_0000_0000;

/// The pattern of `1.0`.
pub const ONE_BITS: u64 = 0x3ff0_0000_0000_0000;

/// The rounded sum of two binary64 patterns.
pub uninterp spec fn float_sum(a: u64, b: u64) -> u64;

/// The rounded difference of two binary64 patterns.
pub uninterp spec fn float_difference(a: u64, b: u64) -> u64;

/// The rounded product of two binary64 patterns.
pub uninterp spec fn float_product(a: u64, b: u64) -> u64;

/// The rounded quotient of two binary64 patterns.
pub uninterp spec fn float_quotient(a: u64, b: u64) -> u64;

/// The remainder of `a` by `b` that has the sign of `a` (C's `fmod`).
pub uninterp spec fn float_remainder(a: u64, b: u64) -> u64;

/// The binary64 pattern nearest to a count.
pub uninterp spec fn float_of_count(n: usize) -> u64;

/// A binary64 value cut to a 32-bit integer.
pub uninterp spec fn float_truncation(bits: u64) -> i32;

/// The decimal text of a binary64 value in at most `digits` significant
/// digits, in plain notation where no more than `zeros` zeros pad them.
pub uninterp spec fn float_text(bits: u64, zeros: usize, digits: usize) -> Seq<char>;

/// A binary64 value cut to a 64-bit integer, and whether nothing was cut off.
pub uninterp spec fn float_whole(bits: u64) -> (i64, bool);

/// The binary64 pattern that a decimal text stands for: `None` for a text
/// that is no number.
pub uninterp spec fn float_parsed(text: Seq<char>) -> Option<u64>;

/// A number of the language: the 64 bits of an IEEE-754 binary64 value.
#[derive(Clone, Copy, Debug)]
pub struct Number {
    pub bits: u64,
}

/// `<Double as Add>::add` (round to nearest, ties to even) on patterns.
/// Claims only that the sum is a function of the two patterns.
#[verifier::external_body]
fn apfloat_add(a: u64, b: u64) -> (r: u64)
    ensures
        r == float_sum(a, b),
{
    (Double::from_bits(a as u128) + Double::from_bits(b as u128)).value.to_bits() as u64
}

/// `<Double as Sub>::sub` on patterns.
/// Claims only that the difference is a function of the two patterns.
#[verifier::external_body]
fn apfloat_sub(a: u64, b: u64) -> (r: u64)
    ensures
        r == float_difference(a, b),
{
    (Double::from_bits(a as u128) - Double::from_bits(b as u128)).value.to_bits() as u64
}

/// `<Double as Mul>::mul` on patterns.
/// Claims only that the product is a function of the two patterns.
#[verifier::external_body]
fn apfloat_mul(a: u64, b: u64) -> (r: u64)
    ensures
        r == float_product(a, b),
{
    (Double::from_bits(a as u128) * Double::from_bits(b as u128)).value.to_bits() as u64
}

/// `<Double as Div>::div` on patterns.
/// Claims only that the quotient is a function of the two patterns.
#[verifier::external_body]
fn apfloat_div(a: u64, b: u64) -> (r: u64)
    ensures
        r == float_quotient(a, b),
{
    (Double::from_bits(a as u128) / Double::from_bits(b as u128)).value.to_bits() as u64
}

/// `Float::c_fmod` on patterns.
/// Claims only that the remainder is a function of the two patterns.
#[verifier::external_body]
fn apfloat_rem(a: u64, b: u64) -> (r: u64)
    ensures
        r == float_remainder(a, b),
{
    Double::from_bits(a as u128).c_fmod(Double::from_bits(b as u128)).value.to_bits() as u64
}

/// `Float::from_u128` on a count.
/// Claims only that the pattern is a function of the count.
#[verifier::external_body]
fn apfloat_from_count(n: usize) -> (r: u64)
    ensures
        r == float_of_count(n),
{
    Double::from_u128(n as u128).value.to_bits() as u64
}

/// `Float::to_i128` with a width of 32 bits: rounds toward zero, gives zero
/// for a NaN and the nearest bound for a value out of range.
/// Claims only that the integer is a function of the pattern.
#[verifier::external_body]
fn apfloat_to_i32(bits: u64) -> (r: i32)
    ensures
        r == float_truncation(bits),
{
    Double::from_bits(bits as u128).to_i128(32).value as i32
}

/// `<Double as Display>::fmt` with at most `digits` significant digits, and
/// plain notation where no more than `zeros` zeros pad the digits.
/// The outside code drops decimal digits before it rounds: asked for no
/// digit at all it can drop every one, and then panics on its empty buffer
/// (the value 8 does). Asked for 15 digits or more it keeps the leading
/// digit of every value, so those inputs alone are admitted, and a width
/// that fits every toolchain's limit.
/// Claims only that the text is a function of the three arguments.
#[verifier::external_body]
fn apfloat_text(bits: u64, zeros: usize, digits: usize) -> (r: String)
    requires
        15 <= digits <= 17,
        zeros <= 17,
    ensures
        r@ == float_text(bits, zeros, digits),
{
    format!("{:zeros$.digits$}", Double::from_bits(bits as u128))
}

/// `Float::to_i128_r` with a width of 64 bits, toward zero: the integer, and
/// the flag that says whether the integer is the value itself.
/// Claims only that both are functions of the pattern.
#[verifier::external_body]
fn apfloat_whole(bits: u64) -> (r: (i64, bool))
    ensures
        r == float_whole(bits),
{
    let mut exact = false;
    let cut = Double::from_bits(bits as u128).to_i128_r(64, Round::TowardZero, &mut exact);
    (cut.value as i64, exact)
}

/// `<Double as FromStr>::from_str`, reached through `str::parse`: the value
/// nearest to a decimal text.
/// Claims only that the pattern, or that there is none, is a function of
/// the text.
#[verifier::external_body]
fn apfloat_parse(text: &str) -> (r: Option<u64>)
    ensures
        r == float_parsed(text@),
{
    match text.parse::<Double>() {
        Ok(d) => Some(d.to_bits() as u64),
        Err(_) => None,
    }
}

impl Number {
    /// The pattern without its sign bit.
    pub open spec fn magnitude(self) -> int {
        if self.bits >= SIGN_BIT {
            self.bits - SIGN_BIT
        } else {
            self.bits as int
        }
    }

    /// Whether the sign bit is set.
    pub open spec fn negative(self) -> bool {
        self.bits >= SIGN_BIT
    }

    /// A NaN has all exponent bits set and a fraction that is not zero.
    pub open spec fn is_nan(self) -> bool {
        self.magnitude() > INFINITY_BITS
    }

    /// An integer that orders the values that are not NaN as IEEE-754 does:
    /// the magnitude, negated under a sign bit, so that both zeros get 0.
    pub open spec fn key(self) -> int {
        if self.negative() {
            -self.magnitude()
        } else {
            self.magnitude()
        }
    }

    /// IEEE-754 equality: no NaN equals anything, the two zeros are equal.
    pub open spec fn same(self, other: Number) -> bool {
        !self.is_nan() && !other.is_nan() && self.key() == other.key()
    }

    /// IEEE-754 `<`.
    pub open spec fn below(self, other: Number) -> bool {
        !self.is_nan() && !other.is_nan() && self.key() < other.key()
    }

    /// IEEE-754 `<=`.
    pub open spec fn at_most(self, other: Number) -> bool {
        !self.is_nan() && !other.is_nan() && self.key() <= other.key()
    }

    /// The value with its sign bit flipped.
    pub open spec fn negated(self) -> Number {
        if self.negative() {
            Number { bits: (self.bits - SIGN_BIT) as u64 }
        } else {
            Number { bits: (self.bits + SIGN_BIT) as u64 }
        }
    }

    /// The value with its sign bit cleared.
    pub open spec fn absolute(self) -> Number {
        Number { bits: self.magnitude() as u64 }
    }

    /// The rounded sum.
    pub open spec fn plus(self, other: Number) -> Number {
        Number { bits: float_sum(self.bits, other.bits) }
    }

    /// The rounded difference.
    pub open spec fn minus(self, other: Number) -> Number {
        Number { bits: float_difference(self.bits, other.bits) }
    }

    /// The rounded product.
    pub open spec fn times(self, other: Number) -> Number {
        Number { bits: float_product(self.bits, other.bits) }
    }

    /// The rounded quotient.
    pub open spec fn over(self, other: Number) -> Number {
        Number { bits: float_quotient(self.bits, other.bits) }
    }

    /// A remainder by `divisor` made not negative: moved up by the divisor's
    /// absolute value where it is below zero, itself otherwise.
    pub open spec fn raised(self, divisor: Number) -> Number {
        if self.below(Number { bits: 0 }) {
            self.plus(divisor.absolute())
        } else {
            self
        }
    }

    /// The remainder that is never negative: the `fmod` remainder, raised.
    pub open spec fn modulo(self, other: Number) -> Number {
        (Number { bits: float_remainder(self.bits, other.bits) }).raised(other)
    }

    /// The number 1.
    pub open spec fn one() -> Number {
        Number { bits: ONE_BITS }
    }

    /// The number nearest to a count.
    pub open spec fn of_count(n: usize) -> Number {
        Number { bits: float_of_count(n) }
    }

    /// The number cut to a 32-bit integer: toward zero, zero for a NaN, the
    /// nearest bound for a value out of range.
    pub open spec fn truncation(self) -> i32 {
        float_truncation(self.bits)
    }

    /// The text of the number in `digits` significant digits, in plain
    /// notation where no more than 17 zeros pad them.
    pub open spec fn text_in(self, digits: usize) -> Seq<char> {
        float_text(self.bits, 17, digits)
    }

    /// Whether a pattern read back from a text is this number's.
    pub open spec fn read_back(self, parsed: Option<u64>) -> bool {
        parsed == Some(self.bits)
    }

    /// Whether the text in `digits` digits stands for this very number.
    pub open spec fn survives(self, digits: usize) -> bool {
        self.read_back(float_parsed(self.text_in(digits)))
    }

    /// The text of a number that is no whole number: in 15 significant
    /// digits where that text stands for the number, else in 16 where that
    /// one does, else in 17.
    pub open spec fn fraction_text(self) -> Seq<char> {
        if self.survives(15) {
            self.text_in(15)
        } else if self.survives(16) {
            self.text_in(16)
        } else {
            self.text_in(17)
        }
    }

    /// Whether the number, cut to `whole` with nothing cut off where `exact`
    /// holds, is shown as that whole number. Negative zero is not: it keeps
    /// its sign.
    pub open spec fn shown_whole(self, whole: i64, exact: bool) -> bool {
        exact && !(whole == 0 && self.negative())
    }

    /// The text of a number: `inf` or `-inf` for an infinity, the decimal
    /// digits of a whole number that fits 64 bits, else the text of a
    /// fraction.
    pub open spec fn text(self) -> Seq<char> {
        let (whole, exact) = float_whole(self.bits);
        if self.magnitude() == INFINITY_BITS {
            if self.negative() {
                "-inf"@
            } else {
                "inf"@
            }
        } else if self.shown_whole(whole, exact) {
            signed_decimal(whole as int)
        } else {
            self.fraction_text()
        }
    }

    /// The number with the given pattern.
    pub fn from_bits(bits: u64) -> (r: Number)
        ensures
            r.bits == bits,
    {
        Number { bits }
    }

    /// The pattern of the number.
    pub fn to_bits(self) -> (r: u64)
        ensures
            r == self.bits,
    {
        self.bits
    }

    fn magnitude_bits(self) -> (r: u64)
        ensures
            r == self.magnitude(),
    {
        if self.bits >= SIGN_BIT {
            self.bits - SIGN_BIT
        } else {
            self.bits
        }
    }

    /// Whether the number is a NaN.
    pub fn nan(self) -> (r: bool)
        ensures
            r == self.is_nan(),
    {
        self.magnitude_bits() > INFINITY_BITS
    }

    /// Whether `self` is ordered before (`strict`) or not after `other`.
    fn ordered(self, other: Number, strict: bool) -> (r: bool)
        ensures
            r == if strict {
                self.below(other)
            } else {
                self.at_most(other)
            },
    {
        if self.nan() || other.nan() {
            return false;
        }
        let a: u64 = self.magnitude_bits();
        let b: u64 = other.magnitude_bits();
        let a_neg: bool = self.bits >= SIGN_BIT;
        let b_neg: bool = other.bits >= SIGN_BIT;
        if a_neg && b_neg {
            if strict {
                b < a
            } else {
                b <= a
            }
        } else if a_neg {
            if strict {
                a > 0 || b > 0
            } else {
                true
            }
        } else if b_neg {
            if strict {
                false
            } else {
                a == 0 && b == 0
            }
        } else {
            if strict {
                a < b
            } else {
                a <= b
            }
        }
    }

    /// IEEE-754 `==`.
    pub fn eq(self, other: Number) -> (r: bool)
        ensures
            r == self.same(other),
    {
        if self.nan() || other.nan() {
            return false;
        }
        let a: u64 = self.magnitude_bits();
        let b: u64 = other.magnitude_bits();
        if a == 0 && b == 0 {
            true
        } else {
            self.bits == other.bits
        }
    }

    /// IEEE-754 `<`.
    pub fn lt(self, other: Number) -> (r: bool)
        ensures
            r == self.below(other),
    {
        self.ordered(other, true)
    }

    /// IEEE-754 `<=`.
    pub fn le(self, other: Number) -> (r: bool)
        ensures
            r == self.at_most(other),
    {
        self.ordered(other, false)
    }

    /// IEEE-754 `>`.
    pub fn gt(self, other: Number) -> (r: bool)
        ensures
            r == other.below(self),
    {
        other.ordered(self, true)
    }

    /// IEEE-754 `>=`.
    pub fn ge(self, other: Number) -> (r: bool)
        ensures
            r == other.at_most(self),
    {
        other.ordered(self, false)
    }

    /// The number with its sign flipped.
    pub fn neg(self) -> (r: Number)
        ensures
            r == self.negated(),
    {
        if self.bits >= SIGN_BIT {
            Number { bits: self.bits - SIGN_BIT }
        } else {
            Number { bits: self.bits + SIGN_BIT }
        }
    }

    /// The number without its sign.
    pub fn abs(self) -> (r: Number)
        ensures
            r == self.absolute(),
    {
        Number { bits: self.magnitude_bits() }
    }

    /// The rounded sum.
    pub fn add(self, other: Number) -> (r: Number)
        ensures
            r == self.plus(other),
    {
        Number { bits: apfloat_add(self.bits, other.bits) }
    }

    /// The rounded difference.
    pub fn sub(self, other: Number) -> (r: Number)
        ensures
            r == self.minus(other),
    {
        Number { bits: apfloat_sub(self.bits, other.bits) }
    }

    /// The rounded product.
    pub fn mul(self, other: Number) -> (r: Number)
        ensures
            r == self.times(other),
    {
        Number { bits: apfloat_mul(self.bits, other.bits) }
    }

    /// The rounded quotient.
    pub fn div(self, other: Number) -> (r: Number)
        ensures
            r == self.over(other),
    {
        Number { bits: apfloat_div(self.bits, other.bits) }
    }

    /// Makes the remainder `self` of a division by `divisor` not negative.
    pub fn raise(self, divisor: Number) -> (r: Number)
        ensures
            r == self.raised(divisor),
    {
        if self.lt(Number { bits: 0 }) {
            self.add(divisor.abs())
        } else {
            self
        }
    }

    /// The remainder of `self` by `other` that is never negative.
    pub fn rem_euclid(self, other: Number) -> (r: Number)
        ensures
            r == self.modulo(other),
    {
        let r = Number { bits: apfloat_rem(self.bits, other.bits) };
        r.raise(other)
    }

    /// The number 1.
    pub fn unit() -> (r: Number)
        ensures
            r == Number::one(),
    {
        Number { bits: ONE_BITS }
    }

    /// The number nearest to a count.
    pub fn from_count(n: usize) -> (r: Number)
        ensures
            r == Number::of_count(n),
    {
        Number { bits: apfloat_from_count(n) }
    }

    /// The number cut to a 32-bit integer.
    pub fn to_i32(self) -> (r: i32)
        ensures
            r == self.truncation(),
    {
        apfloat_to_i32(self.bits)
    }

    /// Whether a pattern read back from a text is this number's.
    pub fn is_read_back(self, parsed: Option<u64>) -> (r: bool)
        ensures
            r == self.read_back(parsed),
    {
        match parsed {
            Some(bits) => bits == self.bits,
            None => false,
        }
    }

    /// The decimal text of a number that is no whole number: the shortest of
    /// 15, 16 and 17 significant digits that stands for the number.
    pub fn to_fraction_text(self) -> (r: String)
        ensures
            r@ == self.fraction_text(),
    {
        let short = apfloat_text(self.bits, 17, 15);
        if self.is_read_back(apfloat_parse(short.as_str())) {
            return short;
        }
        let longer = apfloat_text(self.bits, 17, 16);
        if self.is_read_back(apfloat_parse(longer.as_str())) {
            return longer;
        }
        apfloat_text(self.bits, 17, 17)
    }

    /// Whether the number, cut to `whole`, is shown as that whole number.
    pub fn is_shown_whole(self, whole: i64, exact: bool) -> (r: bool)
        ensures
            r == self.shown_whole(whole, exact),
    {
        exact && !(whole == 0 && self.bits >= SIGN_BIT)
    }

    /// The decimal text of the number.
    pub fn to_text(self) -> (r: String)
        ensures
            r@ == self.text(),
    {
        if self.magnitude_bits() == INFINITY_BITS {
            return if self.bits >= SIGN_BIT {
                String::from_str("-inf")
            } else {
                String::from_str("inf")
            };
        }
        let (whole, exact) = apfloat_whole(self.bits);
        if self.is_shown_whole(whole, exact) {
            whole_text(whole)
        } else {
            self.to_fraction_text()
        }
    }
}

} // verus!
