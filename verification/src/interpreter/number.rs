//! Numbers: IEEE-754 doubles carried as their 64-bit patterns.
//!
//! Sign, ordering and equality are decided here on the bit pattern. Rounding
//! arithmetic, decimal parsing and digit generation are delegated to
//! `rustc_apfloat`; each delegated result has a name below, and the
//! contracts of this module are stated over those names.

use rustc_apfloat::ieee::Double;
use rustc_apfloat::Float;
use vstd::prelude::*;

use crate::interpreter::text::chars_of;

verus! {

/// The double nearest to the exact sum of the doubles `a` and `b`.
pub uninterp spec fn number_sum(a: u64, b: u64) -> u64;

/// The double nearest to the exact difference of the doubles `a` and `b`.
pub uninterp spec fn number_difference(a: u64, b: u64) -> u64;

/// The double nearest to the exact product of the doubles `a` and `b`.
pub uninterp spec fn number_product(a: u64, b: u64) -> u64;

/// The double nearest to the exact quotient of the doubles `a` and `b`.
pub uninterp spec fn number_quotient(a: u64, b: u64) -> u64;

/// The double that a decimal text denotes, if it denotes one.
pub uninterp spec fn number_parsed(text: Seq<char>) -> Option<u64>;

/// The double `bits` in scientific notation, with no more than `digits`
/// significant digits.
pub uninterp spec fn number_scientific(bits: u64, digits: usize) -> Seq<char>;

/// The unsigned 64-bit integer that `rustc_apfloat` converts the double
/// `bits` to.
pub uninterp spec fn number_truncated(bits: u64) -> u64;

/// The signed 32-bit integer that `rustc_apfloat` converts the double
/// `bits` to.
pub uninterp spec fn number_truncated_i32(bits: u64) -> i32;

/// The double nearest to the integer `count`.
pub uninterp spec fn number_of_count(count: u128) -> u64;

/// `rustc_apfloat`'s `Add` for `Double`: IEEE-754 addition, rounding to
/// nearest with ties to even. The result is a function of the two bit
/// patterns alone.
#[verifier::external_body]
fn apfloat_add(a: u64, b: u64) -> (r: u64)
    ensures
        r == number_sum(a, b),
{
    (Double::from_bits(a as u128) + Double::from_bits(b as u128)).value.to_bits() as u64
}

/// `rustc_apfloat`'s `Sub` for `Double`: IEEE-754 subtraction, rounding to
/// nearest with ties to even.
#[verifier::external_body]
fn apfloat_sub(a: u64, b: u64) -> (r: u64)
    ensures
        r == number_difference(a, b),
{
    (Double::from_bits(a as u128) - Double::from_bits(b as u128)).value.to_bits() as u64
}

/// `rustc_apfloat`'s `Mul` for `Double`: IEEE-754 multiplication, rounding
/// to nearest with ties to even.
#[verifier::external_body]
fn apfloat_mul(a: u64, b: u64) -> (r: u64)
    ensures
        r == number_product(a, b),
{
    (Double::from_bits(a as u128) * Double::from_bits(b as u128)).value.to_bits() as u64
}

/// `rustc_apfloat`'s `Div` for `Double`: IEEE-754 division, rounding to
/// nearest with ties to even.
#[verifier::external_body]
fn apfloat_div(a: u64, b: u64) -> (r: u64)
    ensures
        r == number_quotient(a, b),
{
    (Double::from_bits(a as u128) / Double::from_bits(b as u128)).value.to_bits() as u64
}

/// `rustc_apfloat`'s `FromStr` for `Double`: the correctly rounded value of
/// a decimal text, or nothing where the text is not a number. The text
/// holds nothing but digits, points, signs and `E`, so it is read as a
/// decimal numeral and never as a hexadecimal one or as a name. A text
/// of digits with at most one point among them is a number: the parser
/// refuses a numeral only for a second point, for want of a digit, or
/// for a character that such a text does not hold.
#[verifier::external_body]
fn apfloat_parse(text: &str) -> (r: Option<u64>)
    requires
        is_numeral(text@),
    ensures
        r == number_parsed(text@),
        is_plain_numeral(text@) ==> r is Some,
{
    match text.parse::<Double>() {
        Ok(value) => Some(value.to_bits() as u64),
        Err(_) => None,
    }
}

/// `rustc_apfloat`'s `Display` for `Double`, asked for scientific notation
/// (width 0) with no more than `digits` significant digits: at least
/// one, as it has none to write with less.
#[verifier::external_body]
fn apfloat_scientific(bits: u64, digits: usize) -> (s: String)
    requires
        1 <= digits <= EXACT_DIGITS,
    ensures
        s@ == number_scientific(bits, digits),
{
    format!("{:1$.2$}", Double::from_bits(bits as u128), 0, digits)
}

/// `rustc_apfloat`'s `Float::to_u128` at width 64, which rounds toward
/// zero. Stated of it: NaN and the zeros give 0, so does every negative
/// number, and a number from 2^64 on gives the largest integer.
#[verifier::external_body]
fn apfloat_to_u64(bits: u64) -> (r: u64)
    ensures
        r == number_truncated(bits),
        is_nan(bits) || is_negative(bits) || magnitude(bits) == 0 ==> r == 0,
        !is_nan(bits) && !is_negative(bits) && bits >= TWO_TO_64_BITS ==> r == u64::MAX,
{
    Double::from_bits(bits as u128).to_u128(64).value as u64
}

/// `rustc_apfloat`'s `Float::to_i128` at width 32, which rounds toward
/// zero. Stated of it: NaN and the zeros give 0, a number from 2^31 on
/// gives the largest integer, and a number from -2^31 down the smallest.
#[verifier::external_body]
fn apfloat_to_i32(bits: u64) -> (r: i32)
    ensures
        r == number_truncated_i32(bits),
        is_nan(bits) || magnitude(bits) == 0 ==> r == 0,
        !is_nan(bits) && !is_negative(bits) && bits >= TWO_TO_31_BITS ==> r == i32::MAX,
        !is_nan(bits) && is_negative(bits) && magnitude(bits) >= TWO_TO_31_BITS ==> r == i32::MIN,
{
    Double::from_bits(bits as u128).to_i128(32).value as i32
}

/// `rustc_apfloat`'s `Float::from_u128`: the double nearest to an integer.
#[verifier::external_body]
fn apfloat_from_u128(count: u128) -> (r: u64)
    ensures
        r == number_of_count(count),
{
    Double::from_u128(count).value.to_bits() as u64
}

/// The most significant digits that a double needs to be told from every
/// other double.
pub const MAX_DIGITS: usize = 17;

/// More significant digits than the decimal expansion of any double has.
pub const EXACT_DIGITS: usize = 800;

/// Whether a character may stand in a decimal numeral: a digit, the
/// point, a sign, or the `E` before an exponent.
pub open spec fn is_numeral_char(c: char) -> bool {
    ('0' <= c && c <= '9') || c == '.' || c == '+' || c == '-' || c == 'E'
}

/// Whether a text holds nothing but the characters of decimal numerals.
pub open spec fn is_numeral(text: Seq<char>) -> bool {
    forall|i: int| 0 <= i < text.len() ==> is_numeral_char(#[trigger] text[i])
}

/// Whether a text is a numeral as a program writes it: digits with at
/// most one point among them, and a digit first.
pub open spec fn is_plain_numeral(text: Seq<char>) -> bool {
    &&& text.len() > 0
    &&& '0' <= text[0] <= '9'
    &&& forall|i: int|
        0 <= i < text.len() ==> ('0' <= #[trigger] text[i] && text[i] <= '9') || text[i] == '.'
    &&& forall|i: int, j: int|
        0 <= i < j < text.len() && #[trigger] text[i] == '.' ==> #[trigger] text[j] != '.'
}

/// The double that a text denotes: that of a decimal numeral, and
/// nothing for a text that holds any other character.
pub open spec fn number_value(text: Seq<char>) -> Option<u64> {
    if is_numeral(text) {
        number_parsed(text)
    } else {
        None
    }
}

/// The sign bit of a double.
pub const SIGN_BIT: u64 = 0x8000_0000_0000_0000;

/// Every bit of a double but its sign.
pub const MAGNITUDE_BITS: u64 = 0x7fff_ffff_ffff_ffff;

/// The magnitude of positive infinity; larger magnitudes are NaNs.
pub const INFINITY_BITS: u64 = 0x7ff0_0000_0000_0000;

/// The double 2^64.
pub const TWO_TO_64_BITS: u64 = 0x43f0_0000_0000_0000;

/// The double 2^31.
pub const TWO_TO_31_BITS: u64 = 0x41e0_0000_0000_0000;

/// The bit pattern without its sign.
pub open spec fn magnitude(bits: u64) -> u64 {
    bits & MAGNITUDE_BITS
}

/// Whether the sign bit is set.
pub open spec fn is_negative(bits: u64) -> bool {
    bits & SIGN_BIT != 0
}

/// Whether the pattern is a NaN.
pub open spec fn is_nan(bits: u64) -> bool {
    magnitude(bits) > INFINITY_BITS
}

/// IEEE-754 equality: NaN equals nothing, the two zeros are equal, any
/// other value equals only itself.
pub open spec fn number_equal(a: u64, b: u64) -> bool {
    !is_nan(a) && !is_nan(b) && (a == b || (magnitude(a) == 0 && magnitude(b) == 0))
}

/// IEEE-754 `<`: false where either side is NaN; otherwise the order of
/// the values, in which the two zeros are equal.
pub open spec fn number_less(a: u64, b: u64) -> bool {
    !is_nan(a) && !is_nan(b) && if is_negative(a) {
        if is_negative(b) {
            magnitude(a) > magnitude(b)
        } else {
            magnitude(a) != 0 || magnitude(b) != 0
        }
    } else {
        !is_negative(b) && magnitude(a) < magnitude(b)
    }
}

/// A number of the language.
#[derive(Debug)]
pub struct Number {
    bits: u64,
}

impl Clone for Number {
    fn clone(&self) -> (r: Self)
        ensures
            r == *self,
    {
        Number { bits: self.bits }
    }
}

impl Copy for Number {

}

impl Number {
    /// The bit pattern of the number.
    pub closed spec fn bits(&self) -> u64 {
        self.bits
    }

    /// The number with the given IEEE-754 bit pattern.
    pub fn from_bits(bits: u64) -> (r: Self)
        ensures
            r.bits() == bits,
    {
        Number { bits }
    }

    /// The IEEE-754 bit pattern of the number.
    pub fn to_bits(&self) -> (r: u64)
        ensures
            r == self.bits(),
    {
        self.bits
    }

    /// The number that a decimal text denotes.
    pub fn parse(text: &str) -> (r: Option<Number>)
        ensures
            match number_value(text@) {
                Some(bits) => r is Some && r->0.bits() == bits,
                None => r is None,
            },
            is_plain_numeral(text@) ==> r is Some,
    {
        let chars = chars_of(text);
        let mut i: usize = 0;
        while i < chars.len()
            invariant
                i <= chars.len(),
                chars@ == text@,
                forall|k: int| 0 <= k < i ==> is_numeral_char(#[trigger] text@[k]),
            decreases chars.len() - i,
        {
            let c = chars[i];
            if !(('0' <= c && c <= '9') || c == '.' || c == '+' || c == '-' || c == 'E') {
                assert(!is_numeral_char(text@[i as int]));
                return None;
            }
            i += 1;
        }
        match apfloat_parse(text) {
            Some(bits) => Some(Number { bits }),
            None => None,
        }
    }

    /// The double nearest to an unsigned integer.
    pub fn from_count(count: u128) -> (r: Number)
        ensures
            r.bits() == number_of_count(count),
    {
        Number { bits: apfloat_from_u128(count) }
    }

    /// `self + rhs`.
    pub fn plus(&self, rhs: &Number) -> (r: Number)
        ensures
            r.bits() == number_sum(self.bits(), rhs.bits()),
    {
        Number { bits: apfloat_add(self.bits, rhs.bits) }
    }

    /// `self - rhs`.
    pub fn minus(&self, rhs: &Number) -> (r: Number)
        ensures
            r.bits() == number_difference(self.bits(), rhs.bits()),
    {
        Number { bits: apfloat_sub(self.bits, rhs.bits) }
    }

    /// `self * rhs`.
    pub fn times(&self, rhs: &Number) -> (r: Number)
        ensures
            r.bits() == number_product(self.bits(), rhs.bits()),
    {
        Number { bits: apfloat_mul(self.bits, rhs.bits) }
    }

    /// `self / rhs`.
    pub fn divided_by(&self, rhs: &Number) -> (r: Number)
        ensures
            r.bits() == number_quotient(self.bits(), rhs.bits()),
    {
        Number { bits: apfloat_div(self.bits, rhs.bits) }
    }

    /// `-self`: the same number with the opposite sign.
    pub fn negated(&self) -> (r: Number)
        ensures
            r.bits() == self.bits() ^ SIGN_BIT,
    {
        Number { bits: self.bits ^ SIGN_BIT }
    }

    /// Whether the number is a NaN.
    pub fn is_nan(&self) -> (r: bool)
        ensures
            r == is_nan(self.bits()),
    {
        (self.bits & MAGNITUDE_BITS) > INFINITY_BITS
    }

    /// `self == rhs` as IEEE-754 defines it.
    pub fn equals(&self, rhs: &Number) -> (r: bool)
        ensures
            r == number_equal(self.bits(), rhs.bits()),
    {
        !self.is_nan() && !rhs.is_nan() && (self.bits == rhs.bits || ((self.bits
            & MAGNITUDE_BITS) == 0 && (rhs.bits & MAGNITUDE_BITS) == 0))
    }

    /// `self < rhs` as IEEE-754 defines it.
    pub fn less_than(&self, rhs: &Number) -> (r: bool)
        ensures
            r == number_less(self.bits(), rhs.bits()),
    {
        if self.is_nan() || rhs.is_nan() {
            return false;
        }
        let a = self.bits & MAGNITUDE_BITS;
        let b = rhs.bits & MAGNITUDE_BITS;
        if (self.bits & SIGN_BIT) != 0 {
            if (rhs.bits & SIGN_BIT) != 0 {
                a > b
            } else {
                a != 0 || b != 0
            }
        } else {
            (rhs.bits & SIGN_BIT) == 0 && a < b
        }
    }

    /// The number in scientific notation with no more than `digits`
    /// significant digits.
    pub fn scientific(&self, digits: usize) -> (r: String)
        requires
            1 <= digits <= EXACT_DIGITS,
        ensures
            r@ == number_scientific(self.bits(), digits),
    {
        apfloat_scientific(self.bits, digits)
    }

    /// The number as an index: NaN, the zeros and negative numbers give 0,
    /// numbers from 2^64 on the largest index.
    pub fn to_index(&self) -> (r: u64)
        ensures
            r == number_truncated(self.bits()),
            is_nan(self.bits()) || is_negative(self.bits()) || magnitude(self.bits()) == 0 ==> r
                == 0,
            !is_nan(self.bits()) && !is_negative(self.bits()) && self.bits() >= TWO_TO_64_BITS
                ==> r == u64::MAX,
    {
        apfloat_to_u64(self.bits)
    }

    /// The number as a signed 32-bit integer: NaN and the zeros give 0,
    /// numbers from 2^31 on the largest integer, numbers from -2^31 down
    /// the smallest.
    pub fn to_i32(&self) -> (r: i32)
        ensures
            r == number_truncated_i32(self.bits()),
            is_nan(self.bits()) || magnitude(self.bits()) == 0 ==> r == 0,
            !is_nan(self.bits()) && !is_negative(self.bits()) && self.bits() >= TWO_TO_31_BITS
                ==> r == i32::MAX,
            !is_nan(self.bits()) && is_negative(self.bits()) && magnitude(self.bits())
                >= TWO_TO_31_BITS ==> r == i32::MIN,
    {
        apfloat_to_i32(self.bits)
    }
}

} // verus!
