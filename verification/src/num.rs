use vstd::prelude::*;

use rustc_apfloat::Float;
use rustc_apfloat::ieee::Double;

verus! {

// Language numbers are IEEE-754 doubles, carried everywhere as their 64-bit
// pattern. The arithmetic itself is done in software by rustc_apfloat, which
// works directly on bit patterns; each operation below is a deterministic
// function of its argument bits, so its result is given a name that the
// contracts of the evaluator speak of.

/// The bits of the IEEE-754 double sum of the two operand bit patterns.
pub uninterp spec fn add_bits(a: u64, b: u64) -> u64;

/// The bits of the IEEE-754 double difference of the two operand bit patterns.
pub uninterp spec fn sub_bits(a: u64, b: u64) -> u64;

/// The bits of the IEEE-754 double product of the two operand bit patterns.
pub uninterp spec fn mul_bits(a: u64, b: u64) -> u64;

/// The bits of the IEEE-754 double quotient of the two operand bit patterns.
pub uninterp spec fn div_bits(a: u64, b: u64) -> u64;

/// The bits of the IEEE-754 double negation of the operand bit pattern.
pub uninterp spec fn neg_bits(a: u64) -> u64;

/// IEEE-754 `<` on the doubles with the given bit patterns.
pub uninterp spec fn lt_bits(a: u64, b: u64) -> bool;

/// IEEE-754 `<=` on the doubles with the given bit patterns.
pub uninterp spec fn le_bits(a: u64, b: u64) -> bool;

/// IEEE-754 `>` on the doubles with the given bit patterns.
pub uninterp spec fn gt_bits(a: u64, b: u64) -> bool;

/// IEEE-754 `>=` on the doubles with the given bit patterns.
pub uninterp spec fn ge_bits(a: u64, b: u64) -> bool;

/// IEEE-754 equality on the doubles with the given bit patterns.
pub uninterp spec fn eq_bits(a: u64, b: u64) -> bool;

/// The bits of the double nearest to the decimal numeral written in `s`.
pub uninterp spec fn bits_of_decimal(s: Seq<char>) -> u64;

/// The decimal rendering of the double with the given bit pattern.
pub uninterp spec fn text_of_bits(a: u64) -> Seq<char>;

/// The bits of the double nearest to the given whole number.
pub uninterp spec fn bits_of_whole(n: u64) -> u64;

/// Relies on rustc_apfloat's `Add for ieee::Double` (round to nearest even).
#[verifier::external_body]
pub(crate) fn num_add(a: u64, b: u64) -> (r: u64)
    ensures
        r == add_bits(a, b),
{
    let x = Double::from_bits(a as u128);
    let y = Double::from_bits(b as u128);
    (x + y).value.to_bits() as u64
}

/// Relies on rustc_apfloat's `Sub for ieee::Double` (round to nearest even).
#[verifier::external_body]
pub(crate) fn num_sub(a: u64, b: u64) -> (r: u64)
    ensures
        r == sub_bits(a, b),
{
    let x = Double::from_bits(a as u128);
    let y = Double::from_bits(b as u128);
    (x - y).value.to_bits() as u64
}

/// Relies on rustc_apfloat's `Mul for ieee::Double` (round to nearest even).
#[verifier::external_body]
pub(crate) fn num_mul(a: u64, b: u64) -> (r: u64)
    ensures
        r == mul_bits(a, b),
{
    let x = Double::from_bits(a as u128);
    let y = Double::from_bits(b as u128);
    (x * y).value.to_bits() as u64
}

/// Relies on rustc_apfloat's `Div for ieee::Double` (round to nearest even).
#[verifier::external_body]
pub(crate) fn num_div(a: u64, b: u64) -> (r: u64)
    ensures
        r == div_bits(a, b),
{
    let x = Double::from_bits(a as u128);
    let y = Double::from_bits(b as u128);
    (x / y).value.to_bits() as u64
}

/// Relies on rustc_apfloat's `Neg for ieee::Double` (flips the sign bit).
#[verifier::external_body]
pub(crate) fn num_neg(a: u64) -> (r: u64)
    ensures
        r == neg_bits(a),
{
    (-Double::from_bits(a as u128)).to_bits() as u64
}

/// Relies on rustc_apfloat's `PartialOrd::lt for ieee::Double` (false on NaN).
#[verifier::external_body]
pub(crate) fn num_lt(a: u64, b: u64) -> (r: bool)
    ensures
        r == lt_bits(a, b),
{
    Double::from_bits(a as u128) < Double::from_bits(
        b as u128,
    )
}

/// Relies on rustc_apfloat's `PartialOrd::le for ieee::Double` (false on NaN).
#[verifier::external_body]
pub(crate) fn num_le(a: u64, b: u64) -> (r: bool)
    ensures
        r == le_bits(a, b),
{
    Double::from_bits(a as u128) <= Double::from_bits(
        b as u128,
    )
}

/// Relies on rustc_apfloat's `PartialOrd::gt for ieee::Double` (false on NaN).
#[verifier::external_body]
pub(crate) fn num_gt(a: u64, b: u64) -> (r: bool)
    ensures
        r == gt_bits(a, b),
{
    Double::from_bits(a as u128) > Double::from_bits(
        b as u128,
    )
}

/// Relies on rustc_apfloat's `PartialOrd::ge for ieee::Double` (false on NaN).
#[verifier::external_body]
pub(crate) fn num_ge(a: u64, b: u64) -> (r: bool)
    ensures
        r == ge_bits(a, b),
{
    Double::from_bits(a as u128) >= Double::from_bits(
        b as u128,
    )
}

/// Relies on rustc_apfloat's `PartialEq for ieee::Double`: IEEE equality, so
/// NaN compares unequal to itself and the two zeroes compare equal.
#[verifier::external_body]
pub(crate) fn num_eq(a: u64, b: u64) -> (r: bool)
    ensures
        r == eq_bits(a, b),
{
    Double::from_bits(a as u128) == Double::from_bits(
        b as u128,
    )
}

/// Relies on rustc_apfloat's `FromStr for ieee::Double`: parses a decimal
/// numeral to the nearest double; errors only on text that is not a numeral.
#[verifier::external_body]
pub(crate) fn num_parse(s: &str) -> (r: Option<u64>)
    ensures
        r matches Some(b) ==> b == bits_of_decimal(s@),
{
    match s.parse::<Double>() {
        Ok(d) => Some(d.to_bits() as u64),
        Err(_) => None,
    }
}

/// Relies on rustc_apfloat's `Display for ieee::Double`: a decimal rendering,
/// without a trailing fractional part on whole numbers.
#[verifier::external_body]
pub(crate) fn num_to_text(a: u64) -> (r: String)
    ensures
        r@ == text_of_bits(a),
{
    format!("{}", Double::from_bits(a as u128))
}

/// Relies on rustc_apfloat's `Float::from_u128` (round to nearest even).
#[verifier::external_body]
pub(crate) fn num_of_whole(n: u64) -> (r: u64)
    ensures
        r == bits_of_whole(n),
{
    Double::from_u128(n as u128).value.to_bits() as u64
}

/// Relies on std::time::SystemTime: whole seconds since the Unix epoch, or 0
/// if the system clock is set before it. Nothing is promised of the value.
#[verifier::external_body]
pub(crate) fn clock_seconds() -> u64 {
    match std::time::SystemTime::now().duration_since(std::time::SystemTime::UNIX_EPOCH) {
        Ok(d) => d.as_secs(),
        Err(_) => 0,
    }
}

} // verus!
