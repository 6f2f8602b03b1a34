//! Arithmetic, parsing and printing of IEEE 754 binary64 values.
//!
//! The language's numbers are 64-bit floats, carried everywhere in this
//! crate as their raw bit pattern in a `u64`.  The operations themselves
//! are performed in software by `rustc_apfloat`, an implementation of
//! IEEE 754 binary arithmetic on bit patterns; each operation's result is
//! named by an uninterpreted spec function, so that the contracts of the
//! scanner and of the evaluator can speak of those results exactly.

use vstd::prelude::*;
use rustc_apfloat::Float;

verus! {

/// The binary64 value a decimal numeral denotes, as its bit pattern;
/// 0 if the text is not a numeral `rustc_apfloat` accepts.
pub uninterp spec fn f64_of_text(s: Seq<char>) -> u64;

/// The decimal rendering of a binary64 value rounded to `p` significant
/// digits, as `rustc_apfloat` formats it.
pub uninterp spec fn f64_text_prec(bits: u64, p: int) -> Seq<char>;

/// The sum of two binary64 values, rounded to nearest, ties to even.
pub uninterp spec fn f64_add(a: u64, b: u64) -> u64;

/// The difference of two binary64 values, rounded to nearest, ties to even.
pub uninterp spec fn f64_sub(a: u64, b: u64) -> u64;

/// The product of two binary64 values, rounded to nearest, ties to even.
pub uninterp spec fn f64_mul(a: u64, b: u64) -> u64;

/// IEEE equality of two binary64 values: false when either is NaN,
/// true on `+0 == -0`.
pub uninterp spec fn f64_eq(a: u64, b: u64) -> bool;

/// IEEE ordered comparison `a < b`: false when either is NaN.
pub uninterp spec fn f64_lt(a: u64, b: u64) -> bool;

/// IEEE ordered comparison `a <= b`: false when either is NaN.
pub uninterp spec fn f64_le(a: u64, b: u64) -> bool;

/// IEEE ordered comparison `a > b`: false when either is NaN.
pub uninterp spec fn f64_gt(a: u64, b: u64) -> bool;

/// IEEE ordered comparison `a >= b`: false when either is NaN.
pub uninterp spec fn f64_ge(a: u64, b: u64) -> bool;

/// Relies on `rustc_apfloat::ieee::Double`'s `FromStr`: parses a decimal
/// numeral to the correctly rounded binary64 value and returns its bit
/// pattern.  On text that the crate does not accept as a numeral it
/// returns 0; the result depends on the text alone.
#[verifier::external_body]
pub fn f64_parse(s: &str) -> (r: u64)
    ensures
        r == f64_of_text(s@),
{
    match <rustc_apfloat::ieee::Double as core::str::FromStr>::from_str(s) {
        Ok(d) => d.to_bits() as u64,
        Err(_) => 0,
    }
}

/// Relies on `Display` for `rustc_apfloat::ieee::Double`: renders the
/// value in decimal with `p` significant digits (a field width large
/// enough that plain notation is preferred over scientific for every
/// magnitude a numeral of this language can reach).  The result depends
/// on the bits and the precision alone.
#[verifier::external_body]
fn f64_text_at(bits: u64, p: usize) -> (r: String)
    requires
        1 <= p <= 17,
    ensures
        r@ == f64_text_prec(bits, p as int),
{
    let d = rustc_apfloat::ieee::Double::from_bits(bits as u128);
    format!("{:340.*}", p, d)
}

/// Relies on `Add` for `rustc_apfloat::ieee::Double` (IEEE 754 addition,
/// round to nearest, ties to even).
#[verifier::external_body]
pub fn f64_add_bits(a: u64, b: u64) -> (r: u64)
    ensures
        r == f64_add(a, b),
{
    let x = rustc_apfloat::ieee::Double::from_bits(a as u128);
    let y = rustc_apfloat::ieee::Double::from_bits(b as u128);
    (x + y).value.to_bits() as u64
}

/// Relies on `Sub` for `rustc_apfloat::ieee::Double` (IEEE 754
/// subtraction, round to nearest, ties to even).
#[verifier::external_body]
pub fn f64_sub_bits(a: u64, b: u64) -> (r: u64)
    ensures
        r == f64_sub(a, b),
{
    let x = rustc_apfloat::ieee::Double::from_bits(a as u128);
    let y = rustc_apfloat::ieee::Double::from_bits(b as u128);
    (x - y).value.to_bits() as u64
}

/// Relies on `Mul` for `rustc_apfloat::ieee::Double` (IEEE 754
/// multiplication, round to nearest, ties to even).
#[verifier::external_body]
pub fn f64_mul_bits(a: u64, b: u64) -> (r: u64)
    ensures
        r == f64_mul(a, b),
{
    let x = rustc_apfloat::ieee::Double::from_bits(a as u128);
    let y = rustc_apfloat::ieee::Double::from_bits(b as u128);
    (x * y).value.to_bits() as u64
}

/// Relies on `PartialEq` for `rustc_apfloat::ieee::Double`: IEEE
/// equality, which is false when either operand is NaN and true on
/// `+0 == -0`.
#[verifier::external_body]
pub fn f64_eq_bits(a: u64, b: u64) -> (r: bool)
    ensures
        r == f64_eq(a, b),
{
    rustc_apfloat::ieee::Double::from_bits(a as u128)
        == rustc_apfloat::ieee::Double::from_bits(b as u128)
}

/// Relies on `PartialOrd` for `rustc_apfloat::ieee::Double`: IEEE
/// ordered `<`, false when either operand is NaN.
#[verifier::external_body]
pub fn f64_lt_bits(a: u64, b: u64) -> (r: bool)
    ensures
        r == f64_lt(a, b),
{
    rustc_apfloat::ieee::Double::from_bits(a as u128)
        < rustc_apfloat::ieee::Double::from_bits(b as u128)
}

/// Relies on `PartialOrd` for `rustc_apfloat::ieee::Double`: IEEE
/// ordered `<=`, false when either operand is NaN.
#[verifier::external_body]
pub fn f64_le_bits(a: u64, b: u64) -> (r: bool)
    ensures
        r == f64_le(a, b),
{
    rustc_apfloat::ieee::Double::from_bits(a as u128)
        <= rustc_apfloat::ieee::Double::from_bits(b as u128)
}

/// Relies on `PartialOrd` for `rustc_apfloat::ieee::Double`: IEEE
/// ordered `>`, false when either operand is NaN.
#[verifier::external_body]
pub fn f64_gt_bits(a: u64, b: u64) -> (r: bool)
    ensures
        r == f64_gt(a, b),
{
    rustc_apfloat::ieee::Double::from_bits(a as u128)
        > rustc_apfloat::ieee::Double::from_bits(b as u128)
}

/// Relies on `PartialOrd` for `rustc_apfloat::ieee::Double`: IEEE
/// ordered `>=`, false when either operand is NaN.
#[verifier::external_body]
pub fn f64_ge_bits(a: u64, b: u64) -> (r: bool)
    ensures
        r == f64_ge(a, b),
{
    rustc_apfloat::ieee::Double::from_bits(a as u128)
        >= rustc_apfloat::ieee::Double::from_bits(b as u128)
}

/// IEEE 754 negation flips the sign bit and is exact on every value,
/// NaN included.
pub open spec fn f64_neg(bits: u64) -> u64 {
    bits ^ 0x8000_0000_0000_0000u64
}

/// Negation of a binary64 value, on its bit pattern.
pub fn f64_negate(bits: u64) -> (r: u64)
    ensures
        r == f64_neg(bits),
{
    bits ^ 0x8000_0000_0000_0000u64
}

/// The shortest rendering the search below settles on, scanning
/// precisions from `p` upward: the first precision whose rendering
/// parses back to the very same bit pattern, with the 17-digit
/// rendering (which always round-trips for binary64) as the last resort.
pub open spec fn f64_shortest_from(bits: u64, p: int) -> Seq<char>
    decreases 17 - p,
{
    if p < 1 || p >= 17 {
        f64_text_prec(bits, 17)
    } else if f64_of_text(f64_text_prec(bits, p)) == bits {
        f64_text_prec(bits, p)
    } else {
        f64_shortest_from(bits, p + 1)
    }
}

/// The canonical decimal text of a binary64 value: the shortest
/// rendering that parses back to the same value.
pub open spec fn f64_text(bits: u64) -> Seq<char> {
    f64_shortest_from(bits, 1)
}

/// Renders a binary64 value as its canonical decimal text.
pub fn f64_display(bits: u64) -> (r: String)
    ensures
        r@ == f64_text(bits),
{
    let mut p: usize = 1;
    while p < 17
        invariant
            1 <= p <= 17,
            f64_text(bits) == f64_shortest_from(bits, p as int),
        decreases 17 - p,
    {
        let t = f64_text_at(bits, p);
        if f64_parse(t.as_str()) == bits {
            return t;
        }
        p = p + 1;
    }
    f64_text_at(bits, 17)
}

} // verus!
