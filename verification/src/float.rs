use vstd::prelude::*;

use crate::value::{is_nan_bits, NAN_BITS};

verus! {

/// The IEEE-754 binary64 bit pattern that a non-empty numeric text parses to,
/// or `None` when the text is not a well-formed floating-point literal. The
/// result depends on the characters alone.
pub uninterp spec fn float_bits_of(t: Seq<char>) -> Option<u64>;

/// Relies on rustc_apfloat::ieee::Double: `from_str` parses a decimal
/// floating-point literal with IEEE-754 round-to-nearest-even semantics, and
/// `to_bits` returns the value's bit pattern. Both depend on the text alone.
#[verifier::external_body]
fn parse_float_bits(t: &str) -> (r: Option<u64>)
    requires
        t@.len() > 0,
    ensures
        r == float_bits_of(t@),
{
    match <rustc_apfloat::ieee::Double as core::str::FromStr>::from_str(t) {
        Ok(d) => Some(rustc_apfloat::Float::to_bits(d) as u64),
        Err(_) => None,
    }
}

/// The converter's coercion policy for a real scalar's text: the parsed
/// bit pattern, or the canonical quiet not-a-number pattern when the text is
/// empty or does not parse.
pub open spec fn real_bits(t: Seq<char>) -> u64 {
    if t.len() == 0 {
        NAN_BITS
    } else {
        match float_bits_of(t) {
            Option::Some(b) => b,
            Option::None => NAN_BITS,
        }
    }
}

/// Coerce a real scalar's source text to floating-point bits, falling back to
/// not-a-number on a malformed numeral instead of failing.
pub fn real_to_bits(t: &str) -> (r: u64)
    ensures
        r == real_bits(t@),
{
    if t.unicode_len() == 0 {
        NAN_BITS
    } else {
        match parse_float_bits(t) {
            Option::Some(b) => b,
            Option::None => NAN_BITS,
        }
    }
}

/// The fallback pattern is indeed a not-a-number value: whenever the text does
/// not parse as a floating-point literal, the coercion yields bits whose
/// exponent is all ones and whose significand is non-zero.
pub proof fn lemma_unparsable_text_yields_nan(t: Seq<char>)
    requires
        t.len() == 0 || float_bits_of(t) is None,
    ensures
        real_bits(t) == NAN_BITS,
        is_nan_bits(real_bits(t)),
{
    assert((0x7ff8_0000_0000_0000u64 >> 52) & 0x7ff == 0x7ff) by (bit_vector);
    assert(0x7ff8_0000_0000_0000u64 & 0x000f_ffff_ffff_ffff != 0u64) by (bit_vector);
}

} // verus!
