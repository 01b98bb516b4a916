//! The random draws that the alien's plans are made from.
//!
//! These are the only places where the library calls the `rand` crate. What
//! is stated of a draw is believed, not proved.

use vstd::prelude::*;
use rand::rngs::StdRng;
use rand::Rng;

verus! {

/// `rand::rngs::StdRng`, the generator that an alien owns. Nothing is known
/// of its state.
#[verifier::external_type_specification]
#[verifier::external_body]
pub struct ExStdRng(rand::rngs::StdRng);

/// `rand::Rng::gen_range` on `i64`: a number from `low` up to, but not
/// including, `high`. The call panics on an empty range, which the
/// precondition leaves out.
#[verifier::external_body]
pub(crate) fn draw_in_range(rng: &mut StdRng, low: i64, high: i64) -> (drawn: i64)
    requires
        low < high,
    ensures
        low <= drawn < high,
{
    rng.gen_range(low, high)
}

/// `rand::Rng::gen_ratio`: true with a chance of `numerator` in
/// `denominator`. All that holds of every outcome is that the chances of
/// none and of all are certain. The call panics on a zero denominator and
/// on a numerator above it, which the precondition leaves out.
#[verifier::external_body]
pub(crate) fn draw_ratio(rng: &mut StdRng, numerator: u32, denominator: u32) -> (drawn: bool)
    requires
        0 < denominator,
        numerator <= denominator,
    ensures
        numerator == denominator ==> drawn,
        numerator == 0 ==> !drawn,
{
    rng.gen_ratio(numerator, denominator)
}

} // verus!
