//! The random source: rand's thread-local generator, and the draws that the
//! library makes from it.

use rand::Rng;
use vstd::prelude::*;

verus! {

#[verifier::external_type_specification]
#[verifier::external_body]
pub struct ExThreadRng(rand::rngs::ThreadRng);

/// Relies on rand::rng: a handle on the thread-local generator.
pub assume_specification[ rand::rng ]() -> rand::rngs::ThreadRng;

/// Relies on rand::Rng::random_range over `i64`: a value of the half-open
/// range `lo..hi`, which must not be empty (it panics on an empty one).
#[verifier::external_body]
pub(crate) fn draw_range(rng: &mut rand::rngs::ThreadRng, lo: i64, hi: i64) -> (r: i64)
    requires
        lo < hi,
    ensures
        lo <= r < hi,
{
    rng.random_range(lo..hi)
}

/// Relies on rand::Rng::random over `bool`: either value.
#[verifier::external_body]
pub(crate) fn draw_flag(rng: &mut rand::rngs::ThreadRng) -> (r: bool) {
    rng.random::<bool>()
}

/// Relies on random_word::get with `Lang::En`: one word of its English list.
#[verifier::external_body]
pub(crate) fn draw_english_word() -> (r: String) {
    random_word::get(random_word::Lang::En).to_string()
}

} // verus!
