//! The library's source of random numbers: the `rand` crate's standard
//! generator, which callers seed as they see fit.
//!
//! Nothing here is proved. The contracts below say what `rand` documents.

use vstd::prelude::*;

verus! {

/// `rand::rngs::StdRng`, carried through the library as an opaque value.
#[verifier::external_type_specification]
#[verifier::external_body]
pub struct ExStdRng(rand::rngs::StdRng);

/// `rand::Rng::gen::<bool>`: one random truth value. Nothing is claimed of
/// which one comes out.
#[verifier::external_body]
pub(crate) fn coin(rng: &mut rand::rngs::StdRng) -> (side: bool) {
    rand::Rng::gen::<bool>(rng)
}

/// `rand::Rng::gen_range` on the half-open range `low..high` of `i64`.
///
/// `rand` panics on an empty range, which the precondition leaves out, and
/// returns a value of the range: at least `low` and below `high`.
#[verifier::external_body]
pub(crate) fn uniform(rng: &mut rand::rngs::StdRng, low: i64, high: i64) -> (v: i64)
    requires
        low < high,
    ensures
        low <= v < high,
{
    rand::Rng::gen_range(rng, low..high)
}

} // verus!
