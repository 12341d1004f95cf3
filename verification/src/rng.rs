//! Randomness, behind trusted wrappers around the `rand` crate.
//!
//! Nothing downstream depends on which value comes back from a draw: every
//! caller's contract holds for every outcome the wrappers admit.
use rand::Rng;
use vstd::prelude::*;

verus! {

/// Relies on `rand::Rng::gen_range` over the thread-local generator: it
/// returns a uniformly drawn value of the given range, and panics only on an
/// empty range, which the precondition rules out.
#[verifier::external_body]
pub(crate) fn rand_index(n: usize) -> (r: usize)
    requires
        n >= 1,
    ensures
        r < n,
{
    let mut rng = rand::thread_rng();
    rng.gen_range(0..n)
}

/// Relies on `rand::random::<char>`: it returns some Unicode scalar value.
/// Nothing is assumed about which one.
#[verifier::external_body]
pub(crate) fn random_char() -> char {
    rand::random::<char>()
}

} // verus!
