use vstd::prelude::*;
use rand::Rng;
use rand::RngExt;

verus! {

/// Relies on rand::rng and rand::RngExt::random_range: draws one index from
/// the thread-local CSPRNG, uniform over [0, bound) without modulo bias.
/// Nothing can be promised of which index comes back, only its range.
#[verifier::external_body]
pub(crate) fn random_index(bound: usize) -> (r: usize)
    requires
        bound > 0,
    ensures
        r < bound,
{
    rand::rng().random_range(0..bound)
}

/// Relies on rand::rng and rand::Rng::fill_bytes: fills a fresh buffer of
/// `length` bytes from the thread-local CSPRNG. Nothing can be promised of
/// the byte values, only how many there are.
#[verifier::external_body]
pub(crate) fn random_bytes(length: usize) -> (r: Vec<u8>)
    ensures
        r@.len() == length,
{
    let mut buf = vec![0u8; length];
    rand::rng().fill_bytes(&mut buf);
    buf
}

} // verus!
