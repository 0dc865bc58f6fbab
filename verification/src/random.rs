//! Randomness, drawn from the thread-local generator of the `rand` crate.
//!
//! Nothing is known of a random value beyond its type and, for a sampled
//! character, its class. The functions that use these values are therefore
//! proved for every value that may come back.

use rand::Rng;
use rand::RngCore;
use vstd::prelude::*;

verus! {

/// ASCII letters and digits.
pub open spec fn is_ascii_alphanumeric(c: char) -> bool {
    ('0' <= c && c <= '9') || ('A' <= c && c <= 'Z') || ('a' <= c && c <= 'z')
}

/// Trusted: fills an array through `rand::thread_rng` and
/// `RngCore::fill_bytes`. Any bytes may come back, so the contract is empty.
/// The generator panics if the operating system cannot seed it.
#[verifier::external_body]
pub(crate) fn random_bytes<const N: usize>() -> (bytes: [u8; N]) {
    let mut bytes = [0u8; N];
    rand::thread_rng().fill_bytes(&mut bytes);
    bytes
}

/// Trusted: samples `rand::distributions::Alphanumeric` from
/// `rand::thread_rng`. The distribution ranges over `a-z`, `A-Z` and `0-9`,
/// which is all the contract states.
#[verifier::external_body]
pub(crate) fn random_alphanumeric() -> (c: char)
    ensures
        is_ascii_alphanumeric(c),
{
    rand::thread_rng().sample(rand::distributions::Alphanumeric)
}

} // verus!
