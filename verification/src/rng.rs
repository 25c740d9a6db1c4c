//! The machine's source of randomness, behind a trusted boundary.

use vstd::prelude::*;

verus! {

/// Relies on `rand::random`: one byte drawn from the thread-local generator
/// under the uniform standard distribution. Nothing can be promised of the
/// value; the caller states what holds of every byte that may come back.
#[verifier::external_body]
pub(crate) fn random_byte() -> u8 {
    rand::random::<u8>()
}

} // verus!
