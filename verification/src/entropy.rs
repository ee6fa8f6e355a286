//! The source of random bytes.

use vstd::prelude::*;

verus! {

/// A byte drawn by `rand::random::<u8>()`, which samples the thread-local
/// generator of the `rand` crate.
///
/// Nothing is claimed of the value: any byte may come back, and two calls
/// need not agree. The generator seeds itself from the operating system on
/// first use and panics if that fails.
#[verifier::external_body]
pub(crate) fn random_byte() -> (byte: u8) {
    rand::random::<u8>()
}

} // verus!
