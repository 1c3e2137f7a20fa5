//! The one source of randomness of the machine.

use vstd::prelude::*;

verus! {

/// Calls `rand::random::<u8>()`, which draws one byte from the thread-local
/// generator. Nothing is claimed of the byte: every value of `u8` may come
/// back, and two calls may differ.
#[verifier::external_body]
pub(crate) fn random_byte() -> (byte: u8) {
    rand::random::<u8>()
}

} // verus!
