//! The source of random bytes.

use vstd::prelude::*;

verus! {

/// Draws a byte from `rand::random_range` over the full range `0..=255`,
/// which uses the thread-local generator. Nothing is claimed of the value:
/// every byte may come back, and two calls may differ.
#[verifier::external_body]
pub(crate) fn random_byte() -> (b: u8) {
    rand::random_range(0..=255u8)
}

} // verus!
