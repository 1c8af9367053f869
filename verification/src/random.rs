//! Fresh random handles for playback instances.

use vstd::prelude::*;

verus! {

/// Relies on rand's `random`: a value drawn from the thread's generator.
/// Nothing is promised of it.
#[verifier::external_body]
pub fn random_u64() -> u64 {
    rand::random::<u64>()
}

} // verus!
