//! The secure random source used to sample root seeds.

use vstd::prelude::*;
use rand::RngCore;

verus! {

#[verifier::external_type_specification]
#[verifier::external_body]
pub struct ExRandError(rand::Error);

/// Relies on rand's `OsRng` and `RngCore::try_fill_bytes`: on success
/// the buffer is filled from the operating system's entropy source; a
/// failure of that source comes back as the error instead of a panic.
/// Nothing is promised of the bytes themselves.
#[verifier::external_body]
pub(crate) fn sample_seed_bytes() -> (r: Result<[u8; 16], rand::Error>) {
    let mut buf = [0u8; 16];
    match rand::rngs::OsRng.try_fill_bytes(&mut buf) {
        Ok(()) => Ok(buf),
        Err(e) => Err(e),
    }
}

} // verus!
