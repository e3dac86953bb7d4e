//! The provider's source of randomness.

use vstd::prelude::*;

use crate::backend::os_fill_bytes;

verus! {

/// Failure of the operating system's random source.
#[derive(Debug, Clone, Copy, PartialEq, Eq, Structural)]
pub struct GetRandomFailed;

/// The provider object that the TLS stack asks for randomness and for keys.
#[derive(Debug)]
pub struct Provider;

impl Provider {
    /// Fills `bytes` with random bytes from the operating system; reports a failure of
    /// the random source as `GetRandomFailed`. The length of `bytes` is kept.
    pub fn fill(&self, bytes: &mut [u8]) -> (res: Result<(), GetRandomFailed>)
        ensures
            final(bytes)@.len() == old(bytes)@.len(),
    {
        match os_fill_bytes(bytes) {
            Ok(()) => Ok(()),
            Err(_) => Err(GetRandomFailed),
        }
    }
}

/// 32 random bytes, or `None` where the random source fails.
pub fn random_32() -> (r: Option<[u8; 32]>) {
    let mut buf = [0u8; 32];
    match os_fill_bytes(&mut buf) {
        Ok(()) => Some(buf),
        Err(_) => None,
    }
}

/// 64 random bytes, or `None` where the random source fails.
pub fn random_64() -> (r: Option<[u8; 64]>) {
    let mut buf = [0u8; 64];
    match os_fill_bytes(&mut buf) {
        Ok(()) => Some(buf),
        Err(_) => None,
    }
}

} // verus!
