//! SHA-256 for the TLS transcript: one-shot hashing and a running context.

use vstd::prelude::*;

use crate::backend::{sha256, sha256_absorbed, sha256_digest, sha256_finish, sha256_fork, sha256_start, sha256_stream_limit, sha256_update};

verus! {

/// Length of a SHA-256 digest.
pub const SHA256_LENGTH: usize = 32;

/// The hash algorithms the TLS stack knows, by their TLS code point.
pub const HASH_ALGORITHM_SHA256: u8 = 0x04;

/// The SHA-256 hash provider.
#[derive(Debug)]
pub struct HashAlgo;

/// A running SHA-256 context: libcrux's streaming state.
pub struct HashCtx {
    state: libcrux::algorithms::sha2::Sha256,
}

impl View for HashCtx {
    type V = Seq<u8>;

    /// The bytes that the context has taken in.
    closed spec fn view(&self) -> Seq<u8> {
        sha256_absorbed(self.state)
    }
}

impl HashAlgo {
    /// The provider.
    pub fn new() -> (h: HashAlgo) {
        HashAlgo
    }

    /// A fresh context that has taken in nothing.
    pub fn start(&self) -> (ctx: HashCtx)
        ensures
            ctx@ == Seq::<u8>::empty(),
    {
        HashCtx { state: sha256_start() }
    }

    /// The digest of `data`.
    pub fn hash(&self, data: &[u8]) -> (out: Vec<u8>)
        requires
            data@.len() <= u32::MAX,
        ensures
            out@ == sha256(data@),
            out@.len() == SHA256_LENGTH,
    {
        let digest = sha256_digest(data);
        vstd::slice::slice_to_vec(digest.as_slice())
    }

    /// The algorithm's TLS code point.
    pub fn algorithm(&self) -> (a: u8)
        ensures
            a == HASH_ALGORITHM_SHA256,
    {
        HASH_ALGORITHM_SHA256
    }

    /// The digest length.
    pub fn output_len(&self) -> (n: usize)
        ensures
            n == SHA256_LENGTH,
    {
        SHA256_LENGTH
    }
}

impl HashCtx {
    /// The digest of what the context has taken in so far; the context is unchanged.
    pub fn fork_finish(&self) -> (out: Vec<u8>)
        ensures
            out@ == sha256(self@),
            out@.len() == SHA256_LENGTH,
    {
        let digest = sha256_finish(&self.state);
        vstd::slice::slice_to_vec(digest.as_slice())
    }

    /// An independent copy of the context.
    pub fn fork(&self) -> (ctx: HashCtx)
        ensures
            ctx@ == self@,
    {
        HashCtx { state: sha256_fork(&self.state) }
    }

    /// The digest of what the context has taken in; the context is consumed.
    pub fn finish(self) -> (out: Vec<u8>)
        ensures
            out@ == sha256(self@),
            out@.len() == SHA256_LENGTH,
    {
        self.fork_finish()
    }

    /// Takes in `data`, as long as the total stays within the stream's limit of
    /// `2^61 - 1` bytes; beyond it the context is left as it was.
    pub fn update(&mut self, data: &[u8])
        requires
            data@.len() <= u32::MAX,
        ensures
            old(self)@.len() + data@.len() <= sha256_stream_limit() ==> final(self)@ == old(self)@ + data@,
            old(self)@.len() + data@.len() > sha256_stream_limit() ==> final(self)@ == old(self)@,
    {
        sha256_update(&mut self.state, data);
    }
}

/// Hashing in pieces is hashing at once: where a fresh context took in `a` and then `b`,
/// within the stream's limit, its digest is the digest of `a` followed by `b`.
pub proof fn lemma_updates_hash_concatenation(fresh: HashCtx, after_a: HashCtx, after_b: HashCtx, a: Seq<u8>, b: Seq<u8>)
    requires
        fresh@ == Seq::<u8>::empty(),
        a.len() + b.len() <= sha256_stream_limit(),
        after_a@ == fresh@ + a,
        after_b@ == after_a@ + b,
    ensures
        sha256(after_b@) == sha256(a + b),
{
    assert(after_b@ =~= a + b);
}

} // verus!
