//! HKDF with SHA-256 for the TLS 1.3 key schedule.
//!
//! The provider's TLS 1.3 suite keeps the pseudorandom keys in libcrux's key agent and
//! refers to them by identifier; the agent is not part of the libcrux crate used here,
//! so the key schedule is stated, and done, over the plain key bytes that the
//! identifiers stand for.

use vstd::prelude::*;

use crate::backend::{
    hkdf_expand, hkdf_extract, hkdf_sha256_expand, hkdf_sha256_extract, hmac_sha256,
    hmac_sha256_tag,
};
use crate::concat::{concat, flatten, slice_views};

verus! {

/// Length of the SHA-256 output and of the pseudo-random keys.
pub const HASH_LEN: usize = 32;

/// The salt used where none is given: `HASH_LEN` zero bytes.
pub open spec fn default_salt() -> Seq<u8> {
    Seq::new(HASH_LEN as nat, |i: int| 0u8)
}

/// The salt that extraction uses.
pub open spec fn salt_or_default(salt: Option<Seq<u8>>) -> Seq<u8> {
    match salt {
        Some(s) => s,
        None => default_salt(),
    }
}

/// The length of an optional salt (zero where there is none).
pub open spec fn salt_len(salt: Option<&[u8]>) -> int {
    match salt {
        Some(s) => s@.len() as int,
        None => 0,
    }
}

/// The contents of an optional salt.
pub open spec fn salt_view(salt: Option<&[u8]>) -> Option<Seq<u8>> {
    match salt {
        Some(s) => Some(s@),
        None => None,
    }
}

/// The HKDF provider.
pub struct Hkdf;

/// An expander: a pseudo-random key ready for HKDF-Expand.
pub struct Expander {
    pub prk: [u8; 32],
}

/// The requested output did not fit.
#[derive(Debug, Clone, Copy, PartialEq, Eq, Structural)]
pub struct OutputLengthError;

fn zero_salt() -> (z: [u8; 32])
    ensures
        z@ == default_salt(),
{
    let z = [0u8; 32];
    assert(z@ =~= default_salt());
    z
}

impl Hkdf {
    /// The provider.
    pub fn new() -> (h: Hkdf) {
        Hkdf
    }

    /// HKDF-Extract of `HASH_LEN` zero bytes under the salt (zero bytes where none).
    pub fn extract_from_zero_ikm(&self, salt: Option<&[u8]>) -> (e: Expander)
        requires
            salt_len(salt) <= u32::MAX,
        ensures
            e.prk@ == hkdf_sha256_extract(salt_or_default(salt_view(salt)), default_salt()),
    {
        let zeros = zero_salt();
        self.extract_from_secret(salt, zeros.as_slice())
    }

    /// HKDF-Extract of `secret` under the salt (zero bytes where none).
    pub fn extract_from_secret(&self, salt: Option<&[u8]>, secret: &[u8]) -> (e: Expander)
        requires
            salt_len(salt) <= u32::MAX,
            secret@.len() <= u32::MAX,
        ensures
            e.prk@ == hkdf_sha256_extract(salt_or_default(salt_view(salt)), secret@),
    {
        let zeros = zero_salt();
        let salt_bytes: &[u8] = match salt {
            Some(s) => s,
            None => zeros.as_slice(),
        };
        let prk = match hkdf_extract(salt_bytes, secret) {
            Ok(prk) => prk,
            Err(_) => {
                assert(false);
                [0u8; 32]
            },
        };
        Expander { prk }
    }

    /// An expander for a pseudo-random key that was derived before.
    pub fn expander_for_okm(&self, okm: &[u8]) -> (e: Expander)
        requires
            okm@.len() == HASH_LEN,
        ensures
            e.prk@ == okm@,
    {
        let mut prk = [0u8; 32];
        let mut i: usize = 0;
        while i < 32
            invariant
                i <= 32,
                okm@.len() == 32,
                forall|j: int| 0 <= j < i ==> prk@[j] == okm@[j],
            decreases 32 - i,
        {
            prk[i] = okm[i];
            i = i + 1;
        }
        assert(prk@ =~= okm@);
        Expander { prk }
    }

    /// HMAC-SHA-256 of `message` under `key`.
    pub fn hmac_sign(&self, key: &[u8], message: &[u8]) -> (tag: Vec<u8>)
        requires
            key@.len() <= u32::MAX,
            message@.len() <= u32::MAX,
        ensures
            tag@ == hmac_sha256(key@, message@),
            tag@.len() == 32,
    {
        let tag = hmac_sha256_tag(key, message);
        vstd::slice::slice_to_vec(tag.as_slice())
    }
}

impl Expander {
    /// HKDF-Expand of the joined `info` into all of `output`; fails, leaving `output`
    /// as it was, where the output is too long or `info` is too long.
    pub fn expand_slice(&self, info: &[&[u8]], output: &mut [u8]) -> (res: Result<(), OutputLengthError>)
        ensures
            final(output)@.len() == old(output)@.len(),
            res is Ok <==> (old(output)@.len() <= 255 * HASH_LEN && flatten(slice_views(info@)).len() <= u32::MAX),
            res is Ok ==> final(output)@ == hkdf_sha256_expand(
                self.prk@,
                flatten(slice_views(info@)),
                old(output)@.len(),
            ),
            res is Err ==> final(output)@ == old(output)@,
    {
        let joined = concat(info);
        let len = output.len();
        match hkdf_expand(&self.prk, joined.as_slice(), len) {
            Ok(okm) => {
                let mut i: usize = 0;
                while i < len
                    invariant
                        i <= len,
                        output@.len() == len,
                        okm@.len() == len,
                        forall|j: int| 0 <= j < i ==> output@[j] == okm@[j],
                    decreases len - i,
                {
                    output[i] = okm[i];
                    i = i + 1;
                }
                assert(output@ =~= okm@);
                Ok(())
            },
            Err(_) => Err(OutputLengthError),
        }
    }

    /// HKDF-Expand of the joined `info` into one block of `HASH_LEN` bytes.
    pub fn expand_block(&self, info: &[&[u8]]) -> (okm: Vec<u8>)
        requires
            flatten(slice_views(info@)).len() <= u32::MAX,
        ensures
            okm@ == hkdf_sha256_expand(self.prk@, flatten(slice_views(info@)), HASH_LEN as nat),
            okm@.len() == HASH_LEN,
    {
        let joined = concat(info);
        match hkdf_expand(&self.prk, joined.as_slice(), HASH_LEN) {
            Ok(okm) => okm,
            Err(_) => {
                assert(false);
                Vec::new()
            },
        }
    }

    /// The length of the key's hash.
    pub fn hash_len(&self) -> (n: usize)
        ensures
            n == HASH_LEN,
    {
        HASH_LEN
    }
}

/// Extraction without a salt uses 32 zero bytes as the salt; a given salt is used as it
/// is.
pub proof fn lemma_salt_or_default(salt: Seq<u8>)
    ensures
        salt_or_default(None).len() == 32,
        forall|i: int| 0 <= i < 32 ==> salt_or_default(None)[i] == 0u8,
        salt_or_default(Some(salt)) == salt,
{
}

} // verus!
