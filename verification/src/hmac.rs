//! HMAC-SHA-256, as the TLS 1.2 pseudo-random function uses it.

use vstd::prelude::*;

use crate::backend::{hmac_sha256, hmac_sha256_tag};
use crate::concat::{concat, flatten, slice_views};

verus! {

/// Length of an HMAC-SHA-256 tag.
pub const HMAC_SHA256_TAG_LEN: usize = 32;

/// The HMAC-SHA-256 provider.
pub struct Hmac;

/// An HMAC-SHA-256 key.
pub struct HmacKey {
    pub inner: Vec<u8>,
}

impl Hmac {
    /// The provider.
    pub fn new() -> (h: Hmac) {
        Hmac
    }

    /// A key made of `key`.
    pub fn with_key(&self, key: &[u8]) -> (k: HmacKey)
        ensures
            k.inner@ == key@,
    {
        HmacKey { inner: vstd::slice::slice_to_vec(key) }
    }

    /// Length of the tags.
    pub fn hash_output_len(&self) -> (n: usize)
        ensures
            n == HMAC_SHA256_TAG_LEN,
    {
        HMAC_SHA256_TAG_LEN
    }
}

impl HmacKey {
    /// The tag of `first`, then each of `middle`, then `last`, joined.
    pub fn sign_concat(&self, first: &[u8], middle: &[&[u8]], last: &[u8]) -> (tag: Vec<u8>)
        requires
            self.inner@.len() <= u32::MAX,
            first@.len() + flatten(slice_views(middle@)).len() + last@.len() <= u32::MAX,
        ensures
            tag@ == hmac_sha256(self.inner@, first@ + flatten(slice_views(middle@)) + last@),
            tag@.len() == HMAC_SHA256_TAG_LEN,
    {
        let mut data = vstd::slice::slice_to_vec(first);
        let mut mid = concat(middle);
        data.append(&mut mid);
        let mut end = vstd::slice::slice_to_vec(last);
        data.append(&mut end);
        let tag = hmac_sha256_tag(self.inner.as_slice(), data.as_slice());
        vstd::slice::slice_to_vec(tag.as_slice())
    }

    /// Length of the tags.
    pub fn tag_len(&self) -> (n: usize)
        ensures
            n == HMAC_SHA256_TAG_LEN,
    {
        HMAC_SHA256_TAG_LEN
    }
}

} // verus!
