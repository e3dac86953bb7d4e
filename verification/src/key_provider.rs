//! Loading private keys given as PKCS#8 documents into signing keys.

use vstd::prelude::*;

use crate::backend::{parameters_view, pkcs8_decode, pkcs8_fields, sec1_decode_private_key, sec1_private_key};
use crate::ecdsa_der::{der_length, read_der_length};
use crate::random::Provider;
use crate::sign::{DigestAlgorithm, LibcruxSignatureScheme, SigningKey, TLSSigningKey};

verus! {

/// Tag of a DER `OCTET STRING`.
pub const TAG_OCTET_STRING: u8 = 0x04;

/// A private key in one of the encodings that the TLS stack hands over.
#[derive(Debug)]
pub enum PrivateKeyDer {
    Pkcs1(Vec<u8>),
    Sec1(Vec<u8>),
    Pkcs8(Vec<u8>),
}

/// Why a private key could not be loaded.
#[derive(Debug)]
pub enum KeyLoadError {
    /// The PKCS#8 document did not decode.
    Pkcs8(pkcs8::Error),
    /// The key is not a supported kind, or its data is malformed.
    KeyMalformed,
}

/// The object identifier `id-ecPublicKey` (RFC 3279).
pub open spec fn id_ec_public_key() -> Seq<u32> {
    seq![1u32, 2u32, 840u32, 10045u32, 2u32, 1u32]
}

/// The object identifier of the NIST P-256 curve (`prime256v1`).
pub open spec fn id_prime256v1() -> Seq<u32> {
    seq![1u32, 2u32, 840u32, 10045u32, 3u32, 1u32, 7u32]
}

/// The object identifier `id-Ed25519` (RFC 8410).
pub open spec fn id_ed25519() -> Seq<u32> {
    seq![1u32, 3u32, 101u32, 112u32]
}

/// The content of a DER `OCTET STRING` that makes up all of `b`.
pub open spec fn der_octet_string(b: Seq<u8>) -> Option<Seq<u8>> {
    if b.len() == 0 || b[0] != TAG_OCTET_STRING {
        None
    } else {
        match der_length(b, 1, b.len() as int) {
            None => None,
            Some((len, p)) => if p + len == b.len() {
                Some(b.subrange(p, b.len() as int))
            } else {
                None
            },
        }
    }
}

/// The key that a PKCS#8 document holds: its scheme and 32-byte secret, `Ok(None)` for a
/// document that decodes but holds no supported key, and `Err(())` for one that does not
/// decode. An EC key must be on P-256 and its private key a SEC1 `ECPrivateKey` holding
/// 32 bytes; an Ed25519 key must be an `OCTET STRING` of 32 bytes.
pub open spec fn pkcs8_signing_key(der: Seq<u8>) -> Result<Option<(LibcruxSignatureScheme, Seq<u8>)>, ()> {
    match pkcs8_fields(der) {
        None => Err(()),
        Some((algorithm, parameters, key)) => if algorithm == id_ec_public_key() {
            if parameters == Some(Some(id_prime256v1())) {
                match sec1_private_key(key) {
                    Some(k) => if k.len() == 32 {
                        Ok(Some((LibcruxSignatureScheme::EcDsaP256(DigestAlgorithm::Sha256), k)))
                    } else {
                        Ok(None)
                    },
                    None => Ok(None),
                }
            } else {
                Ok(None)
            }
        } else if algorithm == id_ed25519() {
            match der_octet_string(key) {
                Some(k) => if k.len() == 32 {
                    Ok(Some((LibcruxSignatureScheme::Ed25519, k)))
                } else {
                    Ok(None)
                },
                None => Ok(None),
            }
        } else {
            Ok(None)
        },
    }
}

pub(crate) fn arcs_equal(a: &[u32], b: &[u32]) -> (eq: bool)
    ensures
        eq == (a@ == b@),
{
    if a.len() != b.len() {
        return false;
    }
    let mut i: usize = 0;
    while i < a.len()
        invariant
            i <= a@.len(),
            a@.len() == b@.len(),
            forall|j: int| 0 <= j < i ==> a@[j] == b@[j],
        decreases a.len() - i,
    {
        if a[i] != b[i] {
            return false;
        }
        i = i + 1;
    }
    assert(a@ =~= b@);
    true
}

fn secret_array(k: &[u8]) -> (a: [u8; 32])
    requires
        k@.len() == 32,
    ensures
        a@ == k@,
{
    let mut a = [0u8; 32];
    let mut i: usize = 0;
    while i < 32
        invariant
            i <= 32,
            k@.len() == 32,
            forall|j: int| 0 <= j < i ==> a@[j] == k@[j],
        decreases 32 - i,
    {
        a[i] = k[i];
        i = i + 1;
    }
    assert(a@ =~= k@);
    a
}

/// Reads the content of a DER `OCTET STRING` that makes up all of `b`.
pub fn decode_octet_string(b: &[u8]) -> (res: Option<Vec<u8>>)
    ensures
        match res {
            Some(c) => der_octet_string(b@) == Some(c@),
            None => der_octet_string(b@) is None,
        },
{
    if b.len() == 0 || b[0] != TAG_OCTET_STRING {
        return None;
    }
    let (len, p) = match read_der_length(b, 1, b.len()) {
        Some(x) => x,
        None => return None,
    };
    if len != b.len() - p {
        return None;
    }
    Some(vstd::slice::slice_to_vec(vstd::slice::slice_subrange(b, p, b.len())))
}

impl TLSSigningKey {
    /// A signing key of the given scheme from the 32-byte secret; `KeyMalformed` where
    /// the secret has another length.
    pub fn load_key(scheme: LibcruxSignatureScheme, secret: &[u8]) -> (res: Result<TLSSigningKey, KeyLoadError>)
        ensures
            secret@.len() == 32 ==> (res matches Ok(k) && k.inner.scheme == scheme && k.inner.secret@ == secret@),
            secret@.len() != 32 ==> res matches Err(KeyLoadError::KeyMalformed),
    {
        if secret.len() != 32 {
            return Err(KeyLoadError::KeyMalformed);
        }
        Ok(TLSSigningKey::new(SigningKey { scheme, secret: secret_array(secret) }))
    }
}

impl Provider {
    /// Loads a private key: only PKCS#8 documents are taken, holding an ECDSA key on
    /// P-256 or an Ed25519 key.
    pub fn load_private_key(&self, key_der: PrivateKeyDer) -> (res: Result<TLSSigningKey, KeyLoadError>)
        ensures
            match key_der {
                PrivateKeyDer::Pkcs8(der) => match pkcs8_signing_key(der@) {
                    Err(()) => res matches Err(KeyLoadError::Pkcs8(_)),
                    Ok(None) => res matches Err(KeyLoadError::KeyMalformed),
                    Ok(Some((scheme, secret))) => (res matches Ok(k) && k.inner.scheme == scheme
                        && k.inner.secret@ == secret),
                },
                _ => res matches Err(KeyLoadError::KeyMalformed),
            },
    {
        match key_der {
            PrivateKeyDer::Pkcs8(der) => {
                let (algorithm, parameters, key) = match pkcs8_decode(der.as_slice()) {
                    Ok(fields) => fields,
                    Err(e) => return Err(KeyLoadError::Pkcs8(e)),
                };
                let ec_public_key = [1u32, 2u32, 840u32, 10045u32, 2u32, 1u32];
                let ed25519 = [1u32, 3u32, 101u32, 112u32];
                assert(ec_public_key@ =~= id_ec_public_key());
                assert(ed25519@ =~= id_ed25519());
                if arcs_equal(algorithm.as_slice(), ec_public_key.as_slice()) {
                    let parameter_arcs = match parameters {
                        Some(Some(arcs)) => arcs,
                        _ => return Err(KeyLoadError::KeyMalformed),
                    };
                    let prime256v1 = [1u32, 2u32, 840u32, 10045u32, 3u32, 1u32, 7u32];
                    assert(prime256v1@ =~= id_prime256v1());
                    if !arcs_equal(parameter_arcs.as_slice(), prime256v1.as_slice()) {
                        return Err(KeyLoadError::KeyMalformed);
                    }
                    match sec1_decode_private_key(key.as_slice()) {
                        Ok(secret) => TLSSigningKey::load_key(
                            LibcruxSignatureScheme::EcDsaP256(DigestAlgorithm::Sha256),
                            secret.as_slice(),
                        ),
                        Err(_) => Err(KeyLoadError::KeyMalformed),
                    }
                } else if arcs_equal(algorithm.as_slice(), ed25519.as_slice()) {
                    match decode_octet_string(key.as_slice()) {
                        Some(secret) => TLSSigningKey::load_key(LibcruxSignatureScheme::Ed25519, secret.as_slice()),
                        None => Err(KeyLoadError::KeyMalformed),
                    }
                } else {
                    Err(KeyLoadError::KeyMalformed)
                }
            },
            _ => Err(KeyLoadError::KeyMalformed),
        }
    }
}

} // verus!
