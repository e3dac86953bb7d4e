//! Signature verification for the certificate algorithms the provider supports.

use vstd::prelude::*;

use crate::backend::{
    ecdsa_p256_accepts, ecdsa_p256_parse_public_key, ecdsa_p256_public_key, ecdsa_p256_verify,
    ed25519_accepts, ed25519_verify,
};
use crate::backend::ecdsa_p256_public_point;
use crate::ecdsa_der::{
    ecdsa_sig_decode, ecdsa_sig_der, lemma_decode_encode, lemma_uint_content_is_identity,
    uint_content, der_uint, lemma_uint_content_shape, DerEcdsaSignature,
};
use crate::sign::{is_public_key_of, signature_made_by, DigestAlgorithm, LibcruxSignatureScheme, SigningKey};

verus! {

/// The signature was not valid.
#[derive(Debug, Clone, Copy, PartialEq, Eq, Structural)]
pub struct InvalidSignature;

/// The algorithm identifiers that appear in certificates.
#[derive(Debug, Clone, Copy, PartialEq, Eq, Structural)]
pub enum AlgorithmIdentifier {
    Ed25519,
    EcdsaP256,
    EcdsaSha256,
    EcdsaSha384,
    EcdsaSha512,
}

/// A signature verification algorithm for keys of one libcrux scheme.
#[derive(Debug, Clone, Copy)]
pub struct Verify {
    pub scheme: LibcruxSignatureScheme,
}

/// Whether a signature is accepted. For ECDSA the public key must be a P-256 point and
/// the signature a DER `ECDSA-Sig-Value` whose `r` and `s` are each carried as exactly
/// 32 bytes; for Ed25519 the key must be 32 bytes and the signature 64.
pub open spec fn signature_accepted(
    scheme: LibcruxSignatureScheme,
    public_key: Seq<u8>,
    message: Seq<u8>,
    signature: Seq<u8>,
) -> bool {
    match scheme {
        LibcruxSignatureScheme::EcDsaP256(digest) => match ecdsa_p256_public_key(public_key) {
            None => false,
            Some(point) => match ecdsa_sig_decode(signature) {
                None => false,
                Some((r, s)) => r.len() == 32 && s.len() == 32 && ecdsa_p256_accepts(
                    digest,
                    point,
                    message,
                    r + s,
                ),
            },
        },
        LibcruxSignatureScheme::Ed25519 => public_key.len() == 32 && signature.len() == 64
            && ed25519_accepts(public_key, message, signature),
    }
}

fn array_32(b: &[u8]) -> (a: [u8; 32])
    requires
        b@.len() == 32,
    ensures
        a@ == b@,
{
    let mut a = [0u8; 32];
    let mut i: usize = 0;
    while i < 32
        invariant
            i <= 32,
            b@.len() == 32,
            forall|j: int| 0 <= j < i ==> a@[j] == b@[j],
        decreases 32 - i,
    {
        a[i] = b[i];
        i = i + 1;
    }
    assert(a@ =~= b@);
    a
}

fn array_64(r: &[u8], s: &[u8]) -> (a: [u8; 64])
    requires
        r@.len() == 32,
        s@.len() == 32,
    ensures
        a@ == r@ + s@,
{
    let mut a = [0u8; 64];
    let mut i: usize = 0;
    while i < 64
        invariant
            i <= 64,
            r@.len() == 32,
            s@.len() == 32,
            forall|j: int| 0 <= j < i ==> a@[j] == (r@ + s@)[j],
        decreases 64 - i,
    {
        if i < 32 {
            a[i] = r[i];
        } else {
            a[i] = s[i - 32];
        }
        i = i + 1;
    }
    assert(a@ =~= r@ + s@);
    a
}

impl Verify {
    /// The verifier for keys of `scheme`.
    pub fn new(scheme: LibcruxSignatureScheme) -> (v: Verify)
        ensures
            v.scheme == scheme,
    {
        Verify { scheme }
    }

    /// Verifies `signature` on `message` under `public_key`.
    pub fn verify_signature(&self, public_key: &[u8], message: &[u8], signature: &[u8]) -> (res:
        Result<(), InvalidSignature>)
        ensures
            res is Ok <==> signature_accepted(self.scheme, public_key@, message@, signature@),
    {
        match self.scheme {
            LibcruxSignatureScheme::EcDsaP256(digest) => {
                let pk = match ecdsa_p256_parse_public_key(public_key) {
                    Ok(pk) => pk,
                    Err(_) => return Err(InvalidSignature),
                };
                let der_sig = match DerEcdsaSignature::decode(signature) {
                    Some(sig) => sig,
                    None => return Err(InvalidSignature),
                };
                if der_sig.r.len() != 32 || der_sig.s.len() != 32 {
                    return Err(InvalidSignature);
                }
                let sig = array_64(der_sig.r.as_slice(), der_sig.s.as_slice());
                match ecdsa_p256_verify(digest, &pk, message, &sig) {
                    Ok(()) => Ok(()),
                    Err(_) => Err(InvalidSignature),
                }
            },
            LibcruxSignatureScheme::Ed25519 => {
                if public_key.len() != 32 || signature.len() != 64 {
                    return Err(InvalidSignature);
                }
                let pk = array_32(public_key);
                let sig = array_64(
                    vstd::slice::slice_subrange(signature, 0, 32),
                    vstd::slice::slice_subrange(signature, 32, 64),
                );
                assert(signature@ =~= signature@.subrange(0, 32) + signature@.subrange(32, 64));
                match ed25519_verify(&pk, message, &sig) {
                    Ok(()) => Ok(()),
                    Err(_) => Err(InvalidSignature),
                }
            },
        }
    }

    /// The algorithm identifier of the public keys this verifier takes.
    pub fn public_key_alg_id(&self) -> (id: AlgorithmIdentifier)
        ensures
            id == (match self.scheme {
                LibcruxSignatureScheme::Ed25519 => AlgorithmIdentifier::Ed25519,
                LibcruxSignatureScheme::EcDsaP256(_) => AlgorithmIdentifier::EcdsaP256,
            }),
    {
        match self.scheme {
            LibcruxSignatureScheme::Ed25519 => AlgorithmIdentifier::Ed25519,
            LibcruxSignatureScheme::EcDsaP256(_) => AlgorithmIdentifier::EcdsaP256,
        }
    }

    /// The algorithm identifier of the signatures this verifier checks. There is none
    /// for ECDSA with SHA-224.
    pub fn signature_alg_id(&self) -> (id: AlgorithmIdentifier)
        requires
            self.scheme != LibcruxSignatureScheme::EcDsaP256(DigestAlgorithm::Sha224),
        ensures
            id == (match self.scheme {
                LibcruxSignatureScheme::Ed25519 => AlgorithmIdentifier::Ed25519,
                LibcruxSignatureScheme::EcDsaP256(DigestAlgorithm::Sha256) => AlgorithmIdentifier::EcdsaSha256,
                LibcruxSignatureScheme::EcDsaP256(DigestAlgorithm::Sha384) => AlgorithmIdentifier::EcdsaSha384,
                _ => AlgorithmIdentifier::EcdsaSha512,
            }),
    {
        match self.scheme {
            LibcruxSignatureScheme::Ed25519 => AlgorithmIdentifier::Ed25519,
            LibcruxSignatureScheme::EcDsaP256(DigestAlgorithm::Sha256) => AlgorithmIdentifier::EcdsaSha256,
            LibcruxSignatureScheme::EcDsaP256(DigestAlgorithm::Sha384) => AlgorithmIdentifier::EcdsaSha384,
            _ => AlgorithmIdentifier::EcdsaSha512,
        }
    }
}

/// Signing, then verifying: a signature that `key` made on `message` is accepted under a
/// public key of `key` (as `SigningKey::public_key` gives one). For ECDSA on P-256 this
/// is stated for SHA-256, whose signatures come DER-encoded, and for DER signatures that
/// carry `r` and `s` as exactly 32 bytes each (70 bytes in all, the length of `r` being
/// `0x20`), since verification refuses any other width.
pub proof fn lemma_verify_of_sign(key: SigningKey, public_key: Seq<u8>, message: Seq<u8>, signature: Seq<u8>)
    requires
        signature_made_by(key, message, signature),
        is_public_key_of(key, public_key),
        key.scheme is EcDsaP256 ==> {
            &&& key.scheme == LibcruxSignatureScheme::EcDsaP256(DigestAlgorithm::Sha256)
            &&& signature.len() == 70
            &&& signature[3] == 0x20
        },
    ensures
        signature_accepted(key.scheme, public_key, message, signature),
{
    if key.scheme is EcDsaP256 {
        let raw = choose|raw: Seq<u8>|
            raw.len() == 64 && signature == #[trigger] ecdsa_sig_der(raw) && ecdsa_p256_accepts(
                DigestAlgorithm::Sha256,
                ecdsa_p256_public_point(key.secret@),
                message,
                raw,
            );
        let rb = raw.subrange(0, 32);
        let sb = raw.subrange(32, 64);
        lemma_decode_encode(raw);
        lemma_uint_content_shape(rb);
        lemma_uint_content_shape(sb);
        assert(signature[3] == der_uint(rb)[1]);
        lemma_uint_content_is_identity(rb);
        lemma_uint_content_is_identity(sb);
        assert(uint_content(rb).len() == 32);
        assert(uint_content(sb).len() == 32);
        assert(rb + sb =~= raw);
    }
}

/// The Ed25519 verifier.
pub fn ed25519_verifier() -> (v: Verify)
    ensures
        v.scheme == LibcruxSignatureScheme::Ed25519,
{
    Verify::new(LibcruxSignatureScheme::Ed25519)
}

/// The ECDSA P-256 with SHA-256 verifier.
pub fn ecdsa_p256_sha256_verifier() -> (v: Verify)
    ensures
        v.scheme == LibcruxSignatureScheme::EcDsaP256(DigestAlgorithm::Sha256),
{
    Verify::new(LibcruxSignatureScheme::EcDsaP256(DigestAlgorithm::Sha256))
}

} // verus!
