//! Signing keys for TLS: the scheme each key offers and the signatures it makes.
//!
//! TLS signature schemes are given by their two-byte code points; a code point that
//! names no scheme stands for an unknown scheme.

use vstd::prelude::*;

use crate::backend::{
    ecdsa_p256_accepts, ecdsa_p256_public_key, ecdsa_p256_public_point, ecdsa_p256_secret_to_public,
    ecdsa_p256_sign, ed25519_accepts, ed25519_public_key, ed25519_secret_to_public, ed25519_sign,
    ed25519_signature, p256_order,
};
use crate::ecdsa_der::{be_value, der_encode_ecdsa_signature, ecdsa_sig_der};
use crate::error::{GeneralError, TlsError};

verus! {

pub const RSA_PKCS1_SHA1: u16 = 0x0201;
pub const ECDSA_SHA1_LEGACY: u16 = 0x0203;
pub const RSA_PKCS1_SHA256: u16 = 0x0401;
pub const ECDSA_NISTP256_SHA256: u16 = 0x0403;
pub const RSA_PKCS1_SHA384: u16 = 0x0501;
pub const ECDSA_NISTP384_SHA384: u16 = 0x0503;
pub const RSA_PKCS1_SHA512: u16 = 0x0601;
pub const ECDSA_NISTP521_SHA512: u16 = 0x0603;
pub const RSA_PSS_SHA256: u16 = 0x0804;
pub const RSA_PSS_SHA384: u16 = 0x0805;
pub const RSA_PSS_SHA512: u16 = 0x0806;
pub const ED25519: u16 = 0x0807;
pub const ED448: u16 = 0x0808;

/// The scheme that stands for "unknown" (`Unknown(0)`).
pub const UNKNOWN_SCHEME: u16 = 0x0000;

/// The digest that an ECDSA key hashes with.
#[derive(Debug, Clone, Copy, PartialEq, Eq, Structural)]
pub enum DigestAlgorithm {
    Sha224,
    Sha256,
    Sha384,
    Sha512,
}

/// The signature scheme of a libcrux signing or verification key.
#[derive(Debug, Clone, Copy, PartialEq, Eq, Structural)]
pub enum LibcruxSignatureScheme {
    EcDsaP256(DigestAlgorithm),
    Ed25519,
}

/// The family of a signature scheme.
#[derive(Debug, Clone, Copy, PartialEq, Eq, Structural)]
pub enum SignatureAlgorithm {
    Rsa,
    Ecdsa,
    Ed25519,
    Ed448,
    Unknown(u8),
}

/// The TLS scheme of a libcrux scheme: ECDSA on P-256 with SHA-256 and Ed25519 have
/// one; every other scheme is unknown.
pub open spec fn tls_scheme(s: LibcruxSignatureScheme) -> u16 {
    match s {
        LibcruxSignatureScheme::EcDsaP256(DigestAlgorithm::Sha256) => ECDSA_NISTP256_SHA256,
        LibcruxSignatureScheme::Ed25519 => ED25519,
        _ => UNKNOWN_SCHEME,
    }
}

/// The family of a TLS signature scheme.
pub open spec fn scheme_algorithm(scheme: u16) -> SignatureAlgorithm {
    if scheme == RSA_PKCS1_SHA1 || scheme == RSA_PKCS1_SHA256 || scheme == RSA_PKCS1_SHA384
        || scheme == RSA_PKCS1_SHA512 || scheme == RSA_PSS_SHA256 || scheme == RSA_PSS_SHA384
        || scheme == RSA_PSS_SHA512 {
        SignatureAlgorithm::Rsa
    } else if scheme == ECDSA_SHA1_LEGACY || scheme == ECDSA_NISTP256_SHA256
        || scheme == ECDSA_NISTP384_SHA384 || scheme == ECDSA_NISTP521_SHA512 {
        SignatureAlgorithm::Ecdsa
    } else if scheme == ED25519 {
        SignatureAlgorithm::Ed25519
    } else if scheme == ED448 {
        SignatureAlgorithm::Ed448
    } else {
        SignatureAlgorithm::Unknown(0)
    }
}

/// A libcrux signing key: its scheme and its 32-byte secret.
#[derive(Debug, Clone, Copy)]
pub struct SigningKey {
    pub scheme: LibcruxSignatureScheme,
    pub secret: [u8; 32],
}

/// A signing key as the TLS stack sees it.
#[derive(Debug, Clone, Copy)]
pub struct TLSSigningKey {
    pub inner: SigningKey,
}

/// The messages of the errors that signing reports.
pub open spec fn signing_error() -> TlsError {
    TlsError::General(GeneralError::SigningFailed)
}

/// `sig` is a signature that `key` made on `msg`: for Ed25519 the named signature, which
/// verification under the key's public key accepts; for ECDSA on P-256 the raw `r || s`
/// (DER-encoded for SHA-256) that verification with the key's digest under the key's
/// public point accepts.
pub open spec fn signature_made_by(key: SigningKey, msg: Seq<u8>, sig: Seq<u8>) -> bool {
    match key.scheme {
        LibcruxSignatureScheme::Ed25519 => {
            &&& sig == ed25519_signature(key.secret@, msg)
            &&& sig.len() == 64
            &&& ed25519_accepts(ed25519_public_key(key.secret@), msg, sig)
        },
        LibcruxSignatureScheme::EcDsaP256(digest) => if digest == DigestAlgorithm::Sha256 {
            exists|raw: Seq<u8>|
                raw.len() == 64 && sig == #[trigger] ecdsa_sig_der(raw) && ecdsa_p256_accepts(
                    digest,
                    ecdsa_p256_public_point(key.secret@),
                    msg,
                    raw,
                )
        } else {
            sig.len() == 64 && ecdsa_p256_accepts(digest, ecdsa_p256_public_point(key.secret@), msg, sig)
        },
    }
}

/// `pk` is a public key of `key`: for Ed25519 the key's 32-byte public key; for ECDSA on
/// P-256 an encoding that libcrux reads as the key's public point.
pub open spec fn is_public_key_of(key: SigningKey, pk: Seq<u8>) -> bool {
    match key.scheme {
        LibcruxSignatureScheme::Ed25519 => pk == ed25519_public_key(key.secret@) && pk.len() == 32,
        LibcruxSignatureScheme::EcDsaP256(_) => ecdsa_p256_public_key(pk) == Some(
            ecdsa_p256_public_point(key.secret@),
        ),
    }
}

impl SigningKey {
    /// The public key that verifies this key's signatures: for Ed25519 its 32 bytes; for
    /// ECDSA on P-256 the uncompressed point (`0x04`, then `x || y`), or `None` where the
    /// scalar is not a valid private key.
    pub fn public_key(&self) -> (res: Option<Vec<u8>>)
        ensures
            res matches Some(pk) ==> is_public_key_of(*self, pk@),
            res is None <==> (self.scheme is EcDsaP256 && !(0 < be_value(self.secret@) < p256_order())),
            self.scheme is EcDsaP256 ==> (res matches Some(pk) ==> pk@ == seq![4u8] + ecdsa_p256_public_point(
                self.secret@,
            )),
    {
        match self.scheme {
            LibcruxSignatureScheme::Ed25519 => {
                let pk = ed25519_secret_to_public(&self.secret);
                Some(vstd::slice::slice_to_vec(pk.as_slice()))
            },
            LibcruxSignatureScheme::EcDsaP256(_) => match ecdsa_p256_secret_to_public(&self.secret) {
                Ok(point) => {
                    let mut pk = vec![4u8];
                    let mut xy = vstd::slice::slice_to_vec(point.as_slice());
                    pk.append(&mut xy);
                    assert(pk@ =~= seq![4u8] + point@);
                    Some(pk)
                },
                Err(_) => None,
            },
        }
    }
}

impl TLSSigningKey {
    /// Wraps a libcrux signing key.
    pub fn new(sk: SigningKey) -> (k: TLSSigningKey)
        ensures
            k.inner == sk,
    {
        TLSSigningKey { inner: sk }
    }

    /// The TLS signature scheme of this key.
    pub fn scheme(&self) -> (s: u16)
        ensures
            s == tls_scheme(self.inner.scheme),
    {
        match self.inner.scheme {
            LibcruxSignatureScheme::EcDsaP256(DigestAlgorithm::Sha256) => ECDSA_NISTP256_SHA256,
            LibcruxSignatureScheme::Ed25519 => ED25519,
            _ => UNKNOWN_SCHEME,
        }
    }

    /// The signature family of this key's scheme.
    pub fn algorithm(&self) -> (a: SignatureAlgorithm)
        ensures
            a == scheme_algorithm(tls_scheme(self.inner.scheme)),
    {
        let scheme = self.scheme();
        if scheme == RSA_PKCS1_SHA1 || scheme == RSA_PKCS1_SHA256 || scheme == RSA_PKCS1_SHA384
            || scheme == RSA_PKCS1_SHA512 || scheme == RSA_PSS_SHA256 || scheme == RSA_PSS_SHA384
            || scheme == RSA_PSS_SHA512 {
            SignatureAlgorithm::Rsa
        } else if scheme == ECDSA_SHA1_LEGACY || scheme == ECDSA_NISTP256_SHA256
            || scheme == ECDSA_NISTP384_SHA384 || scheme == ECDSA_NISTP521_SHA512 {
            SignatureAlgorithm::Ecdsa
        } else if scheme == ED25519 {
            SignatureAlgorithm::Ed25519
        } else if scheme == ED448 {
            SignatureAlgorithm::Ed448
        } else {
            SignatureAlgorithm::Unknown(0)
        }
    }

    /// Offers this key as the signer when the peer offered its scheme.
    pub fn choose_scheme(&self, offered: &[u16]) -> (res: Option<TLSSigningKey>)
        ensures
            match res {
                Some(k) => offered@.contains(tls_scheme(self.inner.scheme)) && k.inner == self.inner,
                None => !offered@.contains(tls_scheme(self.inner.scheme)),
            },
    {
        let scheme = self.scheme();
        let mut i: usize = 0;
        while i < offered.len()
            invariant
                i <= offered@.len(),
                scheme == tls_scheme(self.inner.scheme),
                forall|j: int| 0 <= j < i ==> offered@[j] != scheme,
            decreases offered.len() - i,
        {
            if offered[i] == scheme {
                return Some(*self);
            }
            i = i + 1;
        }
        None
    }

    /// Signs `message`. An ECDSA P-256/SHA-256 signature comes DER-encoded; any other
    /// signature comes as the raw bytes that libcrux produced.
    pub fn sign(&self, message: &[u8]) -> (res: Result<Vec<u8>, TlsError>)
        ensures
            res matches Ok(sig) ==> signature_made_by(self.inner, message@, sig@),
            res matches Err(e) ==> e == signing_error(),
            self.inner.scheme == LibcruxSignatureScheme::Ed25519 ==> (res is Ok <==> message@.len() <= u32::MAX),
            self.inner.scheme is EcDsaP256 ==> (!(0 < be_value(self.inner.secret@) < p256_order())
                || self.inner.scheme == LibcruxSignatureScheme::EcDsaP256(DigestAlgorithm::Sha224)
                || message@.len() > u32::MAX ==> res is Err),
    {
        let signature: Result<[u8; 64], TlsError> = match self.inner.scheme {
            LibcruxSignatureScheme::EcDsaP256(digest) => match ecdsa_p256_sign(digest, &self.inner.secret, message) {
                Ok(sig) => Ok(sig),
                Err(_) => Err(TlsError::General(GeneralError::SigningFailed)),
            },
            LibcruxSignatureScheme::Ed25519 => match ed25519_sign(&self.inner.secret, message) {
                Ok(sig) => Ok(sig),
                Err(_) => Err(TlsError::General(GeneralError::SigningFailed)),
            },
        };
        if self.scheme() == ECDSA_NISTP256_SHA256 {
            match signature {
                Ok(sig) => {
                    let der = der_encode_ecdsa_signature(&sig);
                    assert(sig@.len() == 64 && der@ == ecdsa_sig_der(sig@));
                    Ok(der)
                },
                Err(e) => Err(e),
            }
        } else {
            match signature {
                Ok(sig) => Ok(vstd::slice::slice_to_vec(sig.as_slice())),
                Err(e) => Err(e),
            }
        }
    }
}

} // verus!
