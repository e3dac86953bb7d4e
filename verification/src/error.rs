//! The errors that the provider reports to the TLS stack.

use vstd::prelude::*;

verus! {

/// Ways in which the peer broke the protocol.
#[derive(Debug, Clone, Copy, PartialEq, Eq, Structural)]
pub enum PeerMisbehaved {
    /// A decrypted TLS 1.3 record held only padding.
    IllegalTlsInnerPlaintext,
    /// A protected record claimed to be a `change_cipher_spec`.
    IllegalMiddleboxChangeCipherSpec,
    /// A key share had the wrong shape.
    InvalidKeyShare,
}

/// The free-text failures; each carries the message that the provider reports.
#[derive(Debug, Clone, Copy, PartialEq, Eq, Structural)]
pub enum GeneralError {
    EcdhDerive,
    InvalidPublicKey,
    DerivationFailed,
    MlKemKeygen,
    MlKemPubkey,
    MlKemEncaps,
    SigningFailed,
    DerEncoding,
    HpkeSeal,
    HpkeOpen,
    HpkeSetupSealer,
    HpkeSetupOpener,
    HpkeKemKeygen,
    KeyMalformed,
}

/// An error of the provider, shaped after the TLS stack's own error type.
#[derive(Debug, Clone, Copy, PartialEq, Eq, Structural)]
pub enum TlsError {
    EncryptError,
    DecryptError,
    PeerSentOversizedRecord,
    FailedToGetRandomBytes,
    PeerMisbehaved(PeerMisbehaved),
    General(GeneralError),
}

/// The message text of each failure.
pub open spec fn general_error_text(e: GeneralError) -> Seq<char> {
    match e {
        GeneralError::EcdhDerive => "ecdh derive error"@,
        GeneralError::InvalidPublicKey => "Invalid public key"@,
        GeneralError::DerivationFailed => "Derivation failed"@,
        GeneralError::MlKemKeygen => "MlKem keygen error"@,
        GeneralError::MlKemPubkey => "MlKem pubkey error"@,
        GeneralError::MlKemEncaps => "MlKem encaps error"@,
        GeneralError::SigningFailed => "signing failed"@,
        GeneralError::DerEncoding => "Error DER-encoding ECDSA signature"@,
        GeneralError::HpkeSeal => "hpke seal error"@,
        GeneralError::HpkeOpen => "hpke open error"@,
        GeneralError::HpkeSetupSealer => "hpke setup sealer error"@,
        GeneralError::HpkeSetupOpener => "hpke setup opener error"@,
        GeneralError::HpkeKemKeygen => "hpke kem keygen error"@,
        GeneralError::KeyMalformed => "PKCS#8 cryptographic key data malformed"@,
    }
}

impl GeneralError {
    /// The message text of this failure.
    pub fn message(&self) -> (msg: &'static str)
        ensures
            msg@ == general_error_text(*self),
    {
        match self {
            GeneralError::EcdhDerive => "ecdh derive error",
            GeneralError::InvalidPublicKey => "Invalid public key",
            GeneralError::DerivationFailed => "Derivation failed",
            GeneralError::MlKemKeygen => "MlKem keygen error",
            GeneralError::MlKemPubkey => "MlKem pubkey error",
            GeneralError::MlKemEncaps => "MlKem encaps error",
            GeneralError::SigningFailed => "signing failed",
            GeneralError::DerEncoding => "Error DER-encoding ECDSA signature",
            GeneralError::HpkeSeal => "hpke seal error",
            GeneralError::HpkeOpen => "hpke open error",
            GeneralError::HpkeSetupSealer => "hpke setup sealer error",
            GeneralError::HpkeSetupOpener => "hpke setup opener error",
            GeneralError::HpkeKemKeygen => "hpke kem keygen error",
            GeneralError::KeyMalformed => "PKCS#8 cryptographic key data malformed",
        }
    }
}

} // verus!
