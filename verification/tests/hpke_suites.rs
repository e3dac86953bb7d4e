use rustls_libcrux_provider::error::{GeneralError, TlsError};
use rustls_libcrux_provider::hpke::{
    all_supported_suites, dhkem_p256_hkdf_sha256_aes_128, dhkem_x25519_hkdf_sha256_chacha20_poly1305,
    HpkeAeadAlgorithm, HpkeKdfAlgorithm, HpkeKemAlgorithm, HpkeMode, HpkeSuite, LibcruxHpkeConfig,
};

#[test]
fn test_fips() {
    // None of the hpke-rs suites should be considered FIPS approved.
    assert!(all_supported_suites().iter().all(|suite| !suite.fips()));
}

#[test]
fn supported_suites_are_the_six_base_configurations() {
    let suites = all_supported_suites();
    assert_eq!(suites.len(), 6);
    let expected = [
        (HpkeKemAlgorithm::DhKemP256, HpkeAeadAlgorithm::Aes128Gcm),
        (HpkeKemAlgorithm::DhKemP256, HpkeAeadAlgorithm::Aes256Gcm),
        (HpkeKemAlgorithm::DhKemP256, HpkeAeadAlgorithm::ChaCha20Poly1305),
        (HpkeKemAlgorithm::DhKem25519, HpkeAeadAlgorithm::Aes128Gcm),
        (HpkeKemAlgorithm::DhKem25519, HpkeAeadAlgorithm::Aes256Gcm),
        (HpkeKemAlgorithm::DhKem25519, HpkeAeadAlgorithm::ChaCha20Poly1305),
    ];
    for (suite, (kem, aead)) in suites.iter().zip(expected.iter()) {
        assert_eq!(suite.mode, HpkeMode::Base);
        assert_eq!(suite.kdf, HpkeKdfAlgorithm::HkdfSha256);
        assert_eq!(suite.kem, *kem);
        assert_eq!(suite.aead, *aead);
    }
}

#[test]
fn suite_code_points() {
    assert_eq!(
        dhkem_p256_hkdf_sha256_aes_128().suite(),
        HpkeSuite { kem: 0x0010, kdf_id: 0x0001, aead_id: 0x0001 }
    );
    assert_eq!(
        dhkem_x25519_hkdf_sha256_chacha20_poly1305().suite(),
        HpkeSuite { kem: 0x0020, kdf_id: 0x0001, aead_id: 0x0003 }
    );
    let other = LibcruxHpkeConfig {
        mode: HpkeMode::Base,
        kem: HpkeKemAlgorithm::DhKem448,
        kdf: HpkeKdfAlgorithm::HkdfSha512,
        aead: HpkeAeadAlgorithm::HpkeExport,
    };
    assert_eq!(other.suite(), HpkeSuite { kem: 0x0021, kdf_id: 0x0003, aead_id: 0xFFFF });
    let p384 = LibcruxHpkeConfig {
        mode: HpkeMode::Base,
        kem: HpkeKemAlgorithm::DhKemP384,
        kdf: HpkeKdfAlgorithm::HkdfSha384,
        aead: HpkeAeadAlgorithm::Aes256Gcm,
    };
    assert_eq!(p384.suite(), HpkeSuite { kem: 0x0011, kdf_id: 0x0002, aead_id: 0x0002 });
}

#[test]
fn single_shot_seal_then_open() {
    // Info value corresponds to the first RFC 9180 base mode test vector.
    let info = &[
        0x4f, 0x64, 0x65, 0x20, 0x6f, 0x6e, 0x20, 0x61, 0x20, 0x47, 0x72, 0x65, 0x63, 0x69,
        0x61, 0x6e, 0x20, 0x55, 0x72, 0x6e,
    ][..];
    let aad = &[0xC0, 0xFF, 0xEE];
    let pt = &[0xF0, 0x0D];
    for suite in all_supported_suites() {
        let (pk, sk) = suite.generate_key_pair().unwrap();

        let (enc, ct) = suite.seal(info, aad, pt, &pk).unwrap();
        let opened = suite.open(&enc, info, aad, &ct, &sk).unwrap();
        assert_eq!(opened, pt);

        // The wrong additional data does not open.
        assert_eq!(
            suite.open(&enc, info, &[0x0], &ct, &sk),
            Err(TlsError::General(GeneralError::HpkeOpen))
        );

        // A corrupted private key does not open.
        let mut bad_sk = sk.clone();
        bad_sk[10] ^= 0xFF;
        assert!(suite.open(&enc, info, aad, &ct, &bad_sk).is_err());

        // An empty public key cannot be sealed to.
        assert_eq!(
            suite.seal(info, aad, pt, &[]),
            Err(TlsError::General(GeneralError::HpkeSeal))
        );
    }
}

#[test]
fn smoke_test() {
    for suite in all_supported_suites() {
        _ = format!("{suite:?}"); // Suites should be Debug.

        // We should be able to generate a random keypair.
        let (pk, sk) = suite.generate_key_pair().unwrap();

        // Info value corresponds to the first RFC 9180 base mode test vector.
        let info = &[
            0x4f, 0x64, 0x65, 0x20, 0x6f, 0x6e, 0x20, 0x61, 0x20, 0x47, 0x72, 0x65, 0x63, 0x69,
            0x61, 0x6e, 0x20, 0x55, 0x72, 0x6e,
        ][..];

        // We should be able to set up a sealer.
        let (enc, mut sealer) = suite.setup_sealer(info, &pk).unwrap();

        _ = format!("{sealer:?}"); // Sealer should be Debug.

        // Setting up a sealer with an invalid public key should fail.
        let bad_setup_res = suite.setup_sealer(info, &[]);
        assert!(bad_setup_res.is_err());

        // We should be able to seal some plaintext.
        let aad = &[0xC0, 0xFF, 0xEE];
        let pt = &[0xF0, 0x0D];
        let ct = sealer.seal(aad, pt).unwrap();

        // We should be able to set up an opener.
        let mut opener = suite.setup_opener(&enc, info, &sk).unwrap();
        _ = format!("{opener:?}"); // Opener should be Debug.

        // Setting up an opener with an invalid private key should fail.
        let bad_key_res = suite.setup_opener(&enc, info, &[]);
        assert!(bad_key_res.is_err());

        // Opening the plaintext should work with the correct opener and aad.
        let pt_prime = opener.open(aad, &ct).unwrap();
        assert_eq!(pt_prime, pt);

        // Opening the plaintext with the correct opener and wrong aad should fail.
        let open_res = opener.open(&[0x0], &ct);
        assert!(open_res.is_err());

        // Opening the plaintext with the wrong opener should fail.
        let mut sk_rm_prime = sk.to_vec();
        sk_rm_prime[10] ^= 0xFF; // Corrupt a byte of the private key.
        let mut opener_two = suite.setup_opener(&enc, info, &sk_rm_prime).unwrap();
        let open_res = opener_two.open(aad, &ct);
        assert!(open_res.is_err());
    }
}

#[test]
fn sealer_and_opener_keep_in_step() {
    let suite = dhkem_x25519_hkdf_sha256_chacha20_poly1305();
    let (pk, sk) = suite.generate_key_pair().unwrap();
    let (enc, mut sealer) = suite.setup_sealer(b"info", &pk).unwrap();
    let mut opener = suite.setup_opener(&enc, b"info", &sk).unwrap();
    let first = sealer.seal(b"aad", b"first").unwrap();
    let second = sealer.seal(b"aad", b"second").unwrap();
    // The ciphertext is the plaintext and a 16-byte tag.
    assert_eq!(first.len(), 5 + 16);
    assert_eq!(second.len(), 6 + 16);
    // Out of order, the second message does not open at the first sequence number, and
    // the failure leaves the opener where it was.
    assert_eq!(opener.open(b"aad", &second), Err(TlsError::General(GeneralError::HpkeOpen)));
    assert_eq!(opener.open(b"aad", &first).unwrap(), b"first".to_vec());
    assert_eq!(opener.open(b"aad", &second).unwrap(), b"second".to_vec());
    // Another info gives another context.
    let mut other = suite.setup_opener(&enc, b"other", &sk).unwrap();
    assert!(other.open(b"aad", &first).is_err());
}

#[test]
fn export_only_context_seals_nothing() {
    let suite = LibcruxHpkeConfig {
        mode: HpkeMode::Base,
        kem: HpkeKemAlgorithm::DhKem25519,
        kdf: HpkeKdfAlgorithm::HkdfSha256,
        aead: HpkeAeadAlgorithm::HpkeExport,
    };
    let (pk, _sk) = dhkem_x25519_hkdf_sha256_chacha20_poly1305().generate_key_pair().unwrap();
    let (_enc, mut sealer) = suite.setup_sealer(b"info", &pk).unwrap();
    assert_eq!(sealer.seal(b"", b"x"), Err(TlsError::General(GeneralError::HpkeSeal)));
}

#[test]
fn keys_of_the_wrong_length_are_refused_at_setup() {
    for suite in all_supported_suites() {
        let (pk, sk) = suite.generate_key_pair().unwrap();
        let (enc, _sealer) = suite.setup_sealer(b"info", &pk).unwrap();
        let nenc = if suite.kem == HpkeKemAlgorithm::DhKem25519 { 32 } else { 65 };
        assert_eq!(enc.len(), nenc);
        assert_eq!(
            suite.setup_sealer(b"info", &pk[..31]).unwrap_err(),
            TlsError::General(GeneralError::HpkeSetupSealer)
        );
        assert_eq!(
            suite.setup_opener(&enc, b"info", &sk[..31]).unwrap_err(),
            TlsError::General(GeneralError::HpkeSetupOpener)
        );
        assert_eq!(
            suite.setup_opener(&enc[..31], b"info", &sk).unwrap_err(),
            TlsError::General(GeneralError::HpkeSetupOpener)
        );
        let (enc, ct) = suite.seal(b"info", b"aad", b"pt", &pk).unwrap();
        assert_eq!(enc.len(), nenc);
        assert_eq!(ct.len(), 2 + 16);
        assert_eq!(suite.seal(b"info", b"aad", b"pt", &[]), Err(TlsError::General(GeneralError::HpkeSeal)));
        assert_eq!(
            suite.open(&enc, b"info", b"aad", &ct, &sk[..31]),
            Err(TlsError::General(GeneralError::HpkeOpen))
        );
    }
}
