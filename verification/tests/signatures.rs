use rustls_libcrux_provider::ecdsa_der::{der_encode_ecdsa_signature, DerEcdsaSignature};
use rustls_libcrux_provider::key_provider::{KeyLoadError, PrivateKeyDer};
use rustls_libcrux_provider::random::Provider;
use rustls_libcrux_provider::sign::{
    DigestAlgorithm, LibcruxSignatureScheme, SignatureAlgorithm, SigningKey, TLSSigningKey,
};
use rustls_libcrux_provider::verify::{
    ecdsa_p256_sha256_verifier, ed25519_verifier, AlgorithmIdentifier, InvalidSignature, Verify,
};

fn unhex(s: &str) -> Vec<u8> {
    (0..s.len()).step_by(2).map(|i| u8::from_str_radix(&s[i..i + 2], 16).unwrap()).collect()
}

const ED25519_SK: &str = "9d61b19deffd5a60ba844af492ec2cc44449c5697b326919703bac031cae7f60";
const ED25519_PK: &str = "d75a980182b10ab7d54bfed3c964073a0ee172f3daa62325af021a68f707511a";
const ED25519_SIG_EMPTY: &str = "e5564300c360ac729086e2cc806e828a84877f1eb8e5d974d873e065224901555fb8821590a33bacc61e39701cf9b46bd25bf5f0595bbe24655141438e7a100b";

const P256_SK: &str = "c9afa9d845ba75166b5c215767b1d6934e50c3db36e89b127b8a622b120f6721";
const P256_PK: &str = "0460fed4ba255a9d31c961eb74c6356d68c049b8923b61fa6ce669622e60f29fb67903fe1008b8bc99a41ae9e95628bc64f2f1b20c2d7e9f5177a3c294d4462299";

fn ed25519_pkcs8() -> Vec<u8> {
    let mut der = unhex("302e020100300506032b657004220420");
    der.extend(unhex(ED25519_SK));
    der
}

fn p256_pkcs8(curve_oid: &str) -> Vec<u8> {
    let mut sec1 = unhex("30250201010420");
    sec1.extend(unhex(P256_SK));
    let curve = unhex(curve_oid);
    let mut algorithm = unhex("06072a8648ce3d0201");
    algorithm.extend(&curve);
    let mut content = unhex("020100");
    content.push(0x30);
    content.push(algorithm.len() as u8);
    content.extend(algorithm);
    content.push(0x04);
    content.push(sec1.len() as u8);
    content.extend(sec1);
    let mut der = vec![0x30, content.len() as u8];
    der.extend(content);
    der
}

#[test]
fn load_ed25519_pkcs8_key() {
    let key = Provider.load_private_key(PrivateKeyDer::Pkcs8(ed25519_pkcs8())).unwrap();
    assert_eq!(key.inner.scheme, LibcruxSignatureScheme::Ed25519);
    assert_eq!(key.inner.secret.to_vec(), unhex(ED25519_SK));
    assert_eq!(key.scheme(), 0x0807);
    assert_eq!(key.algorithm(), SignatureAlgorithm::Ed25519);
}

#[test]
fn load_p256_pkcs8_key() {
    let key = Provider
        .load_private_key(PrivateKeyDer::Pkcs8(p256_pkcs8("06082a8648ce3d030107")))
        .unwrap();
    assert_eq!(key.inner.scheme, LibcruxSignatureScheme::EcDsaP256(DigestAlgorithm::Sha256));
    assert_eq!(key.inner.secret.to_vec(), unhex(P256_SK));
    assert_eq!(key.scheme(), 0x0403);
    assert_eq!(key.algorithm(), SignatureAlgorithm::Ecdsa);
}

#[test]
fn refused_keys() {
    let p384 = p256_pkcs8("06052b81040022");
    assert!(matches!(
        Provider.load_private_key(PrivateKeyDer::Pkcs8(p384)),
        Err(KeyLoadError::KeyMalformed)
    ));
    assert!(matches!(
        Provider.load_private_key(PrivateKeyDer::Pkcs1(ed25519_pkcs8())),
        Err(KeyLoadError::KeyMalformed)
    ));
    assert!(matches!(
        Provider.load_private_key(PrivateKeyDer::Sec1(ed25519_pkcs8())),
        Err(KeyLoadError::KeyMalformed)
    ));
    assert!(matches!(
        Provider.load_private_key(PrivateKeyDer::Pkcs8(vec![0x30, 0x03, 0x02, 0x01])),
        Err(KeyLoadError::Pkcs8(_))
    ));
    // An Ed25519 document whose key is 31 bytes long.
    let mut short = unhex("302d020100300506032b657004210420");
    short.extend(&unhex(ED25519_SK)[..31]);
    short[15] = 0x1f;
    assert!(matches!(
        Provider.load_private_key(PrivateKeyDer::Pkcs8(short)),
        Err(KeyLoadError::KeyMalformed)
    ));
    assert!(matches!(TLSSigningKey::load_key(LibcruxSignatureScheme::Ed25519, &[1; 33]), Err(KeyLoadError::KeyMalformed)));
}

#[test]
fn ed25519_rfc8032_signature_and_verification() {
    let mut secret = [0u8; 32];
    secret.copy_from_slice(&unhex(ED25519_SK));
    let key = TLSSigningKey::new(SigningKey { scheme: LibcruxSignatureScheme::Ed25519, secret });
    let sig = key.sign(b"").unwrap();
    assert_eq!(sig, unhex(ED25519_SIG_EMPTY));

    let verifier = ed25519_verifier();
    assert_eq!(verifier.verify_signature(&unhex(ED25519_PK), b"", &sig), Ok(()));
    assert_eq!(verifier.verify_signature(&unhex(ED25519_PK), b"x", &sig), Err(InvalidSignature));
    assert_eq!(verifier.verify_signature(&unhex(ED25519_PK)[..31], b"", &sig), Err(InvalidSignature));
    assert_eq!(verifier.verify_signature(&unhex(ED25519_PK), b"", &sig[..63]), Err(InvalidSignature));
    assert_eq!(verifier.public_key_alg_id(), AlgorithmIdentifier::Ed25519);
    assert_eq!(verifier.signature_alg_id(), AlgorithmIdentifier::Ed25519);
}

#[test]
fn ecdsa_signatures_verify_where_both_integers_take_32_bytes() {
    let key = Provider
        .load_private_key(PrivateKeyDer::Pkcs8(p256_pkcs8("06082a8648ce3d030107")))
        .unwrap();
    let verifier = ecdsa_p256_sha256_verifier();
    let pk = unhex(P256_PK);
    let mut seen_full = false;
    for _ in 0..64 {
        let sig = key.sign(b"sample").unwrap();
        let decoded = DerEcdsaSignature::decode(&sig).unwrap();
        let result = verifier.verify_signature(&pk, b"sample", &sig);
        if decoded.r.len() == 32 && decoded.s.len() == 32 {
            seen_full = true;
            assert_eq!(result, Ok(()));
            assert_eq!(verifier.verify_signature(&pk, b"other", &sig), Err(InvalidSignature));
        } else {
            assert_eq!(result, Err(InvalidSignature));
        }
    }
    assert!(seen_full);
    assert_eq!(verifier.public_key_alg_id(), AlgorithmIdentifier::EcdsaP256);
    assert_eq!(verifier.signature_alg_id(), AlgorithmIdentifier::EcdsaSha256);
    assert_eq!(
        Verify::new(LibcruxSignatureScheme::EcDsaP256(DigestAlgorithm::Sha384)).signature_alg_id(),
        AlgorithmIdentifier::EcdsaSha384
    );
}

#[test]
fn ecdsa_der_encoding_vectors() {
    let mut raw = [0u8; 64];
    raw[31] = 1;
    raw[32] = 0x80;
    assert_eq!(
        der_encode_ecdsa_signature(&raw),
        {
            let mut v = unhex("3026020101022100");
            v.push(0x80);
            v.extend(vec![0u8; 31]);
            v
        }
    );
    let mut full = [0x11u8; 64];
    full[32] = 0x22;
    let der = der_encode_ecdsa_signature(&full);
    assert_eq!(der.len(), 70);
    assert_eq!(&der[..4], &[0x30, 0x44, 0x02, 0x20]);
    let decoded = DerEcdsaSignature::decode(&der).unwrap();
    assert_eq!(decoded.r, full[..32].to_vec());
    assert_eq!(decoded.s, full[32..].to_vec());

    // Non-canonical encodings are refused.
    assert!(DerEcdsaSignature::decode(&unhex("30060202000102017f")).is_none());
    // Bytes after the sequence are ignored.
    let trailing = DerEcdsaSignature::decode(&unhex("3006020100020100ff")).unwrap();
    assert_eq!((trailing.r, trailing.s), (vec![0u8], vec![0u8]));
    assert!(DerEcdsaSignature::decode(&unhex("300602010002")).is_none());
}

#[test]
fn choose_scheme_offers_the_key_for_its_own_scheme() {
    let key = TLSSigningKey::new(SigningKey { scheme: LibcruxSignatureScheme::Ed25519, secret: [1; 32] });
    assert!(key.choose_scheme(&[0x0403, 0x0807]).is_some());
    assert!(key.choose_scheme(&[0x0403]).is_none());
    let other = TLSSigningKey::new(SigningKey {
        scheme: LibcruxSignatureScheme::EcDsaP256(DigestAlgorithm::Sha384),
        secret: [1; 32],
    });
    assert_eq!(other.scheme(), 0);
    assert_eq!(other.algorithm(), SignatureAlgorithm::Unknown(0));
    assert!(other.choose_scheme(&[0]).is_some());
}

#[test]
fn signing_keys_give_their_public_keys() {
    let mut secret = [0u8; 32];
    secret.copy_from_slice(&unhex(ED25519_SK));
    let ed = SigningKey { scheme: LibcruxSignatureScheme::Ed25519, secret };
    assert_eq!(ed.public_key().unwrap(), unhex(ED25519_PK));

    secret.copy_from_slice(&unhex(P256_SK));
    let ec = SigningKey { scheme: LibcruxSignatureScheme::EcDsaP256(DigestAlgorithm::Sha256), secret };
    assert_eq!(ec.public_key().unwrap(), unhex(P256_PK));

    // A zero scalar, and one at or above the group order, have no public key.
    let zero = SigningKey { scheme: LibcruxSignatureScheme::EcDsaP256(DigestAlgorithm::Sha256), secret: [0u8; 32] };
    assert_eq!(zero.public_key(), None);
    let too_big = SigningKey { scheme: LibcruxSignatureScheme::EcDsaP256(DigestAlgorithm::Sha256), secret: [0xff; 32] };
    assert_eq!(too_big.public_key(), None);
}

#[test]
fn signatures_verify_under_the_derived_public_key() {
    let mut secret = [0u8; 32];
    secret.copy_from_slice(&unhex(ED25519_SK));
    let ed = SigningKey { scheme: LibcruxSignatureScheme::Ed25519, secret };
    let sig = TLSSigningKey::new(ed).sign(b"message").unwrap();
    assert_eq!(ed25519_verifier().verify_signature(&ed.public_key().unwrap(), b"message", &sig), Ok(()));

    secret.copy_from_slice(&unhex(P256_SK));
    let ec = SigningKey { scheme: LibcruxSignatureScheme::EcDsaP256(DigestAlgorithm::Sha256), secret };
    let pk = ec.public_key().unwrap();
    let mut seen = false;
    for _ in 0..64 {
        let sig = TLSSigningKey::new(ec).sign(b"message").unwrap();
        if sig.len() == 70 && sig[3] == 0x20 {
            seen = true;
            assert_eq!(ecdsa_p256_sha256_verifier().verify_signature(&pk, b"message", &sig), Ok(()));
        }
    }
    assert!(seen);
}
