//! The calls into libcrux and the operating system's random source.
//!
//! Every item in this file is trusted: Verus believes its contract and does not
//! read its body. Each contract says only what libcrux's documentation and source
//! show of the function it calls; results that take pages to define (the output
//! of a cipher, a KEM or a signature scheme) are given a name and not a definition.

use vstd::prelude::*;

use libcrux::algorithms::chacha20poly1305 as chachapoly;
use libcrux::algorithms::curve25519;
use libcrux::algorithms::ecdsa::{self, p256};
use libcrux::algorithms::ed25519;
use libcrux::algorithms::mlkem::mlkem768;
use libcrux::algorithms::hkdf;
use libcrux::algorithms::hmac;
use libcrux::algorithms::sha2;

use crate::sign::DigestAlgorithm;
use rand_core::TryRngCore;

verus! {

/// The error type of libcrux's ChaCha20-Poly1305 functions.
#[verifier::external_type_specification]
#[verifier::external_body]
pub struct ExAeadError(chachapoly::AeadError);

/// The error type of the operating system's random source.
#[verifier::external_type_specification]
#[verifier::external_body]
pub struct ExOsError(rand_core::OsError);

/// ChaCha20-Poly1305 encryption (RFC 8439) of `plaintext` under `key`, `nonce` and
/// `aad`: the ciphertext followed by the tag.
pub uninterp spec fn chacha20poly1305_seal(
    key: Seq<u8>,
    nonce: Seq<u8>,
    aad: Seq<u8>,
    plaintext: Seq<u8>,
) -> Seq<u8>;

/// ChaCha20-Poly1305 decryption of `ciphertext` with detached `tag`: the plaintext,
/// or `None` where the tag does not authenticate the inputs.
pub uninterp spec fn chacha20poly1305_open(
    key: Seq<u8>,
    nonce: Seq<u8>,
    aad: Seq<u8>,
    ciphertext: Seq<u8>,
    tag: Seq<u8>,
) -> Option<Seq<u8>>;

/// Calls `libcrux_chacha20poly1305::encrypt_detached`. It fails exactly when the
/// plaintext or the aad is longer than `u32::MAX` bytes; otherwise the ciphertext is
/// as long as the plaintext and the tag is 16 bytes, together the named encryption.
#[verifier::external_body]
pub(crate) fn chacha20poly1305_encrypt(
    key: &[u8; 32],
    nonce: &[u8; 12],
    aad: &[u8],
    plaintext: &[u8],
) -> (res: Result<(Vec<u8>, [u8; 16]), chachapoly::AeadError>)
    ensures
        res is Ok <==> (plaintext@.len() <= u32::MAX && aad@.len() <= u32::MAX),
        res matches Ok((ct, tag)) ==> {
            &&& ct@.len() == plaintext@.len()
            &&& ct@ + tag@ == chacha20poly1305_seal(key@, nonce@, aad@, plaintext@)
        },
{
    let mut ciphertext = vec![0u8; plaintext.len()];
    let mut tag = [0u8; 16];
    match chachapoly::encrypt_detached(key, plaintext, &mut ciphertext, &mut tag, aad, nonce) {
        Ok(_) => Ok((ciphertext, tag)),
        Err(e) => Err(e),
    }
}

/// Calls `libcrux_chacha20poly1305::decrypt_detached`. It succeeds exactly when the
/// named decryption gives a plaintext, which is then as long as the ciphertext.
/// Decryption undoes encryption: where `ciphertext` and `tag` together are the encryption of some
/// plaintext under the same key, nonce and aad (within the length limits under which
/// encryption succeeds), the result is that plaintext.
#[verifier::external_body]
pub(crate) fn chacha20poly1305_decrypt(
    key: &[u8; 32],
    nonce: &[u8; 12],
    aad: &[u8],
    ciphertext: &[u8],
    tag: &[u8],
) -> (res: Result<Vec<u8>, chachapoly::AeadError>)
    requires
        tag@.len() == 16,
    ensures
        match res {
            Ok(pt) => chacha20poly1305_open(key@, nonce@, aad@, ciphertext@, tag@) == Some(pt@)
                && pt@.len() == ciphertext@.len(),
            Err(_) => chacha20poly1305_open(key@, nonce@, aad@, ciphertext@, tag@) is None,
        },
        res is Err ==> forall|pt: Seq<u8>|
            !(pt.len() <= u32::MAX && aad@.len() <= u32::MAX
                && #[trigger] chacha20poly1305_seal(key@, nonce@, aad@, pt) == ciphertext@ + tag@),
        res matches Ok(out) ==> forall|pt: Seq<u8>|
            pt.len() <= u32::MAX && aad@.len() <= u32::MAX
                && #[trigger] chacha20poly1305_seal(key@, nonce@, aad@, pt) == ciphertext@ + tag@
                ==> out@ == pt,
{
    let mut plaintext = vec![0u8; ciphertext.len()];
    let tag: &[u8; 16] = tag.try_into().unwrap();
    match chachapoly::decrypt_detached(key, &mut plaintext, ciphertext, tag, aad, nonce) {
        Ok(_) => Ok(plaintext),
        Err(e) => Err(e),
    }
}

/// Calls `OsRng::try_fill_bytes` of `rand_core`: fills `bytes` from the operating
/// system's random source. What it writes is left unsaid; its length is kept.
#[verifier::external_body]
pub(crate) fn os_fill_bytes(bytes: &mut [u8]) -> (res: Result<(), rand_core::OsError>)
    ensures
        final(bytes)@.len() == old(bytes)@.len(),
{
    rand_core::OsRng.try_fill_bytes(bytes)
}

/// The error type of libcrux's X25519 functions.
#[verifier::external_type_specification]
#[verifier::external_body]
pub struct ExCurve25519Error(libcrux::algorithms::curve25519::Error);

/// The X25519 public key (RFC 7748) of the secret key `sk`.
pub uninterp spec fn x25519_public_key(sk: Seq<u8>) -> Seq<u8>;

/// The X25519 shared point of the secret `sk` and the peer's public key `pk`, or
/// `None` where it is the all-zero value.
pub uninterp spec fn x25519_shared_secret(pk: Seq<u8>, sk: Seq<u8>) -> Option<Seq<u8>>;

/// The ML-KEM-768 key pair (FIPS 203) derived from a 64-byte seed: the encoded
/// decapsulation key and the encoded encapsulation key.
pub uninterp spec fn mlkem768_key_pair(seed: Seq<u8>) -> (Seq<u8>, Seq<u8>);

/// ML-KEM-768 encapsulation to the public key `pk` with 32 bytes of randomness: the
/// ciphertext and the shared secret.
pub uninterp spec fn mlkem768_encapsulation(pk: Seq<u8>, randomness: Seq<u8>) -> (Seq<u8>, Seq<u8>);

/// ML-KEM-768 decapsulation of `ct` with the decapsulation key `sk`: the shared secret.
pub uninterp spec fn mlkem768_decapsulation(sk: Seq<u8>, ct: Seq<u8>) -> Seq<u8>;

/// Calls `libcrux_curve25519::secret_to_public`: the named public key of `sk`.
#[verifier::external_body]
pub(crate) fn x25519_secret_to_public(sk: &[u8; 32]) -> (pk: [u8; 32])
    ensures
        pk@ == x25519_public_key(sk@),
{
    let mut pk = [0u8; 32];
    curve25519::secret_to_public(&mut pk, sk);
    pk
}

/// Calls `libcrux_curve25519::ecdh`: the named shared secret, or an error exactly
/// where it is `None`. As RFC 7748 (section 6.1) gives it, the peer whose secret key has
/// the public key `pk` reaches the same value with our public key: the same secret, or
/// the same all-zero refusal. A peer's public key that is the public key of some secret
/// is a point of the prime-order subgroup, and never gives the all-zero value.
#[verifier::external_body]
pub(crate) fn x25519_ecdh(pk: &[u8; 32], sk: &[u8; 32]) -> (res: Result<[u8; 32], libcrux::algorithms::curve25519::Error>)
    ensures
        match res {
            Ok(ss) => x25519_shared_secret(pk@, sk@) == Some(ss@),
            Err(_) => x25519_shared_secret(pk@, sk@) is None,
        },
        match res {
            Ok(ss) => forall|peer_sk: Seq<u8>|
                peer_sk.len() == 32 && #[trigger] x25519_public_key(peer_sk) == pk@ ==> x25519_shared_secret(
                    x25519_public_key(sk@),
                    peer_sk,
                ) == Some(ss@),
            Err(_) => forall|peer_sk: Seq<u8>|
                peer_sk.len() == 32 && #[trigger] x25519_public_key(peer_sk) == pk@ ==> x25519_shared_secret(
                    x25519_public_key(sk@),
                    peer_sk,
                ) is None,
        },
        forall|peer_sk: Seq<u8>| peer_sk.len() == 32 && #[trigger] x25519_public_key(peer_sk) == pk@ ==> res is Ok,
{
    let mut ss = [0u8; 32];
    match curve25519::ecdh(&mut ss, pk, sk) {
        Ok(()) => Ok(ss),
        Err(e) => Err(e),
    }
}

/// Calls `libcrux_ml_kem::mlkem768::generate_key_pair`: the named key pair of the
/// seed, as a 2400-byte decapsulation key and a 1184-byte encapsulation key.
#[verifier::external_body]
pub(crate) fn mlkem768_generate_key_pair(seed: [u8; 64]) -> (res: (Vec<u8>, Vec<u8>))
    ensures
        res.0@.len() == 2400,
        res.1@.len() == 1184,
        (res.0@, res.1@) == mlkem768_key_pair(seed@),
{
    let pair = mlkem768::generate_key_pair(seed);
    (pair.private_key().as_slice().to_vec(), pair.public_key().as_slice().to_vec())
}

/// Calls `libcrux_ml_kem::mlkem768::encapsulate` on a 1184-byte public key: the named
/// encapsulation, as a 1088-byte ciphertext and a 32-byte shared secret.
#[verifier::external_body]
pub(crate) fn mlkem768_encapsulate(pk: &[u8], randomness: [u8; 32]) -> (res: (Vec<u8>, [u8; 32]))
    requires
        pk@.len() == 1184,
    ensures
        res.0@.len() == 1088,
        (res.0@, res.1@) == mlkem768_encapsulation(pk@, randomness@),
{
    let pk = mlkem768::MlKem768PublicKey::try_from(pk).unwrap();
    let (ct, ss) = mlkem768::encapsulate(&pk, randomness);
    (ct.as_slice().to_vec(), ss)
}

/// Calls `libcrux_ml_kem::mlkem768::decapsulate` on a 2400-byte decapsulation key and a
/// 1088-byte ciphertext: the named shared secret.
#[verifier::external_body]
pub(crate) fn mlkem768_decapsulate(sk: &[u8], ct: &[u8]) -> (ss: [u8; 32])
    requires
        sk@.len() == 2400,
        ct@.len() == 1088,
    ensures
        ss@ == mlkem768_decapsulation(sk@, ct@),
{
    let sk = mlkem768::MlKem768PrivateKey::try_from(sk).unwrap();
    let ct = mlkem768::MlKem768Ciphertext::try_from(ct).unwrap();
    mlkem768::decapsulate(&sk, &ct)
}

/// The error type of libcrux's ECDSA functions.
#[verifier::external_type_specification]
#[verifier::external_body]
pub struct ExEcdsaError(ecdsa::Error);

/// The error type of libcrux's Ed25519 functions.
#[verifier::external_type_specification]
#[verifier::external_body]
pub struct ExEd25519Error(ed25519::Error);

/// The Ed25519 signature (RFC 8032) of `msg` under the secret key `sk`.
pub uninterp spec fn ed25519_signature(sk: Seq<u8>, msg: Seq<u8>) -> Seq<u8>;

/// Whether libcrux's Ed25519 verification accepts `sig` on `msg` under `pk`.
pub uninterp spec fn ed25519_accepts(pk: Seq<u8>, msg: Seq<u8>, sig: Seq<u8>) -> bool;

/// The 64-byte point `x || y` that libcrux reads from the encoded P-256 public key
/// `pk` (uncompressed, compressed or raw), or `None` where it is not a valid point.
pub uninterp spec fn ecdsa_p256_public_key(pk: Seq<u8>) -> Option<Seq<u8>>;

/// Whether libcrux's ECDSA P-256 verification with `digest` accepts the signature
/// `r || s` on `msg` under the point `pk`.
pub uninterp spec fn ecdsa_p256_accepts(digest: DigestAlgorithm, pk: Seq<u8>, msg: Seq<u8>, sig: Seq<u8>) -> bool;

/// The Ed25519 public key that libcrux derives from the secret key `sk`
/// (`libcrux_ed25519::secret_to_public`).
pub uninterp spec fn ed25519_public_key(sk: Seq<u8>) -> Seq<u8>;

/// Calls `libcrux_ed25519::secret_to_public`: the named 32-byte public key of `sk`.
#[verifier::external_body]
pub(crate) fn ed25519_secret_to_public(sk: &[u8; 32]) -> (pk: [u8; 32])
    ensures
        pk@ == ed25519_public_key(sk@),
{
    let mut pk = [0u8; 32];
    ed25519::secret_to_public(&mut pk, sk);
    pk
}

/// Calls `libcrux_ed25519::sign`: fails exactly when the message is longer than
/// `u32::MAX` bytes, and otherwise gives the named signature, which verification under
/// the public key of `sk` accepts (RFC 8032's correctness of signing).
#[verifier::external_body]
pub(crate) fn ed25519_sign(sk: &[u8; 32], msg: &[u8]) -> (res: Result<[u8; 64], ed25519::Error>)
    ensures
        res is Ok <==> msg@.len() <= u32::MAX,
        res matches Ok(sig) ==> sig@ == ed25519_signature(sk@, msg@),
        res matches Ok(sig) ==> ed25519_accepts(ed25519_public_key(sk@), msg@, sig@),
{
    ed25519::sign(msg, sk)
}

/// Calls `libcrux_ed25519::verify`: succeeds exactly when the named check accepts.
#[verifier::external_body]
pub(crate) fn ed25519_verify(pk: &[u8; 32], msg: &[u8], sig: &[u8; 64]) -> (res: Result<(), ed25519::Error>)
    ensures
        res is Ok <==> ed25519_accepts(pk@, msg@, sig@),
{
    ed25519::verify(msg, pk, sig)
}

/// The point `x || y` that libcrux derives from the P-256 secret scalar `sk`
/// (`p256::PrivateKey::public_key`).
pub uninterp spec fn ecdsa_p256_public_point(sk: Seq<u8>) -> Seq<u8>;

/// Calls `PrivateKey::try_from` and `PrivateKey::public_key` of `libcrux_ecdsa::p256`:
/// the named point `x || y` of the scalar `sk`. Both fail exactly where the scalar is not
/// strictly between zero and the group order. The point is a valid curve point, so
/// libcrux reads its uncompressed encoding (`0x04`, then `x || y`) back to it.
#[verifier::external_body]
pub(crate) fn ecdsa_p256_secret_to_public(sk: &[u8; 32]) -> (res: Result<[u8; 64], ecdsa::Error>)
    ensures
        res is Ok <==> 0 < crate::ecdsa_der::be_value(sk@) < p256_order(),
        res matches Ok(point) ==> point@ == ecdsa_p256_public_point(sk@),
        res matches Ok(point) ==> ecdsa_p256_public_key(seq![4u8] + point@) == Some(point@),
{
    let pk = p256::PrivateKey::try_from(sk)?.public_key()?;
    Ok(pk.0)
}

/// Calls `PrivateKey::try_from` and `p256::rand::sign` of `libcrux_ecdsa` with the
/// system random source, and returns the signature as `r || s`. The nonce is random, so
/// the signature is not named; what holds of every outcome is that verification with the
/// same digest under the public point of `sk` accepts it. It fails where the scalar is
/// not a valid private key, the digest is SHA-224 or the message is longer than
/// `u32::MAX` bytes; otherwise it fails only where the random source does (or, with
/// negligible chance, where a drawn nonce gives a zero component).
#[verifier::external_body]
pub(crate) fn ecdsa_p256_sign(digest: DigestAlgorithm, sk: &[u8; 32], msg: &[u8]) -> (res: Result<[u8; 64], ecdsa::Error>)
    ensures
        res matches Ok(sig) ==> ecdsa_p256_accepts(digest, ecdsa_p256_public_point(sk@), msg@, sig@),
        !(0 < crate::ecdsa_der::be_value(sk@) < p256_order()) ==> res is Err,
        digest == DigestAlgorithm::Sha224 ==> res is Err,
        msg@.len() > u32::MAX ==> res is Err,
{
    let hash = match digest {
        DigestAlgorithm::Sha224 => sha2::Algorithm::Sha224,
        DigestAlgorithm::Sha256 => sha2::Algorithm::Sha256,
        DigestAlgorithm::Sha384 => sha2::Algorithm::Sha384,
        DigestAlgorithm::Sha512 => sha2::Algorithm::Sha512,
    };
    let sk = p256::PrivateKey::try_from(sk)?;
    let sig = p256::rand::sign(hash, msg, &sk, &mut rand::rngs::SysRng)?;
    let (r, s) = sig.as_bytes();
    let mut out = [0u8; 64];
    out[..32].copy_from_slice(r);
    out[32..].copy_from_slice(s);
    Ok(out)
}

/// Calls `PublicKey::try_from` of `libcrux_ecdsa::p256`: the named point, or an error
/// exactly where there is none.
#[verifier::external_body]
pub(crate) fn ecdsa_p256_parse_public_key(pk: &[u8]) -> (res: Result<[u8; 64], ecdsa::Error>)
    ensures
        match res {
            Ok(point) => ecdsa_p256_public_key(pk@) == Some(point@),
            Err(_) => ecdsa_p256_public_key(pk@) is None,
        },
{
    match p256::PublicKey::try_from(pk) {
        Ok(point) => Ok(point.0),
        Err(e) => Err(e),
    }
}

/// The order of the group of the NIST P-256 curve.
pub open spec fn p256_order() -> int {
    0xFFFFFFFF00000000FFFFFFFFFFFFFFFFBCE6FAADA7179E84F3B9CAC2FC632551int
}

/// The 32-byte big-endian scalar that libcrux reads from `b`: its last 32 bytes, or all
/// of it after leading zeros where it is shorter.
pub open spec fn p256_scalar_bytes(b: Seq<u8>) -> Seq<u8> {
    if b.len() >= 32 {
        b.subrange(b.len() - 32, b.len() as int)
    } else {
        Seq::new((32 - b.len()) as nat, |i: int| 0u8) + b
    }
}

/// Calls `PrivateKey::try_from(&[u8])` of `libcrux_ecdsa::p256`. Its source reads the
/// scalar from the trailing bytes and accepts it exactly where the input is not empty
/// and the scalar lies strictly between zero and the group order.
#[verifier::external_body]
pub(crate) fn p256_private_key(scalar: &[u8]) -> (res: Result<[u8; 32], ecdsa::Error>)
    ensures
        res is Ok <==> (scalar@.len() > 0 && 0 < crate::ecdsa_der::be_value(p256_scalar_bytes(scalar@))
            < p256_order()),
        res matches Ok(k) ==> k@ == p256_scalar_bytes(scalar@),
{
    match p256::PrivateKey::try_from(scalar) {
        Ok(k) => Ok(*AsRef::<[u8; 32]>::as_ref(&k)),
        Err(e) => Err(e),
    }
}

/// Calls `libcrux_ecdsa::p256::verify` on the signature `r || s`: succeeds exactly
/// when the named check accepts.
#[verifier::external_body]
pub(crate) fn ecdsa_p256_verify(digest: DigestAlgorithm, pk: &[u8; 64], msg: &[u8], sig: &[u8; 64]) -> (res: Result<(), ecdsa::Error>)
    ensures
        res is Ok <==> ecdsa_p256_accepts(digest, pk@, msg@, sig@),
{
    let hash = match digest {
        DigestAlgorithm::Sha224 => sha2::Algorithm::Sha224,
        DigestAlgorithm::Sha256 => sha2::Algorithm::Sha256,
        DigestAlgorithm::Sha384 => sha2::Algorithm::Sha384,
        DigestAlgorithm::Sha512 => sha2::Algorithm::Sha512,
    };
    p256::verify(hash, msg, &p256::Signature::from_bytes(*sig), &p256::PublicKey(*pk))
}

/// The error type of libcrux's HKDF extraction.
#[verifier::external_type_specification]
#[verifier::external_body]
pub struct ExHkdfExtractError(hkdf::ExtractError);

/// The error type of libcrux's HKDF expansion.
#[verifier::external_type_specification]
#[verifier::external_body]
pub struct ExHkdfExpandError(hkdf::ExpandError);

/// The SHA-256 digest (FIPS 180-4) of `data`.
pub uninterp spec fn sha256(data: Seq<u8>) -> Seq<u8>;

/// HMAC-SHA-256 (RFC 2104) of `data` under `key`.
pub uninterp spec fn hmac_sha256(key: Seq<u8>, data: Seq<u8>) -> Seq<u8>;

/// HKDF-Extract with SHA-256 (RFC 5869) of `ikm` under `salt`.
pub uninterp spec fn hkdf_sha256_extract(salt: Seq<u8>, ikm: Seq<u8>) -> Seq<u8>;

/// HKDF-Expand with SHA-256 (RFC 5869) of the 32-byte `prk` and `info` to `len` bytes.
pub uninterp spec fn hkdf_sha256_expand(prk: Seq<u8>, info: Seq<u8>, len: nat) -> Seq<u8>;

/// Calls `libcrux_sha2::sha256` (which panics above `u32::MAX` bytes): the named digest.
#[verifier::external_body]
pub(crate) fn sha256_digest(data: &[u8]) -> (digest: [u8; 32])
    requires
        data@.len() <= u32::MAX,
    ensures
        digest@ == sha256(data@),
{
    sha2::sha256(data)
}

/// libcrux's streaming SHA-256 state.
#[verifier::external_type_specification]
#[verifier::external_body]
pub struct ExSha256(sha2::Sha256);

/// The bytes that a streaming SHA-256 state has taken in since it was made.
pub uninterp spec fn sha256_absorbed(state: sha2::Sha256) -> Seq<u8>;

/// The largest number of bytes that a streaming SHA-256 state takes in.
pub open spec fn sha256_stream_limit() -> nat {
    0x1FFF_FFFF_FFFF_FFFF
}

/// Calls `libcrux_sha2::Sha256::new`: a state that has taken in nothing.
#[verifier::external_body]
pub(crate) fn sha256_start() -> (state: sha2::Sha256)
    ensures
        sha256_absorbed(state) == Seq::<u8>::empty(),
{
    sha2::Sha256::new()
}

/// Calls `Digest::update` of `libcrux_sha2::Sha256` (which panics above `u32::MAX`
/// bytes). Its source takes `data` in where the total stays within `2^61 - 1` bytes, and
/// leaves the state as it was otherwise.
#[verifier::external_body]
pub(crate) fn sha256_update(state: &mut sha2::Sha256, data: &[u8])
    requires
        data@.len() <= u32::MAX,
    ensures
        sha256_absorbed(*old(state)).len() + data@.len() <= sha256_stream_limit() ==> sha256_absorbed(*final(state))
            == sha256_absorbed(*old(state)) + data@,
        sha256_absorbed(*old(state)).len() + data@.len() > sha256_stream_limit() ==> sha256_absorbed(*final(state))
            == sha256_absorbed(*old(state)),
{
    sha2::Digest::update(state, data)
}

/// Calls `Clone::clone` of `libcrux_sha2::Sha256`: a copy that has taken in the same bytes.
#[verifier::external_body]
pub(crate) fn sha256_fork(state: &sha2::Sha256) -> (copy: sha2::Sha256)
    ensures
        sha256_absorbed(copy) == sha256_absorbed(*state),
{
    state.clone()
}

/// Calls `Digest::finish` of `libcrux_sha2::Sha256`, which leaves the state as it was:
/// the digest of the bytes taken in.
#[verifier::external_body]
pub(crate) fn sha256_finish(state: &sha2::Sha256) -> (digest: [u8; 32])
    ensures
        digest@ == sha256(sha256_absorbed(*state)),
{
    let mut digest = [0u8; 32];
    sha2::Digest::finish(state, &mut digest);
    digest
}

/// Calls `libcrux_hmac::hmac_sha2_256` (which panics where the key or the data is longer
/// than `u32::MAX` bytes): the named tag.
#[verifier::external_body]
pub(crate) fn hmac_sha256_tag(key: &[u8], data: &[u8]) -> (tag: [u8; 32])
    requires
        key@.len() <= u32::MAX,
        data@.len() <= u32::MAX,
    ensures
        tag@ == hmac_sha256(key@, data@),
{
    let mut tag = [0u8; 32];
    hmac::hmac_sha2_256(&mut tag, key, data);
    tag
}

/// Calls `libcrux_hkdf::extract` with SHA-256: fails exactly where the salt or the input
/// keying material is longer than `u32::MAX` bytes, and otherwise gives the named key.
#[verifier::external_body]
pub(crate) fn hkdf_extract(salt: &[u8], ikm: &[u8]) -> (res: Result<[u8; 32], hkdf::ExtractError>)
    ensures
        res is Ok <==> (salt@.len() <= u32::MAX && ikm@.len() <= u32::MAX),
        res matches Ok(prk) ==> prk@ == hkdf_sha256_extract(salt@, ikm@),
{
    let mut prk = [0u8; 32];
    match hkdf::extract(hkdf::Algorithm::Sha256, &mut prk, salt, ikm) {
        Ok(()) => Ok(prk),
        Err(e) => Err(e),
    }
}

/// Calls `libcrux_hkdf::expand` with SHA-256 on a 32-byte key: fails exactly where more
/// than `255 * 32` bytes are asked for or `info` is longer than `u32::MAX` bytes, and
/// otherwise gives `len` bytes, the named expansion.
#[verifier::external_body]
pub(crate) fn hkdf_expand(prk: &[u8; 32], info: &[u8], len: usize) -> (res: Result<Vec<u8>, hkdf::ExpandError>)
    ensures
        res is Ok <==> (len <= 255 * 32 && info@.len() <= u32::MAX),
        res matches Ok(okm) ==> okm@.len() == len && okm@ == hkdf_sha256_expand(prk@, info@, len as nat),
{
    let mut okm = vec![0u8; len];
    match hkdf::expand(hkdf::Algorithm::Sha256, &mut okm, prk, info) {
        Ok(()) => Ok(okm),
        Err(e) => Err(e),
    }
}

/// The error type of the `pkcs8` crate.
#[verifier::external_type_specification]
#[verifier::external_body]
pub struct ExPkcs8Error(pkcs8::Error);

/// The error type of the `sec1` crate.
#[verifier::external_type_specification]
#[verifier::external_body]
pub struct ExSec1Error(sec1::Error);

/// The fields of a DER-encoded PKCS#8 `PrivateKeyInfo` as the `pkcs8` crate decodes it:
/// the arcs of the algorithm's object identifier; the algorithm parameters where present,
/// as the arcs of an object identifier where they are one; and the private key octets.
pub uninterp spec fn pkcs8_fields(der: Seq<u8>) -> Option<(Seq<u32>, Option<Option<Seq<u32>>>, Seq<u8>)>;

/// The private key octets of a DER-encoded SEC1 `ECPrivateKey`, as the `sec1` crate
/// decodes it.
pub uninterp spec fn sec1_private_key(der: Seq<u8>) -> Option<Seq<u8>>;

/// The view of decoded algorithm parameters.
pub open spec fn parameters_view(p: Option<Option<Vec<u32>>>) -> Option<Option<Seq<u32>>> {
    match p {
        None => None,
        Some(None) => Some(None),
        Some(Some(arcs)) => Some(Some(arcs@)),
    }
}

/// Calls `PrivateKeyInfo::try_from` of the `pkcs8` crate (with any parameters, an octet
/// string key and a bit string public key), reads the algorithm identifier's arcs, and
/// tries `ObjectIdentifier::try_from` on the parameters: the named fields, or an error
/// exactly where there are none.
#[verifier::external_body]
pub(crate) fn pkcs8_decode(der: &[u8]) -> (res: Result<(Vec<u32>, Option<Option<Vec<u32>>>, Vec<u8>), pkcs8::Error>)
    ensures
        match res {
            Ok((algorithm, parameters, key)) => pkcs8_fields(der@) == Some((algorithm@, parameters_view(parameters), key@)),
            Err(_) => pkcs8_fields(der@) is None,
        },
{
    let info = pkcs8::PrivateKeyInfo::<der::Any, der::asn1::OctetString, der::asn1::BitString>::try_from(der)?;
    let algorithm: Vec<u32> = info.algorithm.oid.arcs().collect();
    let parameters = match &info.algorithm.parameters {
        None => None,
        Some(p) => match der::oid::ObjectIdentifier::<39>::try_from(p.to_ref()) {
            Ok(oid) => Some(Some(oid.arcs().collect())),
            Err(_) => Some(None),
        },
    };
    Ok((algorithm, parameters, info.private_key.as_bytes().to_vec()))
}

/// Calls `EcPrivateKey::try_from` of the `sec1` crate: the named key octets, or an error
/// exactly where there are none.
#[verifier::external_body]
pub(crate) fn sec1_decode_private_key(der: &[u8]) -> (res: Result<Vec<u8>, sec1::Error>)
    ensures
        match res {
            Ok(key) => sec1_private_key(der@) == Some(key@),
            Err(_) => sec1_private_key(der@) is None,
        },
{
    match sec1::EcPrivateKey::try_from(der) {
        Ok(key) => Ok(key.private_key.to_vec()),
        Err(e) => Err(e),
    }
}

} // verus!
