//! Hybrid public key encryption (RFC 9180) through hpke-rs with the libcrux backend.
//!
//! A configuration names its mode, KEM, KDF and AEAD; the suite it announces to the TLS
//! stack is computed here from those names. Sealing, opening, key generation and the
//! sender's and recipient's contexts are done by hpke-rs; what this module adds, and
//! proves, is which configuration is handed to it, which error the TLS stack sees when it
//! fails, that a context's sequence number advances with each message and stays where it
//! was on failure, and that what is sealed to a public key opens again under a matching
//! private key.

use vstd::prelude::*;

use libcrux::protocols::hpke as hpke_rs;
use libcrux::protocols::hpke::hpke_types;
use libcrux::protocols::hpke::libcrux::HpkeLibcrux;

use crate::error::{GeneralError, TlsError};

verus! {

/// The error type of hpke-rs.
#[verifier::external_type_specification]
#[verifier::external_body]
pub struct ExHpkeError(hpke_rs::HpkeError);

/// An HPKE mode of hpke-rs.
#[verifier::external_type_specification]
#[verifier::external_body]
pub struct ExHpkeRsMode(hpke_rs::Mode);

/// A KEM identifier of hpke-rs.
#[verifier::external_type_specification]
#[verifier::external_body]
pub struct ExKemAlgorithm(hpke_types::KemAlgorithm);

/// A KDF identifier of hpke-rs.
#[verifier::external_type_specification]
#[verifier::external_body]
pub struct ExKdfAlgorithm(hpke_types::KdfAlgorithm);

/// An AEAD identifier of hpke-rs.
#[verifier::external_type_specification]
#[verifier::external_body]
pub struct ExAeadAlgorithm(hpke_types::AeadAlgorithm);

/// An HPKE mode.
#[derive(Debug, Clone, Copy, PartialEq, Eq, Structural)]
pub enum HpkeMode {
    Base,
    Psk,
    Auth,
    AuthPsk,
}

/// A KEM that a configuration can name.
#[derive(Debug, Clone, Copy, PartialEq, Eq, Structural)]
pub enum HpkeKemAlgorithm {
    DhKemP256,
    DhKemP384,
    DhKemP521,
    DhKem25519,
    DhKem448,
}

/// A KDF that a configuration can name.
#[derive(Debug, Clone, Copy, PartialEq, Eq, Structural)]
pub enum HpkeKdfAlgorithm {
    HkdfSha256,
    HkdfSha384,
    HkdfSha512,
}

/// An AEAD that a configuration can name.
#[derive(Debug, Clone, Copy, PartialEq, Eq, Structural)]
pub enum HpkeAeadAlgorithm {
    Aes128Gcm,
    Aes256Gcm,
    ChaCha20Poly1305,
    HpkeExport,
}

/// The mode as hpke-rs names it: one variant for each of ours.
#[verifier::external_body]
fn hpke_rs_mode(mode: HpkeMode) -> hpke_rs::Mode {
    match mode {
        HpkeMode::Base => hpke_rs::Mode::Base,
        HpkeMode::Psk => hpke_rs::Mode::Psk,
        HpkeMode::Auth => hpke_rs::Mode::Auth,
        HpkeMode::AuthPsk => hpke_rs::Mode::AuthPsk,
    }
}

/// The KEM as hpke-rs names it: one variant for each of ours.
#[verifier::external_body]
fn hpke_rs_kem(kem: HpkeKemAlgorithm) -> hpke_types::KemAlgorithm {
    match kem {
        HpkeKemAlgorithm::DhKemP256 => hpke_types::KemAlgorithm::DhKemP256,
        HpkeKemAlgorithm::DhKemP384 => hpke_types::KemAlgorithm::DhKemP384,
        HpkeKemAlgorithm::DhKemP521 => hpke_types::KemAlgorithm::DhKemP521,
        HpkeKemAlgorithm::DhKem25519 => hpke_types::KemAlgorithm::DhKem25519,
        HpkeKemAlgorithm::DhKem448 => hpke_types::KemAlgorithm::DhKem448,
    }
}

/// The KDF as hpke-rs names it: one variant for each of ours.
#[verifier::external_body]
fn hpke_rs_kdf(kdf: HpkeKdfAlgorithm) -> hpke_types::KdfAlgorithm {
    match kdf {
        HpkeKdfAlgorithm::HkdfSha256 => hpke_types::KdfAlgorithm::HkdfSha256,
        HpkeKdfAlgorithm::HkdfSha384 => hpke_types::KdfAlgorithm::HkdfSha384,
        HpkeKdfAlgorithm::HkdfSha512 => hpke_types::KdfAlgorithm::HkdfSha512,
    }
}

/// The AEAD as hpke-rs names it: one variant for each of ours.
#[verifier::external_body]
fn hpke_rs_aead(aead: HpkeAeadAlgorithm) -> hpke_types::AeadAlgorithm {
    match aead {
        HpkeAeadAlgorithm::Aes128Gcm => hpke_types::AeadAlgorithm::Aes128Gcm,
        HpkeAeadAlgorithm::Aes256Gcm => hpke_types::AeadAlgorithm::Aes256Gcm,
        HpkeAeadAlgorithm::ChaCha20Poly1305 => hpke_types::AeadAlgorithm::ChaCha20Poly1305,
        HpkeAeadAlgorithm::HpkeExport => hpke_types::AeadAlgorithm::HpkeExport,
    }
}

/// The public key that hpke-rs's libcrux backend derives from the private key `sk` of
/// the KEM with code point `kem` (`HpkeCrypto::secret_to_public`), or `None` where `sk`
/// is not a private key of that KEM.
pub uninterp spec fn hpke_public_key(kem: u16, sk: Seq<u8>) -> Option<Seq<u8>>;

/// What hpke-rs's single-shot `open` without PSK or sender key gives, in the mode and
/// suite with the given code points, for the encapsulated secret `enc`, the private key
/// `sk`, `info`, `aad` and the ciphertext `ct`: the plaintext, or `None` where it refuses.
pub uninterp spec fn hpke_opened(
    mode: u8,
    kem: u16,
    kdf: u16,
    aead: u16,
    enc: Seq<u8>,
    sk: Seq<u8>,
    info: Seq<u8>,
    aad: Seq<u8>,
    ct: Seq<u8>,
) -> Option<Seq<u8>>;

/// `enc` and `ct` seal `plaintext` with `info` and `aad` to the public key `pk` under the
/// configuration `c`: every private key whose public key is `pk` opens them to it.
pub open spec fn hpke_seals_to(
    c: LibcruxHpkeConfig,
    pk: Seq<u8>,
    info: Seq<u8>,
    aad: Seq<u8>,
    plaintext: Seq<u8>,
    enc: Seq<u8>,
    ct: Seq<u8>,
) -> bool {
    forall|sk: Seq<u8>|
        #[trigger] hpke_public_key(kem_code(c.kem), sk) == Some(pk) ==> hpke_opened(
            mode_code(c.mode),
            kem_code(c.kem),
            kdf_code(c.kdf),
            aead_code(c.aead),
            enc,
            sk,
            info,
            aad,
            ct,
        ) == Some(plaintext)
}

/// What `hpke_opened` gives under the configuration `c`.
pub open spec fn hpke_opened_by(
    c: LibcruxHpkeConfig,
    enc: Seq<u8>,
    sk: Seq<u8>,
    info: Seq<u8>,
    aad: Seq<u8>,
    ct: Seq<u8>,
) -> Option<Seq<u8>> {
    hpke_opened(mode_code(c.mode), kem_code(c.kem), kdf_code(c.kdf), aead_code(c.aead), enc, sk, info, aad, ct)
}

/// Whether hpke-rs's libcrux backend can read `len` bytes as a public key (or an
/// encapsulated secret) of the KEM `kem`: exactly 32 for X25519; for P-256 a compressed
/// point (33), a raw one (64) or an uncompressed one (65 or more). Of the other KEMs
/// nothing is said.
pub open spec fn hpke_public_key_length_ok(kem: HpkeKemAlgorithm, len: nat) -> bool {
    match kem {
        HpkeKemAlgorithm::DhKem25519 => len == 32,
        HpkeKemAlgorithm::DhKemP256 => len == 33 || len >= 64,
        _ => true,
    }
}

/// Whether hpke-rs's libcrux backend can read `len` bytes as a private key of the KEM
/// `kem`: exactly 32 for X25519 and for P-256. Of the other KEMs nothing is said.
pub open spec fn hpke_private_key_length_ok(kem: HpkeKemAlgorithm, len: nat) -> bool {
    match kem {
        HpkeKemAlgorithm::DhKem25519 | HpkeKemAlgorithm::DhKemP256 => len == 32,
        _ => true,
    }
}

/// The length of the encapsulated secret that the sender makes (RFC 9180's `Nenc`): 32
/// bytes for X25519, 65 for P-256 (an uncompressed point). Of the other KEMs nothing is
/// said.
pub open spec fn hpke_enc_length_ok(kem: HpkeKemAlgorithm, len: nat) -> bool {
    match kem {
        HpkeKemAlgorithm::DhKem25519 => len == 32,
        HpkeKemAlgorithm::DhKemP256 => len == 65,
        _ => true,
    }
}

/// Calls `hpke_rs::Hpke::seal` in the single-shot form without PSK or sender key, on an
/// instance of the configuration made by `hpke_rs::Hpke::try_new` (which seeds a random
/// generator from the operating system and fails where that fails). The encapsulation
/// rests on a fresh ephemeral key, so the result is not named; what is stated is HPKE's
/// correctness as hpke-rs documents it: a private key of `pk_r` opens what was sealed.
/// The ciphertext is the plaintext and a 16-byte tag, as with every AEAD of the backend.
/// A public key of a length that the backend cannot read is refused, whatever the random
/// source does, and the encapsulated secret has the KEM's length.
#[verifier::external_body]
fn hpke_seal(
    config: &LibcruxHpkeConfig,
    pk_r: &[u8],
    info: &[u8],
    aad: &[u8],
    plaintext: &[u8],
) -> (res: Result<(Vec<u8>, Vec<u8>), hpke_rs::HpkeError>)
    ensures
        res matches Ok((enc, ct)) ==> hpke_seals_to(*config, pk_r@, info@, aad@, plaintext@, enc@, ct@),
        res matches Ok((enc, ct)) ==> ct@.len() == plaintext@.len() + 16,
        res matches Ok((enc, ct)) ==> hpke_enc_length_ok(config.kem, enc@.len()),
        !hpke_public_key_length_ok(config.kem, pk_r@.len()) ==> res is Err,
{
    let (mode, kem, kdf, aead) = (hpke_rs_mode(config.mode), hpke_rs_kem(config.kem), hpke_rs_kdf(config.kdf), hpke_rs_aead(config.aead));
    let mut hpke = hpke_rs::Hpke::<HpkeLibcrux>::try_new(mode, kem, kdf, aead)?;
    hpke.seal(&hpke_rs::HpkePublicKey::from(pk_r), info, aad, plaintext, None, None, None)
}

/// Calls `hpke_rs::Hpke::open` in the single-shot form without PSK or sender key, on an
/// instance of the configuration made by `hpke_rs::Hpke::try_new` (which seeds a random
/// generator from the operating system and fails where that fails): where it succeeds,
/// the named plaintext; it fails where there is none, and where `enc` or `sk_r` has a
/// length that the backend cannot read as a key of the KEM.
#[verifier::external_body]
fn hpke_open(
    config: &LibcruxHpkeConfig,
    enc: &[u8],
    sk_r: &[u8],
    info: &[u8],
    aad: &[u8],
    ciphertext: &[u8],
) -> (res: Result<Vec<u8>, hpke_rs::HpkeError>)
    ensures
        res matches Ok(pt) ==> hpke_opened(
            mode_code(config.mode),
            kem_code(config.kem),
            kdf_code(config.kdf),
            aead_code(config.aead),
            enc@,
            sk_r@,
            info@,
            aad@,
            ciphertext@,
        ) == Some(pt@),
        hpke_opened(
            mode_code(config.mode),
            kem_code(config.kem),
            kdf_code(config.kdf),
            aead_code(config.aead),
            enc@,
            sk_r@,
            info@,
            aad@,
            ciphertext@,
        ) is None ==> res is Err,
        !hpke_public_key_length_ok(config.kem, enc@.len()) ==> res is Err,
        !hpke_private_key_length_ok(config.kem, sk_r@.len()) ==> res is Err,
{
    let (mode, kem, kdf, aead) = (hpke_rs_mode(config.mode), hpke_rs_kem(config.kem), hpke_rs_kdf(config.kdf), hpke_rs_aead(config.aead));
    let hpke = hpke_rs::Hpke::<HpkeLibcrux>::try_new(mode, kem, kdf, aead)?;
    hpke.open(enc, &hpke_rs::HpkePrivateKey::from(sk_r), info, aad, ciphertext, None, None, None)
}

/// Calls `hpke_rs::Hpke::generate_key_pair` on an instance of the configuration made by
/// `hpke_rs::Hpke::try_new`; the key is drawn from the instance's random generator. It
/// hands back the private and the public key as bytes; the public key is the one that
/// the backend derives from the private key.
#[verifier::external_body]
fn hpke_generate_key_pair(config: &LibcruxHpkeConfig) -> (res: Result<(Vec<u8>, Vec<u8>), hpke_rs::HpkeError>)
    ensures
        res matches Ok((sk, pk)) ==> hpke_public_key(kem_code(config.kem), sk@) == Some(pk@),
{
    let (mode, kem, kdf, aead) = (hpke_rs_mode(config.mode), hpke_rs_kem(config.kem), hpke_rs_kdf(config.kdf), hpke_rs_aead(config.aead));
    let (sk, pk) = hpke_rs::Hpke::<HpkeLibcrux>::try_new(mode, kem, kdf, aead)?.generate_key_pair()?.into_keys();
    Ok((sk.as_slice().to_vec(), pk.as_slice().to_vec()))
}

/// An hpke-rs encryption context of the libcrux backend (`hpke_rs::Context`), as
/// `setup_sender` and `setup_receiver` make it. hpke-rs keeps its fields private;
/// `hpke_context_state` names what the contracts need of them.
#[derive(Debug)]
#[verifier::external_body]
pub struct HpkeContext {
    context: hpke_rs::Context<HpkeLibcrux>,
}

/// What the context `ctx` holds: the code point of its AEAD, its AEAD key, its base
/// nonce and the sequence number of its next message.
pub uninterp spec fn hpke_context_state(ctx: HpkeContext) -> (u16, Seq<u8>, Seq<u8>, u64);

/// The AEAD key and base nonce of the context that hpke-rs's `setup_receiver`, without
/// PSK or sender key, derives in the mode and suite with the given code points from the
/// encapsulated secret `enc`, the private key `sk` and `info`; `None` where it refuses.
pub uninterp spec fn hpke_receiver_schedule(
    mode: u8,
    kem: u16,
    kdf: u16,
    aead: u16,
    enc: Seq<u8>,
    sk: Seq<u8>,
    info: Seq<u8>,
) -> Option<(Seq<u8>, Seq<u8>)>;

/// The ciphertext that the AEAD step of `Context::seal` makes of `pt` with `aad`, in a
/// context whose AEAD, key, base nonce and sequence number are given; `None` where the
/// AEAD refuses (as it does for the export-only AEAD).
pub uninterp spec fn hpke_context_sealed(
    aead: u16,
    key: Seq<u8>,
    nonce: Seq<u8>,
    seq: u64,
    aad: Seq<u8>,
    pt: Seq<u8>,
) -> Option<Seq<u8>>;

/// The plaintext that the AEAD step of `Context::open` recovers from `ct` with `aad`, in
/// a context whose AEAD, key, base nonce and sequence number are given; `None` where the
/// AEAD refuses.
pub uninterp spec fn hpke_context_opened(
    aead: u16,
    key: Seq<u8>,
    nonce: Seq<u8>,
    seq: u64,
    aad: Seq<u8>,
    ct: Seq<u8>,
) -> Option<Seq<u8>>;

/// A context's state: AEAD code point, key, base nonce and sequence number.
pub type HpkeContextState = (u16, Seq<u8>, Seq<u8>, u64);

/// `hpke_receiver_schedule` under the configuration `c`.
pub open spec fn hpke_receiver_context(c: LibcruxHpkeConfig, enc: Seq<u8>, sk: Seq<u8>, info: Seq<u8>) -> Option<
    (Seq<u8>, Seq<u8>),
> {
    hpke_receiver_schedule(mode_code(c.mode), kem_code(c.kem), kdf_code(c.kdf), aead_code(c.aead), enc, sk, info)
}

/// What the context in state `st` seals of `pt` with `aad`.
pub open spec fn context_sealed(st: HpkeContextState, aad: Seq<u8>, pt: Seq<u8>) -> Option<Seq<u8>> {
    hpke_context_sealed(st.0, st.1, st.2, st.3, aad, pt)
}

/// What the context in state `st` opens of `ct` with `aad`.
pub open spec fn context_opened(st: HpkeContextState, aad: Seq<u8>, ct: Seq<u8>) -> Option<Seq<u8>> {
    hpke_context_opened(st.0, st.1, st.2, st.3, aad, ct)
}

/// `after` is `before` with the sequence number advanced by one.
pub open spec fn context_advanced(before: HpkeContextState, after: HpkeContextState) -> bool {
    &&& before.3 < u64::MAX
    &&& after == (before.0, before.1, before.2, (before.3 + 1) as u64)
}

/// The state `st` belongs to the configuration `c` and seals to the public key `pk`:
/// for every private key of `pk`, the receiver's setup from `enc` and `info` gives its
/// key and base nonce.
pub open spec fn context_seals_to(
    st: HpkeContextState,
    c: LibcruxHpkeConfig,
    pk: Seq<u8>,
    info: Seq<u8>,
    enc: Seq<u8>,
) -> bool {
    &&& st.0 == aead_code(c.aead)
    &&& forall|sk: Seq<u8>|
        #[trigger] hpke_public_key(kem_code(c.kem), sk) == Some(pk) ==> hpke_receiver_context(c, enc, sk, info)
            == Some((st.1, st.2))
}

/// Calls `hpke_rs::Hpke::setup_sender` without PSK or sender key, on an instance of the
/// configuration made by `hpke_rs::Hpke::try_new` (which seeds a random generator from
/// the operating system and fails where that fails). The encapsulation rests on a fresh
/// ephemeral key, so the result is not named; what is stated is the correctness of the
/// KEM as RFC 9180 gives it: every private key of `pk_r` sets up a receiver with the same
/// key and base nonce. The new context stands at sequence number zero, and the
/// encapsulated secret has the KEM's length. A public key of a length that the backend
/// cannot read is refused, whatever the random source does.
#[verifier::external_body]
fn hpke_setup_sender(config: &LibcruxHpkeConfig, pk_r: &[u8], info: &[u8]) -> (res: Result<
    (Vec<u8>, HpkeContext),
    hpke_rs::HpkeError,
>)
    ensures
        res matches Ok((enc, ctx)) ==> hpke_context_state(ctx).3 == 0 && hpke_context_state(ctx).0
            == aead_code(config.aead),
        res matches Ok((enc, ctx)) ==> forall|sk: Seq<u8>|
            #[trigger] hpke_public_key(kem_code(config.kem), sk) == Some(pk_r@) ==> hpke_receiver_schedule(
                mode_code(config.mode),
                kem_code(config.kem),
                kdf_code(config.kdf),
                aead_code(config.aead),
                enc@,
                sk,
                info@,
            ) == Some((hpke_context_state(ctx).1, hpke_context_state(ctx).2)),
        res matches Ok((enc, ctx)) ==> hpke_enc_length_ok(config.kem, enc@.len()),
        !hpke_public_key_length_ok(config.kem, pk_r@.len()) ==> res is Err,
{
    let (mode, kem, kdf, aead) = (hpke_rs_mode(config.mode), hpke_rs_kem(config.kem), hpke_rs_kdf(config.kdf), hpke_rs_aead(config.aead));
    let mut hpke = hpke_rs::Hpke::<HpkeLibcrux>::try_new(mode, kem, kdf, aead)?;
    let (enc, context) = hpke.setup_sender(&hpke_rs::HpkePublicKey::from(pk_r), info, None, None, None)?;
    Ok((enc, HpkeContext { context }))
}

/// Calls `hpke_rs::Hpke::setup_receiver` without PSK or sender key, on an instance of the
/// configuration made by `hpke_rs::Hpke::try_new` (which seeds a random generator from
/// the operating system and fails where that fails): where it succeeds, a context of the
/// configuration's AEAD with the named key and base nonce, at sequence number zero; it
/// fails where there is none, and where `enc` or `sk_r` has a length that the backend
/// cannot read as a key of the KEM.
#[verifier::external_body]
fn hpke_setup_receiver(config: &LibcruxHpkeConfig, enc: &[u8], sk_r: &[u8], info: &[u8]) -> (res: Result<
    HpkeContext,
    hpke_rs::HpkeError,
>)
    ensures
        res matches Ok(ctx) ==> hpke_context_state(ctx).0 == aead_code(config.aead) && hpke_context_state(ctx).3
            == 0,
        res matches Ok(ctx) ==> hpke_receiver_schedule(
            mode_code(config.mode),
            kem_code(config.kem),
            kdf_code(config.kdf),
            aead_code(config.aead),
            enc@,
            sk_r@,
            info@,
        ) == Some((hpke_context_state(ctx).1, hpke_context_state(ctx).2)),
        hpke_receiver_schedule(
            mode_code(config.mode),
            kem_code(config.kem),
            kdf_code(config.kdf),
            aead_code(config.aead),
            enc@,
            sk_r@,
            info@,
        ) is None ==> res is Err,
        !hpke_public_key_length_ok(config.kem, enc@.len()) ==> res is Err,
        !hpke_private_key_length_ok(config.kem, sk_r@.len()) ==> res is Err,
{
    let (mode, kem, kdf, aead) = (hpke_rs_mode(config.mode), hpke_rs_kem(config.kem), hpke_rs_kdf(config.kdf), hpke_rs_aead(config.aead));
    let hpke = hpke_rs::Hpke::<HpkeLibcrux>::try_new(mode, kem, kdf, aead)?;
    let context = hpke.setup_receiver(enc, &hpke_rs::HpkePrivateKey::from(sk_r), info, None, None, None)?;
    Ok(HpkeContext { context })
}

/// Calls `hpke_rs::Context::seal`: the named ciphertext, which is 16 bytes (the tag)
/// longer than the plaintext and which the AEAD opens again with the same key, nonce and
/// `aad`; the sequence number then advances by one. It fails, leaving the context as it
/// was, where the AEAD refuses or the sequence number is at its limit, and only there.
#[verifier::external_body]
fn hpke_context_seal(ctx: &mut HpkeContext, aad: &[u8], pt: &[u8]) -> (res: Result<Vec<u8>, hpke_rs::HpkeError>)
    ensures
        ({
            let (a, k, n, q) = hpke_context_state(*old(ctx));
            &&& res matches Ok(ct) ==> hpke_context_sealed(a, k, n, q, aad@, pt@) == Some(ct@)
            &&& res matches Ok(ct) ==> hpke_context_opened(a, k, n, q, aad@, ct@) == Some(pt@)
            &&& res matches Ok(ct) ==> ct@.len() == pt@.len() + 16
            &&& hpke_context_sealed(a, k, n, q, aad@, pt@) is Some && q < u64::MAX ==> res is Ok
        }),
        res is Ok ==> context_advanced(hpke_context_state(*old(ctx)), hpke_context_state(*final(ctx))),
        res is Err ==> hpke_context_state(*final(ctx)) == hpke_context_state(*old(ctx)),
{
    ctx.context.seal(aad, pt)
}

/// Calls `hpke_rs::Context::open`: the named plaintext, after which the sequence number
/// advances by one. It fails, leaving the context as it was, where the AEAD refuses or
/// the sequence number is at its limit, and only there.
#[verifier::external_body]
fn hpke_context_open(ctx: &mut HpkeContext, aad: &[u8], ct: &[u8]) -> (res: Result<Vec<u8>, hpke_rs::HpkeError>)
    ensures
        ({
            let (a, k, n, q) = hpke_context_state(*old(ctx));
            &&& res matches Ok(pt) ==> hpke_context_opened(a, k, n, q, aad@, ct@) == Some(pt@)
            &&& hpke_context_opened(a, k, n, q, aad@, ct@) is Some && q < u64::MAX ==> res is Ok
        }),
        res is Ok ==> context_advanced(hpke_context_state(*old(ctx)), hpke_context_state(*final(ctx))),
        res is Err ==> hpke_context_state(*final(ctx)) == hpke_context_state(*old(ctx)),
{
    ctx.context.open(aad, ct)
}

/// A sender's context, set up by `LibcruxHpkeConfig::setup_sealer`: it seals messages,
/// one sequence number after another, to the recipient it was set up for.
#[derive(Debug)]
pub struct HpkeSealer {
    pub context: HpkeContext,
}

/// A recipient's context, set up by `LibcruxHpkeConfig::setup_opener`: it opens
/// messages, one sequence number after another.
#[derive(Debug)]
pub struct HpkeOpener {
    pub context: HpkeContext,
}

impl HpkeSealer {
    /// The state of this sealer's context.
    pub open spec fn state(&self) -> HpkeContextState {
        hpke_context_state(self.context)
    }

    /// Encrypts `plaintext` with `aad` at the current sequence number, then advances it.
    /// Any failure is `hpke seal error` and leaves the sealer as it was.
    pub fn seal(&mut self, aad: &[u8], plaintext: &[u8]) -> (res: Result<Vec<u8>, TlsError>)
        ensures
            res matches Err(e) ==> e == TlsError::General(GeneralError::HpkeSeal) && final(self).state()
                == old(self).state(),
            res matches Ok(ct) ==> context_sealed(old(self).state(), aad@, plaintext@) == Some(ct@)
                && context_opened(old(self).state(), aad@, ct@) == Some(plaintext@) && ct@.len()
                == plaintext@.len() + 16 && context_advanced(old(self).state(), final(self).state()),
            context_sealed(old(self).state(), aad@, plaintext@) is Some && old(self).state().3 < u64::MAX
                ==> res is Ok,
    {
        hpke_result(hpke_context_seal(&mut self.context, aad, plaintext), GeneralError::HpkeSeal)
    }
}

impl HpkeOpener {
    /// The state of this opener's context.
    pub open spec fn state(&self) -> HpkeContextState {
        hpke_context_state(self.context)
    }

    /// Decrypts `ciphertext` with `aad` at the current sequence number, then advances it.
    /// Any failure is `hpke open error` and leaves the opener as it was.
    pub fn open(&mut self, aad: &[u8], ciphertext: &[u8]) -> (res: Result<Vec<u8>, TlsError>)
        ensures
            res matches Err(e) ==> e == TlsError::General(GeneralError::HpkeOpen) && final(self).state()
                == old(self).state(),
            res matches Ok(pt) ==> context_opened(old(self).state(), aad@, ciphertext@) == Some(pt@)
                && context_advanced(old(self).state(), final(self).state()),
            context_opened(old(self).state(), aad@, ciphertext@) is Some && old(self).state().3 < u64::MAX
                ==> res is Ok,
    {
        hpke_result(hpke_context_open(&mut self.context, aad, ciphertext), GeneralError::HpkeOpen)
    }
}

/// The IANA code point of an HPKE mode.
pub open spec fn mode_code(mode: HpkeMode) -> u8 {
    match mode {
        HpkeMode::Base => 0x00,
        HpkeMode::Psk => 0x01,
        HpkeMode::Auth => 0x02,
        HpkeMode::AuthPsk => 0x03,
    }
}

/// The IANA code point of a KEM.
pub open spec fn kem_code(kem: HpkeKemAlgorithm) -> u16 {
    match kem {
        HpkeKemAlgorithm::DhKemP256 => 0x0010,
        HpkeKemAlgorithm::DhKemP384 => 0x0011,
        HpkeKemAlgorithm::DhKemP521 => 0x0012,
        HpkeKemAlgorithm::DhKem25519 => 0x0020,
        HpkeKemAlgorithm::DhKem448 => 0x0021,
    }
}

/// The IANA code point of a KDF.
pub open spec fn kdf_code(kdf: HpkeKdfAlgorithm) -> u16 {
    match kdf {
        HpkeKdfAlgorithm::HkdfSha256 => 0x0001,
        HpkeKdfAlgorithm::HkdfSha384 => 0x0002,
        HpkeKdfAlgorithm::HkdfSha512 => 0x0003,
    }
}

/// The IANA code point of an AEAD.
pub open spec fn aead_code(aead: HpkeAeadAlgorithm) -> u16 {
    match aead {
        HpkeAeadAlgorithm::Aes128Gcm => 0x0001,
        HpkeAeadAlgorithm::Aes256Gcm => 0x0002,
        HpkeAeadAlgorithm::ChaCha20Poly1305 => 0x0003,
        HpkeAeadAlgorithm::HpkeExport => 0xFFFF,
    }
}

/// An HPKE suite as the TLS stack names it: the code points of its KEM, KDF and AEAD.
#[derive(Debug, Clone, Copy, PartialEq, Eq, Structural)]
pub struct HpkeSuite {
    pub kem: u16,
    pub kdf_id: u16,
    pub aead_id: u16,
}

/// An HPKE configuration: mode, KEM, KDF and AEAD.
#[derive(Debug, Clone, Copy, PartialEq, Eq, Structural)]
pub struct LibcruxHpkeConfig {
    pub mode: HpkeMode,
    pub kem: HpkeKemAlgorithm,
    pub kdf: HpkeKdfAlgorithm,
    pub aead: HpkeAeadAlgorithm,
}

/// The base-mode configuration with the given KEM and AEAD and HKDF-SHA256.
pub open spec fn base_config(kem: HpkeKemAlgorithm, aead: HpkeAeadAlgorithm) -> LibcruxHpkeConfig {
    LibcruxHpkeConfig { mode: HpkeMode::Base, kem, kdf: HpkeKdfAlgorithm::HkdfSha256, aead }
}

/// The configurations that the provider offers, in order: DHKEM(P-256) then
/// DHKEM(X25519), each with AES-128-GCM, AES-256-GCM and ChaCha20-Poly1305.
pub open spec fn supported_suites() -> Seq<LibcruxHpkeConfig> {
    seq![
        base_config(HpkeKemAlgorithm::DhKemP256, HpkeAeadAlgorithm::Aes128Gcm),
        base_config(HpkeKemAlgorithm::DhKemP256, HpkeAeadAlgorithm::Aes256Gcm),
        base_config(HpkeKemAlgorithm::DhKemP256, HpkeAeadAlgorithm::ChaCha20Poly1305),
        base_config(HpkeKemAlgorithm::DhKem25519, HpkeAeadAlgorithm::Aes128Gcm),
        base_config(HpkeKemAlgorithm::DhKem25519, HpkeAeadAlgorithm::Aes256Gcm),
        base_config(HpkeKemAlgorithm::DhKem25519, HpkeAeadAlgorithm::ChaCha20Poly1305),
    ]
}

/// DHKEM(P-256, HKDF-SHA256), HKDF-SHA256, AES-128-GCM.
pub fn dhkem_p256_hkdf_sha256_aes_128() -> (c: LibcruxHpkeConfig)
    ensures
        c == base_config(HpkeKemAlgorithm::DhKemP256, HpkeAeadAlgorithm::Aes128Gcm),
{
    LibcruxHpkeConfig {
        mode: HpkeMode::Base,
        kem: HpkeKemAlgorithm::DhKemP256,
        kdf: HpkeKdfAlgorithm::HkdfSha256,
        aead: HpkeAeadAlgorithm::Aes128Gcm,
    }
}

/// DHKEM(P-256, HKDF-SHA256), HKDF-SHA256, AES-256-GCM.
pub fn dhkem_p256_hkdf_sha256_aes_256() -> (c: LibcruxHpkeConfig)
    ensures
        c == base_config(HpkeKemAlgorithm::DhKemP256, HpkeAeadAlgorithm::Aes256Gcm),
{
    LibcruxHpkeConfig {
        mode: HpkeMode::Base,
        kem: HpkeKemAlgorithm::DhKemP256,
        kdf: HpkeKdfAlgorithm::HkdfSha256,
        aead: HpkeAeadAlgorithm::Aes256Gcm,
    }
}

/// DHKEM(P-256, HKDF-SHA256), HKDF-SHA256, ChaCha20-Poly1305.
pub fn dhkem_p256_hkdf_sha256_chacha20_poly1305() -> (c: LibcruxHpkeConfig)
    ensures
        c == base_config(HpkeKemAlgorithm::DhKemP256, HpkeAeadAlgorithm::ChaCha20Poly1305),
{
    LibcruxHpkeConfig {
        mode: HpkeMode::Base,
        kem: HpkeKemAlgorithm::DhKemP256,
        kdf: HpkeKdfAlgorithm::HkdfSha256,
        aead: HpkeAeadAlgorithm::ChaCha20Poly1305,
    }
}

/// DHKEM(X25519, HKDF-SHA256), HKDF-SHA256, AES-128-GCM.
pub fn dhkem_x25519_hkdf_sha256_aes_128() -> (c: LibcruxHpkeConfig)
    ensures
        c == base_config(HpkeKemAlgorithm::DhKem25519, HpkeAeadAlgorithm::Aes128Gcm),
{
    LibcruxHpkeConfig {
        mode: HpkeMode::Base,
        kem: HpkeKemAlgorithm::DhKem25519,
        kdf: HpkeKdfAlgorithm::HkdfSha256,
        aead: HpkeAeadAlgorithm::Aes128Gcm,
    }
}

/// DHKEM(X25519, HKDF-SHA256), HKDF-SHA256, AES-256-GCM.
pub fn dhkem_x25519_hkdf_sha256_aes_256() -> (c: LibcruxHpkeConfig)
    ensures
        c == base_config(HpkeKemAlgorithm::DhKem25519, HpkeAeadAlgorithm::Aes256Gcm),
{
    LibcruxHpkeConfig {
        mode: HpkeMode::Base,
        kem: HpkeKemAlgorithm::DhKem25519,
        kdf: HpkeKdfAlgorithm::HkdfSha256,
        aead: HpkeAeadAlgorithm::Aes256Gcm,
    }
}

/// DHKEM(X25519, HKDF-SHA256), HKDF-SHA256, ChaCha20-Poly1305.
pub fn dhkem_x25519_hkdf_sha256_chacha20_poly1305() -> (c: LibcruxHpkeConfig)
    ensures
        c == base_config(HpkeKemAlgorithm::DhKem25519, HpkeAeadAlgorithm::ChaCha20Poly1305),
{
    LibcruxHpkeConfig {
        mode: HpkeMode::Base,
        kem: HpkeKemAlgorithm::DhKem25519,
        kdf: HpkeKdfAlgorithm::HkdfSha256,
        aead: HpkeAeadAlgorithm::ChaCha20Poly1305,
    }
}

/// All the configurations that the provider offers.
pub fn all_supported_suites() -> (suites: Vec<LibcruxHpkeConfig>)
    ensures
        suites@ == supported_suites(),
{
    let suites = vec![
        dhkem_p256_hkdf_sha256_aes_128(),
        dhkem_p256_hkdf_sha256_aes_256(),
        dhkem_p256_hkdf_sha256_chacha20_poly1305(),
        dhkem_x25519_hkdf_sha256_aes_128(),
        dhkem_x25519_hkdf_sha256_aes_256(),
        dhkem_x25519_hkdf_sha256_chacha20_poly1305(),
    ];
    assert(suites@ =~= supported_suites());
    suites
}

/// The error that the TLS stack sees for a failed outside call: `err` for any failure.
pub open spec fn hpke_outcome<T>(r: Result<T, hpke_rs::HpkeError>, err: GeneralError) -> Result<T, TlsError> {
    match r {
        Ok(v) => Ok(v),
        Err(_) => Err(TlsError::General(err)),
    }
}

/// Hands on what an hpke-rs call gave back, with any failure reported as `err`.
pub fn hpke_result<T>(r: Result<T, hpke_rs::HpkeError>, err: GeneralError) -> (res: Result<T, TlsError>)
    ensures
        res == hpke_outcome(r, err),
{
    match r {
        Ok(v) => Ok(v),
        Err(_) => Err(TlsError::General(err)),
    }
}

impl LibcruxHpkeConfig {
    /// The suite that this configuration announces.
    pub fn suite(&self) -> (s: HpkeSuite)
        ensures
            s.kem == kem_code(self.kem),
            s.kdf_id == kdf_code(self.kdf),
            s.aead_id == aead_code(self.aead),
    {
        let kem: u16 = match self.kem {
            HpkeKemAlgorithm::DhKemP256 => 0x0010,
            HpkeKemAlgorithm::DhKemP384 => 0x0011,
            HpkeKemAlgorithm::DhKemP521 => 0x0012,
            HpkeKemAlgorithm::DhKem25519 => 0x0020,
            HpkeKemAlgorithm::DhKem448 => 0x0021,
        };
        let kdf_id: u16 = match self.kdf {
            HpkeKdfAlgorithm::HkdfSha256 => 0x0001,
            HpkeKdfAlgorithm::HkdfSha384 => 0x0002,
            HpkeKdfAlgorithm::HkdfSha512 => 0x0003,
        };
        let aead_id: u16 = match self.aead {
            HpkeAeadAlgorithm::Aes128Gcm => 0x0001,
            HpkeAeadAlgorithm::Aes256Gcm => 0x0002,
            HpkeAeadAlgorithm::ChaCha20Poly1305 => 0x0003,
            HpkeAeadAlgorithm::HpkeExport => 0xFFFF,
        };
        HpkeSuite { kem, kdf_id, aead_id }
    }

    /// Whether this configuration is FIPS-approved: none is.
    pub fn fips(&self) -> (approved: bool)
        ensures
            !approved,
    {
        false
    }

    /// Encrypts `plaintext` with `aad` to the public key `pub_key`, in one shot: the
    /// encapsulated secret and the ciphertext. Any failure is `hpke seal error`.
    pub fn seal(&self, info: &[u8], aad: &[u8], plaintext: &[u8], pub_key: &[u8]) -> (res: Result<(Vec<u8>, Vec<u8>), TlsError>)
        ensures
            res matches Err(e) ==> e == TlsError::General(GeneralError::HpkeSeal),
            res matches Ok((enc, ct)) ==> hpke_seals_to(*self, pub_key@, info@, aad@, plaintext@, enc@, ct@),
            res matches Ok((enc, ct)) ==> ct@.len() == plaintext@.len() + 16,
            res matches Ok((enc, ct)) ==> hpke_enc_length_ok(self.kem, enc@.len()),
            !hpke_public_key_length_ok(self.kem, pub_key@.len()) ==> res is Err,
    {
        hpke_result(hpke_seal(self, pub_key, info, aad, plaintext), GeneralError::HpkeSeal)
    }

    /// Decrypts `ciphertext` with `aad` under the encapsulated secret `enc` and the private
    /// key `secret_key`, in one shot. Any failure is `hpke open error`.
    pub fn open(&self, enc: &[u8], info: &[u8], aad: &[u8], ciphertext: &[u8], secret_key: &[u8]) -> (res: Result<Vec<u8>, TlsError>)
        ensures
            res matches Err(e) ==> e == TlsError::General(GeneralError::HpkeOpen),
            res matches Ok(pt) ==> hpke_opened_by(*self, enc@, secret_key@, info@, aad@, ciphertext@) == Some(pt@),
            hpke_opened_by(*self, enc@, secret_key@, info@, aad@, ciphertext@) is None ==> res is Err,
            !hpke_public_key_length_ok(self.kem, enc@.len()) ==> res is Err,
            !hpke_private_key_length_ok(self.kem, secret_key@.len()) ==> res is Err,
    {
        hpke_result(hpke_open(self, enc, secret_key, info, aad, ciphertext), GeneralError::HpkeOpen)
    }

    /// Sets up a sender's context for the public key `pub_key` and `info`: the
    /// encapsulated secret and a sealer at sequence number zero whose key and base nonce
    /// every private key of `pub_key` recovers from them. Any failure is
    /// `hpke setup sealer error`; a public key of a length that the KEM cannot read is
    /// refused.
    pub fn setup_sealer(&self, info: &[u8], pub_key: &[u8]) -> (res: Result<(Vec<u8>, HpkeSealer), TlsError>)
        ensures
            res matches Err(e) ==> e == TlsError::General(GeneralError::HpkeSetupSealer),
            res matches Ok((enc, sealer)) ==> sealer.state().3 == 0 && context_seals_to(
                sealer.state(),
                *self,
                pub_key@,
                info@,
                enc@,
            ),
            res matches Ok((enc, sealer)) ==> hpke_enc_length_ok(self.kem, enc@.len()),
            !hpke_public_key_length_ok(self.kem, pub_key@.len()) ==> res is Err,
    {
        let (enc, context) = hpke_result(hpke_setup_sender(self, pub_key, info), GeneralError::HpkeSetupSealer)?;
        Ok((enc, HpkeSealer { context }))
    }

    /// Sets up a recipient's context from the encapsulated secret `enc`, `info` and the
    /// private key `secret_key`: an opener at sequence number zero with the key and base
    /// nonce that the receiver's setup derives. Any failure is `hpke setup opener error`;
    /// it fails where the setup refuses, and where `enc` or `secret_key` has a length that
    /// the KEM cannot read.
    pub fn setup_opener(&self, enc: &[u8], info: &[u8], secret_key: &[u8]) -> (res: Result<HpkeOpener, TlsError>)
        ensures
            res matches Err(e) ==> e == TlsError::General(GeneralError::HpkeSetupOpener),
            res matches Ok(opener) ==> opener.state().0 == aead_code(self.aead) && opener.state().3 == 0
                && hpke_receiver_context(*self, enc@, secret_key@, info@) == Some(
                (opener.state().1, opener.state().2),
            ),
            hpke_receiver_context(*self, enc@, secret_key@, info@) is None ==> res is Err,
            !hpke_public_key_length_ok(self.kem, enc@.len()) ==> res is Err,
            !hpke_private_key_length_ok(self.kem, secret_key@.len()) ==> res is Err,
    {
        let context = hpke_result(hpke_setup_receiver(self, enc, secret_key, info), GeneralError::HpkeSetupOpener)?;
        Ok(HpkeOpener { context })
    }

    /// A fresh key pair of this configuration's KEM: the public key, then the private
    /// key. Any failure is `hpke kem keygen error`.
    pub fn generate_key_pair(&self) -> (res: Result<(Vec<u8>, Vec<u8>), TlsError>)
        ensures
            res matches Err(e) ==> e == TlsError::General(GeneralError::HpkeKemKeygen),
            res matches Ok((pk, sk)) ==> hpke_public_key(kem_code(self.kem), sk@) == Some(pk@),
    {
        let (sk, pk) = hpke_result(hpke_generate_key_pair(self), GeneralError::HpkeKemKeygen)?;
        Ok((pk, sk))
    }
}

/// What a configuration seals to the public key of a key pair it generated, the private
/// key of that pair opens to the plaintext: with the same configuration, `info` and `aad`,
/// `open` gives back what `seal` was given, wherever it succeeds.
pub proof fn lemma_open_of_seal(
    c: LibcruxHpkeConfig,
    pk: Seq<u8>,
    sk: Seq<u8>,
    info: Seq<u8>,
    aad: Seq<u8>,
    plaintext: Seq<u8>,
    enc: Seq<u8>,
    ct: Seq<u8>,
)
    requires
        hpke_public_key(kem_code(c.kem), sk) == Some(pk),
        hpke_seals_to(c, pk, info, aad, plaintext, enc, ct),
    ensures
        hpke_opened_by(c, enc, sk, info, aad, ct) == Some(plaintext),
{
}

/// What a sealer seals, an opener opens: where the sealer was set up for the public key
/// `pk` with `enc` and `info` under the configuration `c`, and the opener with a private
/// key `sk` of `pk` and the same `enc` and `info`, a ciphertext that the sealer made at
/// the sequence number where the opener stands opens to the plaintext it was made of.
pub proof fn lemma_opener_opens_sealed(
    c: LibcruxHpkeConfig,
    pk: Seq<u8>,
    sk: Seq<u8>,
    info: Seq<u8>,
    enc: Seq<u8>,
    sealer: HpkeContextState,
    opener: HpkeContextState,
    aad: Seq<u8>,
    plaintext: Seq<u8>,
    ct: Seq<u8>,
)
    requires
        context_seals_to(sealer, c, pk, info, enc),
        hpke_public_key(kem_code(c.kem), sk) == Some(pk),
        opener.0 == aead_code(c.aead),
        hpke_receiver_context(c, enc, sk, info) == Some((opener.1, opener.2)),
        opener.3 == sealer.3,
        context_opened(sealer, aad, ct) == Some(plaintext),
    ensures
        context_opened(opener, aad, ct) == Some(plaintext),
{
}

} // verus!
