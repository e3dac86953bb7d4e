//! Record protection with ChaCha20-Poly1305 for TLS 1.3 and TLS 1.2.
//!
//! Messages are modelled by their content type (a byte), their protocol version
//! (two bytes as a `u16`) and their payload.
//!
//! The ciphers hold the key bytes themselves. The provider's TLS 1.3 suite keeps its
//! keys in libcrux's key agent and refers to them by identifier; the agent is not part of
//! the libcrux crate used here, so its record protection is stated, and done, over the
//! plain key that the identifier stands for.
//!
//! TLS 1.2 is written down as the provider does it, though it reads like an oversight:
//! encryption sends the ciphertext without its tag, and decryption subtracts the tag's
//! length twice when it states the record's length in the additional data. No test or
//! document says otherwise, so the contracts follow that code.

use vstd::prelude::*;

use crate::backend::{
    chacha20poly1305_decrypt, chacha20poly1305_encrypt, chacha20poly1305_open,
    chacha20poly1305_seal,
};
use crate::ecdsa_der::be_value;
use crate::error::{TlsError, PeerMisbehaved};

use rustls::crypto::cipher::InboundOpaqueMessage;
use rustls::PeerMisbehaved as RustlsMisbehaved;
use rustls::{ContentType, ProtocolVersion};

verus! {

/// Length of the Poly1305 tag that each protected record carries.
pub const CHACHAPOLY1305_OVERHEAD: usize = 16;

/// Length of TLS nonces.
pub const NONCE_LEN: usize = 12;

/// The largest plaintext fragment a record may carry.
pub const MAX_FRAGMENT_LEN: usize = 16384;

/// Content type `change_cipher_spec`.
pub const CONTENT_CHANGE_CIPHER_SPEC: u8 = 0x14;

/// Content type `application_data`.
pub const CONTENT_APPLICATION_DATA: u8 = 0x17;

/// Protocol version TLS 1.2.
pub const TLS12_VERSION: u16 = 0x0303;

/// Protocol version TLS 1.3.
pub const TLS13_VERSION: u16 = 0x0304;

/// A record before encryption or after decryption.
#[derive(Debug)]
pub struct PlainMessage {
    pub typ: u8,
    pub version: u16,
    pub payload: Vec<u8>,
}

/// A record as it travels on the wire, encrypted.
#[derive(Debug)]
pub struct OpaqueMessage {
    pub typ: u8,
    pub version: u16,
    pub payload: Vec<u8>,
}

impl View for PlainMessage {
    type V = (u8, u16, Seq<u8>);

    open spec fn view(&self) -> (u8, u16, Seq<u8>) {
        (self.typ, self.version, self.payload@)
    }
}

impl View for OpaqueMessage {
    type V = (u8, u16, Seq<u8>);

    open spec fn view(&self) -> (u8, u16, Seq<u8>) {
        (self.typ, self.version, self.payload@)
    }
}

/// A record-protection key.
#[derive(Debug)]
pub enum LibcruxAeadKey {
    Chacha20Poly1305([u8; 32]),
}

/// The bytes of a record-protection key.
pub open spec fn aead_key_bytes(key: LibcruxAeadKey) -> Seq<u8> {
    match key {
        LibcruxAeadKey::Chacha20Poly1305(k) => k@,
    }
}

/// The layout of the key block that TLS 1.2 derives for this cipher.
#[derive(Debug, Clone, Copy, PartialEq, Eq, Structural)]
pub struct KeyBlockShape {
    pub enc_key_len: usize,
    pub fixed_iv_len: usize,
    pub explicit_nonce_len: usize,
}

/// The traffic secrets of a connection that uses ChaCha20-Poly1305.
#[derive(Debug)]
pub struct ConnectionTrafficSecrets {
    pub key: Vec<u8>,
    pub iv: [u8; 12],
}

/// The ChaCha20-Poly1305 record protection algorithm.
#[derive(Debug)]
pub struct Chacha20Poly1305;

/// TLS 1.3 record protection state: the key and the static IV.
#[derive(Debug)]
pub struct Tls13Cipher(pub LibcruxAeadKey, pub [u8; 12]);

/// TLS 1.2 record protection state: the key and the fixed IV.
#[derive(Debug)]
pub struct Tls12Cipher(pub LibcruxAeadKey, pub [u8; 12]);

/// `x` as eight big-endian bytes.
pub open spec fn be_u64(x: u64) -> Seq<u8> {
    seq![
        (x >> 56u64) as u8,
        (x >> 48u64) as u8,
        (x >> 40u64) as u8,
        (x >> 32u64) as u8,
        (x >> 24u64) as u8,
        (x >> 16u64) as u8,
        (x >> 8u64) as u8,
        x as u8,
    ]
}

/// `x` as two big-endian bytes.
pub open spec fn be_u16(x: u16) -> Seq<u8> {
    seq![(x >> 8u16) as u8, x as u8]
}

/// The per-record nonce: the IV xor the sequence number as a 96-bit big-endian integer.
pub open spec fn record_nonce(iv: Seq<u8>, seq: u64) -> Seq<u8> {
    let padded = seq![0u8, 0u8, 0u8, 0u8] + be_u64(seq);
    Seq::new(12, |i: int| padded[i] ^ iv[i])
}

/// The TLS 1.3 additional data for a record whose encrypted payload is `len` bytes long.
pub open spec fn tls13_aad(len: usize) -> Seq<u8> {
    seq![CONTENT_APPLICATION_DATA, 0x03u8, 0x03u8, (len >> 8usize) as u8, (len & 0xffusize) as u8]
}

/// The TLS 1.2 additional data: sequence number, type, version and length.
pub open spec fn tls12_aad(seq: u64, typ: u8, version: u16, len: usize) -> Seq<u8> {
    be_u64(seq) + seq![typ] + be_u16(version) + be_u16(len as u16)
}

/// `p` with its trailing zero bytes removed.
pub open spec fn strip_trailing_zeros(p: Seq<u8>) -> Seq<u8>
    decreases p.len(),
{
    if p.len() == 0 {
        p
    } else if p.last() == 0 {
        strip_trailing_zeros(p.drop_last())
    } else {
        p
    }
}

/// Removing the padding of a decrypted TLS 1.3 record: the last non-zero byte is the
/// real content type; the record is refused when it is too long, holds only padding,
/// or claims to be a `change_cipher_spec`.
pub open spec fn tls13_unpad(p: Seq<u8>) -> Result<(u8, u16, Seq<u8>), TlsError> {
    let s = strip_trailing_zeros(p);
    if p.len() > MAX_FRAGMENT_LEN + 1 {
        Err(TlsError::PeerSentOversizedRecord)
    } else if s.len() == 0 {
        Err(TlsError::PeerMisbehaved(PeerMisbehaved::IllegalTlsInnerPlaintext))
    } else if s.last() == CONTENT_CHANGE_CIPHER_SPEC {
        Err(TlsError::PeerMisbehaved(PeerMisbehaved::IllegalMiddleboxChangeCipherSpec))
    } else if s.len() - 1 > MAX_FRAGMENT_LEN {
        Err(TlsError::PeerSentOversizedRecord)
    } else {
        Ok((s.last(), TLS13_VERSION, s.drop_last()))
    }
}

/// The encrypted payload of a TLS 1.3 record: the payload followed by the content type,
/// encrypted, then the tag. `None` where the cipher refuses the input's length.
pub open spec fn tls13_seal(key: Seq<u8>, iv: Seq<u8>, seq: u64, typ: u8, payload: Seq<u8>) -> Option<
    Seq<u8>,
> {
    let inner = payload.push(typ);
    if inner.len() > u32::MAX {
        None
    } else {
        Some(
            chacha20poly1305_seal(
                key,
                record_nonce(iv, seq),
                tls13_aad((payload.len() + 1 + CHACHAPOLY1305_OVERHEAD) as usize),
                inner,
            ),
        )
    }
}

/// Decryption of the payload of a TLS 1.3 record, then removal of its padding.
pub open spec fn tls13_open(key: Seq<u8>, iv: Seq<u8>, seq: u64, payload: Seq<u8>) -> Result<
    (u8, u16, Seq<u8>),
    TlsError,
> {
    let len = payload.len();
    if len < CHACHAPOLY1305_OVERHEAD {
        Err(TlsError::DecryptError)
    } else {
        match chacha20poly1305_open(
            key,
            record_nonce(iv, seq),
            tls13_aad(len as usize),
            payload.subrange(0, len - 16),
            payload.subrange(len - 16, len as int),
        ) {
            None => Err(TlsError::DecryptError),
            Some(pt) => tls13_unpad(pt),
        }
    }
}

/// The encrypted payload of a TLS 1.2 record: the ciphertext of the payload alone,
/// without its tag (the provider drops the tag). `None` where the cipher refuses the
/// input's length.
pub open spec fn tls12_seal(
    key: Seq<u8>,
    iv: Seq<u8>,
    seq: u64,
    typ: u8,
    version: u16,
    payload: Seq<u8>,
) -> Option<Seq<u8>> {
    if payload.len() > u32::MAX {
        None
    } else {
        let sealed = chacha20poly1305_seal(
            key,
            record_nonce(iv, seq),
            tls12_aad(seq, typ, version, payload.len() as usize),
            payload,
        );
        Some(sealed.subrange(0, payload.len() as int))
    }
}

/// Decryption of the payload of a TLS 1.2 record (`payload.len() >= 32`): the last
/// sixteen bytes are the tag, and the additional data states a length sixteen bytes
/// shorter than the ciphertext (32 bytes shorter than the record's payload: the provider
/// subtracts the tag's length twice).
pub open spec fn tls12_open(
    key: Seq<u8>,
    iv: Seq<u8>,
    seq: u64,
    typ: u8,
    version: u16,
    payload: Seq<u8>,
) -> Result<(u8, u16, Seq<u8>), TlsError> {
    let len = payload.len();
    match chacha20poly1305_open(
        key,
        record_nonce(iv, seq),
        tls12_aad(seq, typ, version, (len - 32) as usize),
        payload.subrange(0, len - 16),
        payload.subrange(len - 16, len as int),
    ) {
        None => Err(TlsError::DecryptError),
        Some(pt) => Ok((typ, version, pt)),
    }
}

/// The view of a decryption result.
pub open spec fn plain_result_view(r: Result<PlainMessage, TlsError>) -> Result<(u8, u16, Seq<u8>), TlsError> {
    match r {
        Ok(m) => Ok(m@),
        Err(e) => Err(e),
    }
}

/// The view of an encryption result, given what the encrypted payload should be.
pub open spec fn opaque_result_is(
    r: Result<OpaqueMessage, TlsError>,
    typ: u8,
    version: u16,
    payload: Option<Seq<u8>>,
) -> bool {
    match payload {
        Some(p) => r matches Ok(m) && m@ == (typ, version, p),
        None => r == Err::<OpaqueMessage, TlsError>(TlsError::EncryptError),
    }
}

/// Combines the IV and the sequence number into the nonce of one record.
pub fn make_nonce(iv: &[u8; 12], seq: u64) -> (nonce: [u8; 12])
    ensures
        nonce@ == record_nonce(iv@, seq),
{
    let mut padded = [0u8; 12];
    padded[4] = (seq >> 56u64) as u8;
    padded[5] = (seq >> 48u64) as u8;
    padded[6] = (seq >> 40u64) as u8;
    padded[7] = (seq >> 32u64) as u8;
    padded[8] = (seq >> 24u64) as u8;
    padded[9] = (seq >> 16u64) as u8;
    padded[10] = (seq >> 8u64) as u8;
    padded[11] = seq as u8;
    assert(padded@ =~= seq![0u8, 0u8, 0u8, 0u8] + be_u64(seq));
    let ghost padded_spec = padded@;
    let mut nonce = [0u8; 12];
    let mut i: usize = 0;
    while i < 12
        invariant
            i <= 12,
            padded@ == padded_spec,
            forall|j: int| 0 <= j < i ==> nonce@[j] == padded_spec[j] ^ iv@[j],
        decreases 12 - i,
    {
        nonce[i] = padded[i] ^ iv[i];
        i = i + 1;
    }
    assert(nonce@ =~= record_nonce(iv@, seq));
    nonce
}

/// The TLS 1.3 additional data for an encrypted payload of `len` bytes.
pub fn make_tls13_aad(len: usize) -> (aad: [u8; 5])
    ensures
        aad@ == tls13_aad(len),
{
    let aad = [CONTENT_APPLICATION_DATA, 0x03u8, 0x03u8, (len >> 8usize) as u8, (len & 0xffusize) as u8];
    assert(aad@ =~= tls13_aad(len));
    aad
}

/// The TLS 1.2 additional data for a record.
pub fn make_tls12_aad(seq: u64, typ: u8, version: u16, len: usize) -> (aad: [u8; 13])
    ensures
        aad@ == tls12_aad(seq, typ, version, len),
{
    let short_len = len as u16;
    let aad = [
        (seq >> 56u64) as u8,
        (seq >> 48u64) as u8,
        (seq >> 40u64) as u8,
        (seq >> 32u64) as u8,
        (seq >> 24u64) as u8,
        (seq >> 16u64) as u8,
        (seq >> 8u64) as u8,
        seq as u8,
        typ,
        (version >> 8u16) as u8,
        version as u8,
        (short_len >> 8u16) as u8,
        short_len as u8,
    ];
    assert(aad@ =~= tls12_aad(seq, typ, version, len));
    aad
}

proof fn lemma_strip_is_prefix(p: Seq<u8>)
    ensures
        strip_trailing_zeros(p).len() <= p.len(),
        strip_trailing_zeros(p) == p.subrange(0, strip_trailing_zeros(p).len() as int),
    decreases p.len(),
{
    if p.len() == 0 {
        assert(p.subrange(0, 0) =~= p);
    } else if p.last() == 0 {
        lemma_strip_is_prefix(p.drop_last());
        let s = strip_trailing_zeros(p.drop_last());
        assert(p.drop_last().subrange(0, s.len() as int) =~= p.subrange(0, s.len() as int));
    } else {
        assert(p.subrange(0, p.len() as int) =~= p);
    }
}

/// Calls rustls's `InboundOpaqueMessage::into_tls13_unpadded_message` on `payload`: the
/// content type and the length of the payload that it keeps, or its error. Its source
/// drops the trailing zero bytes and then the content type byte without writing to
/// `payload`, and refuses exactly as `tls13_unpad` says; no other error can come.
#[verifier::external_body]
fn rustls_tls13_unpadded(payload: &mut [u8]) -> (res: Result<(u8, usize), TlsError>)
    ensures
        final(payload)@ == old(payload)@,
        match tls13_unpad(old(payload)@) {
            Ok((typ, _, kept)) => res == Ok::<(u8, usize), TlsError>((typ, kept.len() as usize)),
            Err(e) => res == Err::<(u8, usize), TlsError>(e),
        },
{
    let msg = InboundOpaqueMessage::new(ContentType::ApplicationData, ProtocolVersion::TLSv1_3, payload);
    match msg.into_tls13_unpadded_message() {
        Ok(plain) => Ok((u8::from(plain.typ), plain.payload.len())),
        Err(rustls::Error::PeerSentOversizedRecord) => Err(TlsError::PeerSentOversizedRecord),
        Err(rustls::Error::PeerMisbehaved(RustlsMisbehaved::IllegalTlsInnerPlaintext)) => {
            Err(TlsError::PeerMisbehaved(PeerMisbehaved::IllegalTlsInnerPlaintext))
        },
        Err(rustls::Error::PeerMisbehaved(RustlsMisbehaved::IllegalMiddleboxChangeCipherSpec)) => {
            Err(TlsError::PeerMisbehaved(PeerMisbehaved::IllegalMiddleboxChangeCipherSpec))
        },
        Err(_) => Err(TlsError::DecryptError),
    }
}

/// Removes the padding of a decrypted TLS 1.3 record and recovers its content type.
pub fn unpad_tls13(payload: Vec<u8>) -> (res: Result<PlainMessage, TlsError>)
    ensures
        plain_result_view(res) == tls13_unpad(payload@),
{
    let mut payload = payload;
    let ghost original = payload@;
    let unpadded = rustls_tls13_unpadded(payload.as_mut_slice());
    match unpadded {
        Ok((typ, len)) => {
            proof {
                lemma_strip_is_prefix(original);
            }
            payload.truncate(len);
            assert(payload@ =~= strip_trailing_zeros(original).drop_last());
            Ok(PlainMessage { typ, version: TLS13_VERSION, payload })
        },
        Err(e) => Err(e),
    }
}

impl Chacha20Poly1305 {
    /// Length of the key, in bytes.
    pub fn key_len(&self) -> (n: usize)
        ensures
            n == 32,
    {
        32
    }

    /// Record protection for TLS 1.3 under `key` and `iv`.
    pub fn tls13_encrypter(&self, key: &[u8], iv: [u8; 12]) -> (c: Tls13Cipher)
        requires
            key@.len() == 32,
        ensures
            aead_key_bytes(c.0) == key@,
            c.1 == iv,
    {
        Tls13Cipher(LibcruxAeadKey::Chacha20Poly1305(key_array(key)), iv)
    }

    /// Record unprotection for TLS 1.3 under `key` and `iv`.
    pub fn tls13_decrypter(&self, key: &[u8], iv: [u8; 12]) -> (c: Tls13Cipher)
        requires
            key@.len() == 32,
        ensures
            aead_key_bytes(c.0) == key@,
            c.1 == iv,
    {
        Tls13Cipher(LibcruxAeadKey::Chacha20Poly1305(key_array(key)), iv)
    }

    /// The traffic secrets of a TLS 1.3 connection.
    pub fn tls13_extract_keys(&self, key: Vec<u8>, iv: [u8; 12]) -> (s: ConnectionTrafficSecrets)
        ensures
            s.key@ == key@,
            s.iv == iv,
    {
        ConnectionTrafficSecrets { key, iv }
    }

    /// Record protection for TLS 1.2 under `key` and the fixed `iv`; the explicit
    /// nonce is not used.
    pub fn tls12_encrypter(&self, key: &[u8], iv: &[u8], explicit: &[u8]) -> (c: Tls12Cipher)
        requires
            key@.len() == 32,
            iv@.len() == 12,
        ensures
            aead_key_bytes(c.0) == key@,
            c.1@ == iv@,
    {
        Tls12Cipher(LibcruxAeadKey::Chacha20Poly1305(key_array(key)), iv_array(iv))
    }

    /// Record unprotection for TLS 1.2 under `key` and the fixed `iv`.
    pub fn tls12_decrypter(&self, key: &[u8], iv: &[u8]) -> (c: Tls12Cipher)
        requires
            key@.len() == 32,
            iv@.len() == 12,
        ensures
            aead_key_bytes(c.0) == key@,
            c.1@ == iv@,
    {
        Tls12Cipher(LibcruxAeadKey::Chacha20Poly1305(key_array(key)), iv_array(iv))
    }

    /// The layout of the TLS 1.2 key block: a 32-byte key, a 12-byte fixed IV and no
    /// explicit nonce.
    pub fn key_block_shape(&self) -> (shape: KeyBlockShape)
        ensures
            shape == (KeyBlockShape { enc_key_len: 32, fixed_iv_len: 12, explicit_nonce_len: 0 }),
    {
        KeyBlockShape { enc_key_len: 32, fixed_iv_len: 12, explicit_nonce_len: 0 }
    }

    /// The traffic secrets of a TLS 1.2 connection.
    pub fn tls12_extract_keys(&self, key: Vec<u8>, iv: &[u8], explicit: &[u8]) -> (s:
        ConnectionTrafficSecrets)
        requires
            iv@.len() == NONCE_LEN,
        ensures
            s.key@ == key@,
            s.iv@ == iv@,
    {
        ConnectionTrafficSecrets { key, iv: iv_array(iv) }
    }
}

fn key_array(key: &[u8]) -> (k: [u8; 32])
    requires
        key@.len() == 32,
    ensures
        k@ == key@,
{
    let mut k = [0u8; 32];
    let mut i: usize = 0;
    while i < 32
        invariant
            i <= 32,
            key@.len() == 32,
            forall|j: int| 0 <= j < i ==> k@[j] == key@[j],
        decreases 32 - i,
    {
        k[i] = key[i];
        i = i + 1;
    }
    assert(k@ =~= key@);
    k
}

fn iv_array(iv: &[u8]) -> (a: [u8; 12])
    requires
        iv@.len() == 12,
    ensures
        a@ == iv@,
{
    let mut a = [0u8; 12];
    let mut i: usize = 0;
    while i < 12
        invariant
            i <= 12,
            iv@.len() == 12,
            forall|j: int| 0 <= j < i ==> a@[j] == iv@[j],
        decreases 12 - i,
    {
        a[i] = iv[i];
        i = i + 1;
    }
    assert(a@ =~= iv@);
    a
}

fn key_ref(key: &LibcruxAeadKey) -> (k: &[u8; 32])
    ensures
        k@ == aead_key_bytes(*key),
{
    match key {
        LibcruxAeadKey::Chacha20Poly1305(k) => k,
    }
}

impl Tls13Cipher {
    /// The length of the encrypted payload for a payload of `payload_len` bytes: one
    /// byte of content type and the tag are added.
    pub fn encrypted_payload_len(&self, payload_len: usize) -> (n: usize)
        requires
            payload_len + 1 + CHACHAPOLY1305_OVERHEAD <= usize::MAX,
        ensures
            n == payload_len + 1 + CHACHAPOLY1305_OVERHEAD,
    {
        payload_len + 1 + CHACHAPOLY1305_OVERHEAD
    }

    /// Protects one TLS 1.3 record: the payload and its content type are encrypted
    /// under the nonce for `seq`; the result is an `application_data` record with the
    /// legacy version TLS 1.2.
    pub fn encrypt(&mut self, m: PlainMessage, seq: u64) -> (res: Result<OpaqueMessage, TlsError>)
        requires
            m.payload@.len() + 1 + CHACHAPOLY1305_OVERHEAD <= usize::MAX,
        ensures
            *final(self) == *old(self),
            opaque_result_is(
                res,
                CONTENT_APPLICATION_DATA,
                TLS12_VERSION,
                tls13_seal(aead_key_bytes(old(self).0), old(self).1@, seq, m.typ, m.payload@),
            ),
            res matches Ok(o) ==> o.payload@.len() == m.payload@.len() + 1 + CHACHAPOLY1305_OVERHEAD,
    {
        let total_len = self.encrypted_payload_len(m.payload.len());
        let typ = m.typ;
        let mut plaintext = m.payload;
        plaintext.push(typ);
        let nonce = make_nonce(&self.1, seq);
        let aad = make_tls13_aad(total_len);
        let key = key_ref(&self.0);
        match chacha20poly1305_encrypt(key, &nonce, aad.as_slice(), plaintext.as_slice()) {
            Ok((ct, tag)) => {
                let mut payload = ct;
                let mut tag_bytes = vstd::slice::slice_to_vec(tag.as_slice());
                payload.append(&mut tag_bytes);
                Ok(OpaqueMessage { typ: CONTENT_APPLICATION_DATA, version: TLS12_VERSION, payload })
            },
            Err(_) => Err(TlsError::EncryptError),
        }
    }

    /// Unprotects one TLS 1.3 record: splits off the tag, decrypts, and removes the
    /// padding to recover the content type.
    pub fn decrypt(&mut self, m: OpaqueMessage, seq: u64) -> (res: Result<PlainMessage, TlsError>)
        ensures
            *final(self) == *old(self),
            plain_result_view(res) == tls13_open(aead_key_bytes(old(self).0), old(self).1@, seq, m.payload@),
            // A record that this cipher state sealed, at the same sequence number, opens to
            // the same content type and payload, for every content type that survives
            // unpadding and every payload that fits in a fragment.
            forall|typ: u8, payload: Seq<u8>|
                #![trigger tls13_seal(aead_key_bytes(old(self).0), old(self).1@, seq, typ, payload)]
                tls13_seal(aead_key_bytes(old(self).0), old(self).1@, seq, typ, payload) == Some(m.payload@)
                    && m.payload@.len() == payload.len() + 1 + CHACHAPOLY1305_OVERHEAD
                    && typ != 0 && typ != CONTENT_CHANGE_CIPHER_SPEC
                    && payload.len() <= MAX_FRAGMENT_LEN
                    ==> plain_result_view(res) == Ok::<(u8, u16, Seq<u8>), TlsError>((typ, TLS13_VERSION, payload)),
    {
        let key = key_ref(&self.0);
        let total_len = m.payload.len();
        let tag_len = CHACHAPOLY1305_OVERHEAD;
        if total_len < tag_len {
            return Err(TlsError::DecryptError);
        }
        let payload = m.payload.as_slice();
        let ct = vstd::slice::slice_subrange(payload, 0, total_len - tag_len);
        let tag = vstd::slice::slice_subrange(payload, total_len - tag_len, total_len);
        let nonce = make_nonce(&self.1, seq);
        let aad = make_tls13_aad(total_len);
        let res = match chacha20poly1305_decrypt(key, &nonce, aad.as_slice(), ct, tag) {
            Ok(plaintext) => unpad_tls13(plaintext),
            Err(_) => Err(TlsError::DecryptError),
        };
        proof {
            assert(ct@ + tag@ =~= m.payload@);
            assert forall|typ: u8, payload: Seq<u8>|
                tls13_seal(aead_key_bytes(old(self).0), old(self).1@, seq, typ, payload) == Some(m.payload@)
                    && m.payload@.len() == payload.len() + 1 + CHACHAPOLY1305_OVERHEAD
                    && typ != 0 && typ != CONTENT_CHANGE_CIPHER_SPEC
                    && payload.len() <= MAX_FRAGMENT_LEN
                    implies plain_result_view(res) == Ok::<(u8, u16, Seq<u8>), TlsError>(
                (typ, TLS13_VERSION, payload),
            ) by {
                let inner = payload.push(typ);
                assert(inner.drop_last() =~= payload);
                assert(strip_trailing_zeros(inner) == inner);
            }
        }
        res
    }
}

impl Tls12Cipher {
    /// The length of the encrypted payload for a payload of `payload_len` bytes.
    pub fn encrypted_payload_len(&self, payload_len: usize) -> (n: usize)
        requires
            payload_len + CHACHAPOLY1305_OVERHEAD <= usize::MAX,
        ensures
            n == payload_len + CHACHAPOLY1305_OVERHEAD,
    {
        payload_len + CHACHAPOLY1305_OVERHEAD
    }

    /// Protects one TLS 1.2 record: the payload is encrypted under the nonce for
    /// `seq`, with the record's type, version and length as additional data. The
    /// record keeps its type and version and carries the ciphertext, without the tag.
    pub fn encrypt(&mut self, m: PlainMessage, seq: u64) -> (res: Result<OpaqueMessage, TlsError>)
        requires
            m.payload@.len() + CHACHAPOLY1305_OVERHEAD <= usize::MAX,
        ensures
            *final(self) == *old(self),
            opaque_result_is(
                res,
                m.typ,
                m.version,
                tls12_seal(aead_key_bytes(old(self).0), old(self).1@, seq, m.typ, m.version, m.payload@),
            ),
    {
        let _total_len = self.encrypted_payload_len(m.payload.len());
        let nonce = make_nonce(&self.1, seq);
        let aad = make_tls12_aad(seq, m.typ, m.version, m.payload.len());
        let key = key_ref(&self.0);
        match chacha20poly1305_encrypt(key, &nonce, aad.as_slice(), m.payload.as_slice()) {
            Ok((ct, tag)) => {
                assert(ct@ =~= (ct@ + tag@).subrange(0, m.payload@.len() as int));
                Ok(OpaqueMessage { typ: m.typ, version: m.version, payload: ct })
            },
            Err(_) => Err(TlsError::EncryptError),
        }
    }

    /// Unprotects one TLS 1.2 record: splits off the tag and decrypts. The additional
    /// data states a length sixteen bytes shorter than the ciphertext, so a record of
    /// fewer than 32 bytes cannot be processed.
    pub fn decrypt(&mut self, m: OpaqueMessage, seq: u64) -> (res: Result<PlainMessage, TlsError>)
        requires
            m.payload@.len() < CHACHAPOLY1305_OVERHEAD || m.payload@.len() >= 2 * CHACHAPOLY1305_OVERHEAD,
        ensures
            *final(self) == *old(self),
            m.payload@.len() < CHACHAPOLY1305_OVERHEAD ==> res == Err::<PlainMessage, TlsError>(TlsError::DecryptError),
            m.payload@.len() >= CHACHAPOLY1305_OVERHEAD ==> plain_result_view(res) == tls12_open(
                aead_key_bytes(old(self).0),
                old(self).1@,
                seq,
                m.typ,
                m.version,
                m.payload@,
            ),
    {
        let key = key_ref(&self.0);
        let payload_and_tag_len = m.payload.len();
        let tag_len = CHACHAPOLY1305_OVERHEAD;
        if payload_and_tag_len < tag_len {
            return Err(TlsError::DecryptError);
        }
        let payload_and_tag = m.payload.as_slice();
        let payload = vstd::slice::slice_subrange(payload_and_tag, 0, payload_and_tag_len - tag_len);
        let tag = vstd::slice::slice_subrange(payload_and_tag, payload_and_tag_len - tag_len, payload_and_tag_len);
        let nonce = make_nonce(&self.1, seq);
        let aad = make_tls12_aad(seq, m.typ, m.version, payload.len() - CHACHAPOLY1305_OVERHEAD);
        match chacha20poly1305_decrypt(key, &nonce, aad.as_slice(), payload, tag) {
            Ok(plaintext) => Ok(PlainMessage { typ: m.typ, version: m.version, payload: plaintext }),
            Err(_) => Err(TlsError::DecryptError),
        }
    }
}

// ----- laws -----

proof fn lemma_be_value_push(p: Seq<u8>, c: u8)
    ensures
        be_value(p.push(c)) == be_value(p) * 256 + c,
{
    assert(p.push(c).drop_last() =~= p);
}

/// Eight big-endian bytes read back as a number give the number they encode.
pub proof fn lemma_be_u64_value(x: u64)
    ensures
        be_u64(x).len() == 8,
        be_value(be_u64(x)) == x,
{
    let b0 = (x >> 56u64) as u8;
    let b1 = (x >> 48u64) as u8;
    let b2 = (x >> 40u64) as u8;
    let b3 = (x >> 32u64) as u8;
    let b4 = (x >> 24u64) as u8;
    let b5 = (x >> 16u64) as u8;
    let b6 = (x >> 8u64) as u8;
    let b7 = x as u8;
    let s0 = Seq::<u8>::empty();
    let s1 = s0.push(b0);
    let s2 = s1.push(b1);
    let s3 = s2.push(b2);
    let s4 = s3.push(b3);
    let s5 = s4.push(b4);
    let s6 = s5.push(b5);
    let s7 = s6.push(b6);
    let s8 = s7.push(b7);
    assert(be_value(s0) == 0);
    lemma_be_value_push(s0, b0);
    lemma_be_value_push(s1, b1);
    lemma_be_value_push(s2, b2);
    lemma_be_value_push(s3, b3);
    lemma_be_value_push(s4, b4);
    lemma_be_value_push(s5, b5);
    lemma_be_value_push(s6, b6);
    lemma_be_value_push(s7, b7);
    assert(be_u64(x) =~= s8);
    assert(((((((((x >> 56u64) as u8) * 256 + ((x >> 48u64) as u8)) * 256 + ((x >> 40u64) as u8)) * 256
        + ((x >> 32u64) as u8)) * 256 + ((x >> 24u64) as u8)) * 256 + ((x >> 16u64) as u8)) * 256 + ((x
        >> 8u64) as u8)) * 256 + (x as u8) == x) by (bit_vector);
}

/// Two big-endian bytes read back as a number give the number they encode.
pub proof fn lemma_be_u16_value(x: u16)
    ensures
        be_u16(x).len() == 2,
        be_value(be_u16(x)) == x,
{
    let b0 = (x >> 8u16) as u8;
    let b1 = x as u8;
    let s0 = Seq::<u8>::empty();
    let s1 = s0.push(b0);
    let s2 = s1.push(b1);
    assert(be_value(s0) == 0);
    lemma_be_value_push(s0, b0);
    lemma_be_value_push(s1, b1);
    assert(be_u16(x) =~= s2);
    assert(((x >> 8u16) as u8) * 256 + (x as u8) == x) by (bit_vector);
}

/// The TLS 1.2 additional data is 13 bytes: the sequence number as eight big-endian
/// bytes, the content type, the version as two big-endian bytes and the length (modulo
/// 2^16) as two big-endian bytes.
pub proof fn lemma_tls12_aad_layout(seq: u64, typ: u8, version: u16, len: usize)
    ensures
        tls12_aad(seq, typ, version, len).len() == 13,
        be_value(tls12_aad(seq, typ, version, len).subrange(0, 8)) == seq,
        tls12_aad(seq, typ, version, len)[8] == typ,
        be_value(tls12_aad(seq, typ, version, len).subrange(9, 11)) == version,
        be_value(tls12_aad(seq, typ, version, len).subrange(11, 13)) == len as nat % 65536,
{
    let a = tls12_aad(seq, typ, version, len);
    lemma_be_u64_value(seq);
    lemma_be_u16_value(version);
    lemma_be_u16_value(len as u16);
    assert(a.subrange(0, 8) =~= be_u64(seq));
    assert(a.subrange(9, 11) =~= be_u16(version));
    assert(a.subrange(11, 13) =~= be_u16(len as u16));
    assert((len as u16) as nat == len as nat % 65536) by (bit_vector);
}

/// The TLS 1.3 additional data for an encrypted length `len` below 2^16: the outer
/// content type `application_data`, the legacy version TLS 1.2 and `len` as two
/// big-endian bytes.
pub proof fn lemma_tls13_aad_layout(len: usize)
    requires
        len < 65536,
    ensures
        tls13_aad(len).len() == 5,
        tls13_aad(len).subrange(0, 3) == seq![0x17u8, 0x03u8, 0x03u8],
        be_value(tls13_aad(len).subrange(3, 5)) == len,
{
    let a = tls13_aad(len);
    let b0 = (len >> 8usize) as u8;
    let b1 = (len & 0xffusize) as u8;
    let s0 = Seq::<u8>::empty();
    let s1 = s0.push(b0);
    let s2 = s1.push(b1);
    assert(be_value(s0) == 0);
    lemma_be_value_push(s0, b0);
    lemma_be_value_push(s1, b1);
    assert(a.subrange(3, 5) =~= s2);
    assert(a.subrange(0, 3) =~= seq![0x17u8, 0x03u8, 0x03u8]);
    assert(len < 65536 ==> ((len >> 8usize) as u8) * 256 + ((len & 0xffusize) as u8) == len) by (bit_vector);
}

/// The per-record nonce keeps the first four bytes of the IV, and its last eight bytes,
/// taken back out of the IV, are the sequence number in big-endian order.
pub proof fn lemma_record_nonce_layout(iv: Seq<u8>, seq: u64)
    requires
        iv.len() == 12,
    ensures
        record_nonce(iv, seq).len() == 12,
        record_nonce(iv, seq).subrange(0, 4) == iv.subrange(0, 4),
        be_value(Seq::new(8, |i: int| record_nonce(iv, seq)[i + 4] ^ iv[i + 4])) == seq,
{
    let n = record_nonce(iv, seq);
    lemma_be_u64_value(seq);
    assert forall|i: int| 0 <= i < 4 implies n[i] == iv[i] by {
        let b = iv[i];
        assert(0u8 ^ b == b) by (bit_vector);
    }
    assert(n.subrange(0, 4) =~= iv.subrange(0, 4));
    assert forall|i: int| 0 <= i < 8 implies n[i + 4] ^ iv[i + 4] == be_u64(seq)[i] by {
        let p = be_u64(seq)[i];
        let b = iv[i + 4];
        assert((p ^ b) ^ b == p) by (bit_vector);
    }
    assert(Seq::new(8, |i: int| n[i + 4] ^ iv[i + 4]) =~= be_u64(seq));
}

/// A TLS 1.3 record is sealed under the record's nonce, with additional data that states
/// its whole encrypted length (the payload, the content type byte and the 16-byte tag),
/// over the payload followed by its content type.
pub proof fn lemma_tls13_seal_aad(key: Seq<u8>, iv: Seq<u8>, seq: u64, typ: u8, payload: Seq<u8>)
    requires
        payload.len() + 1 <= u32::MAX,
    ensures
        tls13_seal(key, iv, seq, typ, payload) == Some(
            chacha20poly1305_seal(
                key,
                record_nonce(iv, seq),
                tls13_aad((payload.len() + 17) as usize),
                payload.push(typ),
            ),
        ),
{
}

/// A TLS 1.3 record of at least 16 bytes is opened under the record's nonce, with
/// additional data that states the record's whole length; its last 16 bytes are the tag.
pub proof fn lemma_tls13_open_aad(key: Seq<u8>, iv: Seq<u8>, seq: u64, payload: Seq<u8>)
    requires
        payload.len() >= 16,
    ensures
        tls13_open(key, iv, seq, payload) == match chacha20poly1305_open(
            key,
            record_nonce(iv, seq),
            tls13_aad(payload.len() as usize),
            payload.subrange(0, payload.len() - 16),
            payload.subrange(payload.len() - 16, payload.len() as int),
        ) {
            None => Err(TlsError::DecryptError),
            Some(inner) => tls13_unpad(inner),
        },
{
}

/// The padding of a TLS 1.3 record is removed to the last non-zero byte, which is the
/// content type: `content`, its type and any number of zero bytes unpad to `content` and
/// that type, for every type but the refused ones and every content up to the largest
/// fragment.
pub proof fn lemma_unpad_of_padded(content: Seq<u8>, typ: u8, zeros: nat)
    requires
        typ != 0,
        typ != CONTENT_CHANGE_CIPHER_SPEC,
        content.len() + 1 + zeros <= MAX_FRAGMENT_LEN + 1,
    ensures
        tls13_unpad(content.push(typ) + Seq::new(zeros, |i: int| 0u8)) == Ok::<(u8, u16, Seq<u8>), TlsError>(
            (typ, TLS13_VERSION, content),
        ),
{
    lemma_strip_of_zeros(content.push(typ), zeros);
    assert(content.push(typ).drop_last() =~= content);
}

proof fn lemma_strip_of_zeros(p: Seq<u8>, zeros: nat)
    requires
        p.len() > 0,
        p.last() != 0,
    ensures
        strip_trailing_zeros(p + Seq::new(zeros, |i: int| 0u8)) == p,
    decreases zeros,
{
    let z = Seq::new(zeros, |i: int| 0u8);
    if zeros == 0 {
        assert(p + z =~= p);
    } else {
        let z1 = Seq::new((zeros - 1) as nat, |i: int| 0u8);
        assert((p + z).drop_last() =~= p + z1);
        lemma_strip_of_zeros(p, (zeros - 1) as nat);
    }
}

/// A TLS 1.2 record is sealed under the record's nonce, with the additional data of its
/// sequence number, type, version and payload length, and carries the first
/// `payload.len()` bytes of the sealed output (the ciphertext, without the tag).
pub proof fn lemma_tls12_seal_parts(key: Seq<u8>, iv: Seq<u8>, seq: u64, typ: u8, version: u16, payload: Seq<u8>)
    requires
        payload.len() <= u32::MAX,
    ensures
        tls12_seal(key, iv, seq, typ, version, payload) == Some(
            chacha20poly1305_seal(
                key,
                record_nonce(iv, seq),
                tls12_aad(seq, typ, version, payload.len() as usize),
                payload,
            ).subrange(0, payload.len() as int),
        ),
{
}

/// A TLS 1.2 record of at least 32 bytes is opened under the record's nonce: its last 16
/// bytes are the tag, and the additional data gives its sequence number, type and
/// version and a length 32 bytes shorter than the record's payload.
pub proof fn lemma_tls12_open_parts(key: Seq<u8>, iv: Seq<u8>, seq: u64, typ: u8, version: u16, payload: Seq<u8>)
    requires
        payload.len() >= 32,
    ensures
        tls12_open(key, iv, seq, typ, version, payload) == match chacha20poly1305_open(
            key,
            record_nonce(iv, seq),
            tls12_aad(seq, typ, version, (payload.len() - 32) as usize),
            payload.subrange(0, payload.len() - 16),
            payload.subrange(payload.len() - 16, payload.len() as int),
        ) {
            None => Err(TlsError::DecryptError),
            Some(pt) => Ok((typ, version, pt)),
        },
{
}

/// Unpadding refuses a record longer than the largest fragment and its type byte, one
/// that holds only zero bytes, and one whose content type is `change_cipher_spec`.
pub proof fn lemma_unpad_refusals(content: Seq<u8>, typ: u8, zeros: nat)
    requires
        typ != 0,
        content.len() + 1 + zeros <= MAX_FRAGMENT_LEN + 1,
    ensures
        tls13_unpad(Seq::new(zeros, |i: int| 0u8)) == Err::<(u8, u16, Seq<u8>), TlsError>(
            TlsError::PeerMisbehaved(PeerMisbehaved::IllegalTlsInnerPlaintext),
        ),
        typ == CONTENT_CHANGE_CIPHER_SPEC ==> tls13_unpad(content.push(typ) + Seq::new(zeros, |i: int| 0u8))
            == Err::<(u8, u16, Seq<u8>), TlsError>(
            TlsError::PeerMisbehaved(PeerMisbehaved::IllegalMiddleboxChangeCipherSpec),
        ),
        forall|p: Seq<u8>| p.len() > MAX_FRAGMENT_LEN + 1 ==> #[trigger] tls13_unpad(p) == Err::<(u8, u16, Seq<u8>), TlsError>(
            TlsError::PeerSentOversizedRecord,
        ),
{
    lemma_strip_of_zeros(content.push(typ), zeros);
    lemma_strip_all_zeros(zeros);
}

proof fn lemma_strip_all_zeros(zeros: nat)
    ensures
        strip_trailing_zeros(Seq::new(zeros, |i: int| 0u8)).len() == 0,
    decreases zeros,
{
    if zeros > 0 {
        assert(Seq::new(zeros, |i: int| 0u8).drop_last() =~= Seq::new((zeros - 1) as nat, |i: int| 0u8));
        lemma_strip_all_zeros((zeros - 1) as nat);
    }
}

} // verus!
