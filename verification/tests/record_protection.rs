use libcrux::algorithms::chacha20poly1305 as chachapoly;
use rustls_libcrux_provider::error::{PeerMisbehaved, TlsError};
use rustls_libcrux_provider::record::{
    make_nonce, make_tls12_aad, make_tls13_aad, unpad_tls13, Chacha20Poly1305, KeyBlockShape,
    OpaqueMessage, PlainMessage,
};

const KEY: [u8; 32] = [
    0x80, 0x81, 0x82, 0x83, 0x84, 0x85, 0x86, 0x87, 0x88, 0x89, 0x8a, 0x8b, 0x8c, 0x8d, 0x8e, 0x8f,
    0x90, 0x91, 0x92, 0x93, 0x94, 0x95, 0x96, 0x97, 0x98, 0x99, 0x9a, 0x9b, 0x9c, 0x9d, 0x9e, 0x9f,
];
const IV: [u8; 12] = [0x07, 0x00, 0x00, 0x00, 0x40, 0x41, 0x42, 0x43, 0x44, 0x45, 0x46, 0x47];

fn seal_reference(nonce: &[u8; 12], aad: &[u8], plaintext: &[u8]) -> Vec<u8> {
    let mut ct = vec![0u8; plaintext.len()];
    let mut tag = [0u8; 16];
    chachapoly::encrypt_detached(&KEY, plaintext, &mut ct, &mut tag, aad, nonce).unwrap();
    ct.extend_from_slice(&tag);
    ct
}

#[test]
fn nonce_is_iv_xor_sequence_number() {
    let nonce = make_nonce(&IV, 0x0102030405060708);
    assert_eq!(
        nonce,
        [0x07, 0x00, 0x00, 0x00, 0x41, 0x43, 0x41, 0x47, 0x41, 0x43, 0x41, 0x4f]
    );
    assert_eq!(make_nonce(&IV, 0), IV);
}

#[test]
fn additional_data_layout() {
    assert_eq!(make_tls13_aad(0x1234), [0x17, 0x03, 0x03, 0x12, 0x34]);
    assert_eq!(
        make_tls12_aad(5, 0x17, 0x0303, 300),
        [0, 0, 0, 0, 0, 0, 0, 5, 0x17, 0x03, 0x03, 0x01, 0x2c]
    );
}

#[test]
fn tls13_record_encrypts_payload_and_type() {
    let suite = Chacha20Poly1305;
    let mut enc = suite.tls13_encrypter(&KEY, IV);
    let payload = b"hello, world".to_vec();
    let opaque = enc
        .encrypt(PlainMessage { typ: 0x16, version: 0x0303, payload: payload.clone() }, 7)
        .unwrap();
    assert_eq!(opaque.typ, 0x17);
    assert_eq!(opaque.version, 0x0303);
    assert_eq!(opaque.payload.len(), payload.len() + 1 + 16);

    let mut inner = payload.clone();
    inner.push(0x16);
    let expected = seal_reference(&make_nonce(&IV, 7), &make_tls13_aad(opaque.payload.len()), &inner);
    assert_eq!(opaque.payload, expected);
    assert_ne!(&opaque.payload[..payload.len()], &payload[..]);
}

#[test]
fn tls13_record_roundtrip() {
    let suite = Chacha20Poly1305;
    let mut enc = suite.tls13_encrypter(&KEY, IV);
    let mut dec = suite.tls13_decrypter(&KEY, IV);
    for (typ, payload) in [(0x17u8, vec![1u8, 2, 3, 0, 0]), (0x16, vec![]), (0x15, vec![0xAA; 300])] {
        let opaque = enc
            .encrypt(PlainMessage { typ, version: 0x0303, payload: payload.clone() }, 42)
            .unwrap();
        let plain = dec.decrypt(opaque, 42).unwrap();
        assert_eq!(plain.typ, typ);
        assert_eq!(plain.version, 0x0304);
        assert_eq!(plain.payload, payload);
    }
}

#[test]
fn tls13_record_with_wrong_sequence_number_fails() {
    let suite = Chacha20Poly1305;
    let mut enc = suite.tls13_encrypter(&KEY, IV);
    let mut dec = suite.tls13_decrypter(&KEY, IV);
    let opaque = enc
        .encrypt(PlainMessage { typ: 0x17, version: 0x0303, payload: vec![9; 20] }, 1)
        .unwrap();
    assert_eq!(dec.decrypt(opaque, 2).unwrap_err(), TlsError::DecryptError);
}

#[test]
fn tls13_short_record_fails() {
    let mut dec = Chacha20Poly1305.tls13_decrypter(&KEY, IV);
    let m = OpaqueMessage { typ: 0x17, version: 0x0303, payload: vec![0; 15] };
    assert_eq!(dec.decrypt(m, 0).unwrap_err(), TlsError::DecryptError);
}

#[test]
fn tls13_padding_only_record_is_refused() {
    let mut dec = Chacha20Poly1305.tls13_decrypter(&KEY, IV);
    let inner = [0u8; 4];
    let len = inner.len() + 16;
    let payload = seal_reference(&make_nonce(&IV, 3), &make_tls13_aad(len), &inner);
    let m = OpaqueMessage { typ: 0x17, version: 0x0303, payload };
    assert_eq!(
        dec.decrypt(m, 3).unwrap_err(),
        TlsError::PeerMisbehaved(PeerMisbehaved::IllegalTlsInnerPlaintext)
    );
}

#[test]
fn unpad_errors_and_content_type() {
    assert_eq!(
        unpad_tls13(vec![0, 0, 0]).unwrap_err(),
        TlsError::PeerMisbehaved(PeerMisbehaved::IllegalTlsInnerPlaintext)
    );
    assert_eq!(
        unpad_tls13(vec![1, 2, 0x14, 0]).unwrap_err(),
        TlsError::PeerMisbehaved(PeerMisbehaved::IllegalMiddleboxChangeCipherSpec)
    );
    assert_eq!(unpad_tls13(vec![0x17; 16386]).unwrap_err(), TlsError::PeerSentOversizedRecord);
    let m = unpad_tls13(vec![5, 0, 6, 0x17, 0, 0]).unwrap();
    assert_eq!((m.typ, m.version, m.payload), (0x17, 0x0304, vec![5, 0, 6]));
    let mut full = vec![1u8; 16384];
    full.push(0x17);
    assert_eq!(unpad_tls13(full).unwrap().payload.len(), 16384);
}

#[test]
fn tls12_record_carries_ciphertext_without_tag() {
    let suite = Chacha20Poly1305;
    let mut enc = suite.tls12_encrypter(&KEY, &IV, &[]);
    let payload = vec![0x42u8; 40];
    let opaque = enc
        .encrypt(PlainMessage { typ: 0x17, version: 0x0303, payload: payload.clone() }, 9)
        .unwrap();
    assert_eq!((opaque.typ, opaque.version), (0x17, 0x0303));
    let sealed = seal_reference(&make_nonce(&IV, 9), &make_tls12_aad(9, 0x17, 0x0303, 40), &payload);
    assert_eq!(opaque.payload, sealed[..40].to_vec());
}

#[test]
fn tls12_decrypt_uses_shortened_length_in_additional_data() {
    let suite = Chacha20Poly1305;
    let mut dec = suite.tls12_decrypter(&KEY, &IV);
    let plaintext = vec![0x33u8; 20];
    // The additional data names a length sixteen bytes shorter than the ciphertext.
    let sealed = seal_reference(&make_nonce(&IV, 4), &make_tls12_aad(4, 0x17, 0x0303, 4), &plaintext);
    let m = OpaqueMessage { typ: 0x17, version: 0x0303, payload: sealed };
    let plain = dec.decrypt(m, 4).unwrap();
    assert_eq!((plain.typ, plain.version, plain.payload), (0x17, 0x0303, plaintext));

    let short = OpaqueMessage { typ: 0x17, version: 0x0303, payload: vec![0; 10] };
    assert_eq!(dec.decrypt(short, 4).unwrap_err(), TlsError::DecryptError);
}

#[test]
fn key_schedule_shapes() {
    let suite = Chacha20Poly1305;
    assert_eq!(suite.key_len(), 32);
    assert_eq!(
        suite.key_block_shape(),
        KeyBlockShape { enc_key_len: 32, fixed_iv_len: 12, explicit_nonce_len: 0 }
    );
    let secrets = suite.tls13_extract_keys(KEY.to_vec(), IV);
    assert_eq!((secrets.key, secrets.iv), (KEY.to_vec(), IV));
    let secrets = suite.tls12_extract_keys(KEY.to_vec(), &IV, &[]);
    assert_eq!((secrets.key, secrets.iv), (KEY.to_vec(), IV));
    let enc13 = suite.tls13_encrypter(&KEY, IV);
    assert_eq!(enc13.encrypted_payload_len(10), 27);
    let enc12 = suite.tls12_encrypter(&KEY, &IV, &[]);
    assert_eq!(enc12.encrypted_payload_len(10), 26);
}
