use rustls_libcrux_provider::error::{GeneralError, PeerMisbehaved, TlsError};
use rustls_libcrux_provider::kx::{Kem, Nike, GROUP_MLKEM768, GROUP_X25519};
use rustls_libcrux_provider::pq::{
    CombinedSecret, CombinedShare, ReceivedCiphertext, ReceivedShare, X25519MlKem768,
    COMBINED_CIPHERTEXT_LEN, COMBINED_PUBKEY_LEN, NAMED_GROUP,
};

fn unhex(s: &str) -> Vec<u8> {
    (0..s.len()).step_by(2).map(|i| u8::from_str_radix(&s[i..i + 2], 16).unwrap()).collect()
}

fn arr32(v: &[u8]) -> [u8; 32] {
    v.try_into().unwrap()
}

#[test]
fn x25519_rfc7748_vector() {
    let alice_sk = arr32(&unhex("77076d0a7318a57d3c16c17251b26645df4c2f87ebc0992ab177fba51db92c2a"));
    let bob_sk = arr32(&unhex("5dab087e624a8a4b79e17f8b83800ee66f3bb1292618b6fd1c2f8b27ff88e0eb"));
    let alice = Nike.start_from_secret(alice_sk);
    let bob = Nike.start_from_secret(bob_sk);
    assert_eq!(alice.pub_key(), unhex("8520f0098930a754748b7ddcb43ef75a0dbf3a0d26381af4eba4a98eaa9b4e6a"));
    assert_eq!(bob.pub_key(), unhex("de9edb7d7b7dc1b4d35b61c2ece435373f8343c85b78674dadfc7e146f882b4f"));
    assert_eq!(alice.group(), GROUP_X25519);
    let bob_pub = bob.pub_key().to_vec();
    let alice_pub = alice.pub_key().to_vec();
    let shared = unhex("4a5d9d5ba4ce2de1728e3bf480350f25e07e21c947d19e3376f09b3c1e161742");
    assert_eq!(alice.complete(&bob_pub).unwrap(), shared);
    assert_eq!(bob.complete(&alice_pub).unwrap(), shared);
}

#[test]
fn x25519_one_step_exchange() {
    let bob_sk = arr32(&unhex("5dab087e624a8a4b79e17f8b83800ee66f3bb1292618b6fd1c2f8b27ff88e0eb"));
    let alice_pub = unhex("8520f0098930a754748b7ddcb43ef75a0dbf3a0d26381af4eba4a98eaa9b4e6a");
    let done = Nike.complete_from_secret(&alice_pub, bob_sk).unwrap();
    assert_eq!(done.group, GROUP_X25519);
    assert_eq!(done.pub_key, unhex("de9edb7d7b7dc1b4d35b61c2ece435373f8343c85b78674dadfc7e146f882b4f"));
    assert_eq!(done.secret, unhex("4a5d9d5ba4ce2de1728e3bf480350f25e07e21c947d19e3376f09b3c1e161742"));
    assert_eq!(Nike.name(), 0x001d);
}

#[test]
fn x25519_bad_peer_keys() {
    let a = Nike.start_from_secret([1u8; 32]);
    assert_eq!(a.complete(&[9u8; 31]).unwrap_err(), TlsError::General(GeneralError::InvalidPublicKey));
    // The all-zero point gives the all-zero secret, which is refused.
    let b = Nike.start_from_secret([1u8; 32]);
    assert_eq!(b.complete(&[0u8; 32]).unwrap_err(), TlsError::General(GeneralError::DerivationFailed));
}

#[test]
fn x25519_random_exchange_agrees() {
    let a = Nike.start().unwrap();
    let a_pub = a.pub_key().to_vec();
    let done = Nike.start_and_complete(&a_pub).unwrap();
    assert_eq!(a.complete(&done.pub_key).unwrap(), done.secret);
}

#[test]
fn mlkem768_exchange_agrees() {
    let client = Kem.start_from_seed([7u8; 64]);
    assert_eq!(client.pub_key().len(), 1184);
    assert_eq!(client.group(), GROUP_MLKEM768);
    let server = Kem.complete_with_randomness(client.pub_key(), [3u8; 32]).unwrap();
    assert_eq!(server.group, GROUP_MLKEM768);
    assert_eq!(server.pub_key.len(), 1088);
    assert_eq!(server.secret.len(), 32);
    assert_eq!(client.complete(&server.pub_key).unwrap(), server.secret);
}

#[test]
fn mlkem768_bad_shares() {
    assert_eq!(
        Kem.complete_with_randomness(&[0u8; 100], [3u8; 32]).unwrap_err(),
        TlsError::General(GeneralError::MlKemPubkey)
    );
    let client = Kem.start_from_seed([7u8; 64]);
    assert_eq!(client.complete(&[0u8; 1087]).unwrap_err(), TlsError::General(GeneralError::EcdhDerive));
    assert_eq!(Kem.name(), 0x0201);
}

#[test]
fn mlkem768_random_exchange_agrees() {
    let client = Kem.start().unwrap();
    let server = Kem.start_and_complete(client.pub_key()).unwrap();
    assert_eq!(client.complete(&server.pub_key).unwrap(), server.secret);
}

#[test]
fn hybrid_exchange_agrees() {
    let group = X25519MlKem768;
    let client = group.start_from_randomness([5u8; 32], [6u8; 64]);
    assert_eq!(client.pub_key().len(), COMBINED_PUBKEY_LEN);
    assert_eq!(client.group(), NAMED_GROUP);
    let server = group.complete_with_randomness(client.pub_key(), [8u8; 32], [9u8; 32]).unwrap();
    assert_eq!(server.group, 0x11ec);
    assert_eq!(server.pub_key.len(), COMBINED_CIPHERTEXT_LEN);
    assert_eq!(server.secret.len(), 64);
    // The server's X25519 public key comes last in its share.
    let x_server = Nike.start_from_secret([8u8; 32]);
    assert_eq!(&server.pub_key[1088..], x_server.pub_key());
    let secret = client.complete(&server.pub_key).unwrap();
    assert_eq!(secret, server.secret);
}

#[test]
fn hybrid_random_exchange_agrees() {
    let group = X25519MlKem768;
    let client = group.start().unwrap();
    let server = group.start_and_complete(client.pub_key()).unwrap();
    assert_eq!(client.complete(&server.pub_key).unwrap(), server.secret);
    assert_eq!(group.name(), 0x11ec);
    assert!(group.usable_for_version(0x0304));
    assert!(!group.usable_for_version(0x0303));
}

#[test]
fn hybrid_shares_of_the_wrong_length_are_refused() {
    let group = X25519MlKem768;
    assert_eq!(
        group.start_and_complete(&[0u8; 1215]).unwrap_err(),
        TlsError::PeerMisbehaved(PeerMisbehaved::InvalidKeyShare)
    );
    let client = group.start_from_randomness([5u8; 32], [6u8; 64]);
    assert_eq!(
        client.complete(&[0u8; 1119]).unwrap_err(),
        TlsError::PeerMisbehaved(PeerMisbehaved::InvalidKeyShare)
    );
}

#[test]
fn shares_split_and_combine() {
    let buf: Vec<u8> = (0..COMBINED_PUBKEY_LEN).map(|i| i as u8).collect();
    let share = ReceivedShare::new(&buf).unwrap();
    assert_eq!(share.ml_kem, &buf[..1184]);
    assert_eq!(share.x25519, &buf[1184..]);
    assert!(ReceivedShare::new(&buf[1..]).is_none());

    let ct: Vec<u8> = (0..COMBINED_CIPHERTEXT_LEN).map(|i| (i * 3) as u8).collect();
    let received = ReceivedCiphertext::new(&ct).unwrap();
    assert_eq!(received.ml_kem, &ct[..1088]);
    assert_eq!(received.x25519, &ct[1088..]);
    assert!(ReceivedCiphertext::new(&[]).is_none());

    let combined = CombinedShare::combine(&ct[1088..], ct[..1088].to_vec());
    assert_eq!(combined.0, ct);
    let secret = CombinedSecret::combine(&[2u8; 32], [1u8; 32]);
    assert_eq!(&secret.0[..32], &[1u8; 32]);
    assert_eq!(&secret.0[32..], &[2u8; 32]);
}
