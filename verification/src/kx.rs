//! Key exchange groups: X25519 as a non-interactive key exchange, and ML-KEM-768
//! as a key encapsulation mechanism.
//!
//! The functions that draw randomness say what holds whatever the random source
//! gave; each hands its random bytes to a function that is exact for every value.

use vstd::prelude::*;

use crate::backend::{
    mlkem768_decapsulate, mlkem768_decapsulation, mlkem768_encapsulate, mlkem768_encapsulation,
    mlkem768_generate_key_pair, mlkem768_key_pair, x25519_ecdh, x25519_public_key,
    x25519_secret_to_public, x25519_shared_secret,
};
use crate::error::{GeneralError, TlsError};
use crate::random::{random_32, random_64};

verus! {

/// TLS code point of the X25519 group.
pub const GROUP_X25519: u16 = 0x001d;

/// TLS code point of the ML-KEM-768 group.
pub const GROUP_MLKEM768: u16 = 0x0201;

/// Length of X25519 keys and shared secrets.
pub const X25519_KEY_LEN: usize = 32;

/// Length of an ML-KEM-768 encapsulation key.
pub const MLKEM768_PUBLIC_KEY_LEN: usize = 1184;

/// Length of an ML-KEM-768 decapsulation key.
pub const MLKEM768_PRIVATE_KEY_LEN: usize = 2400;

/// Length of an ML-KEM-768 ciphertext.
pub const MLKEM768_CIPHERTEXT_LEN: usize = 1088;

/// The outcome of a key exchange completed in one step: the group, the share to send
/// back, and the shared secret.
#[derive(Debug)]
pub struct CompletedKeyExchange {
    pub group: u16,
    pub pub_key: Vec<u8>,
    pub secret: Vec<u8>,
}

/// The view of a completed key exchange: group, share, secret.
pub open spec fn completed_view(c: CompletedKeyExchange) -> (u16, Seq<u8>, Seq<u8>) {
    (c.group, c.pub_key@, c.secret@)
}

/// The view of the result of a one-step key exchange.
pub open spec fn completed_result_view(r: Result<CompletedKeyExchange, TlsError>) -> Result<
    (u16, Seq<u8>, Seq<u8>),
    TlsError,
> {
    match r {
        Ok(c) => Ok(completed_view(c)),
        Err(e) => Err(e),
    }
}

/// The view of the result of completing a key exchange: the shared secret.
pub open spec fn secret_result_view(r: Result<Vec<u8>, TlsError>) -> Result<Seq<u8>, TlsError> {
    match r {
        Ok(s) => Ok(s@),
        Err(e) => Err(e),
    }
}

/// X25519 agreement with the peer's share `peer` under the secret `sk`: the peer's share
/// must be a 32-byte public key, and the shared point must not be zero.
pub open spec fn x25519_agreement(peer: Seq<u8>, sk: Seq<u8>) -> Result<Seq<u8>, TlsError> {
    if peer.len() != X25519_KEY_LEN {
        Err(TlsError::General(GeneralError::InvalidPublicKey))
    } else {
        match x25519_shared_secret(peer, sk) {
            None => Err(TlsError::General(GeneralError::DerivationFailed)),
            Some(ss) => Ok(ss),
        }
    }
}

/// ML-KEM-768 decapsulation of the peer's share: the share must be a ciphertext of the
/// right length.
pub open spec fn mlkem768_agreement(peer: Seq<u8>, sk: Seq<u8>) -> Result<Seq<u8>, TlsError> {
    if peer.len() != MLKEM768_CIPHERTEXT_LEN {
        Err(TlsError::General(GeneralError::EcdhDerive))
    } else {
        Ok(mlkem768_decapsulation(sk, peer))
    }
}

/// ML-KEM-768 encapsulation to the peer's share with the given randomness: the share
/// must be an encapsulation key of the right length.
pub open spec fn mlkem768_exchange(peer: Seq<u8>, randomness: Seq<u8>) -> Result<
    (u16, Seq<u8>, Seq<u8>),
    TlsError,
> {
    if peer.len() != MLKEM768_PUBLIC_KEY_LEN {
        Err(TlsError::General(GeneralError::MlKemPubkey))
    } else {
        let (ct, ss) = mlkem768_encapsulation(peer, randomness);
        Ok((GROUP_MLKEM768, ct, ss))
    }
}

/// The X25519 group, used as a non-interactive key exchange.
#[derive(Debug)]
pub struct Nike;

/// A started X25519 exchange: our secret and public key.
#[derive(Debug)]
pub struct ActiveNike {
    pub priv_key: [u8; 32],
    pub pub_key: [u8; 32],
}

impl ActiveNike {
    /// The public key is the one that belongs to the secret key.
    pub open spec fn wf(&self) -> bool {
        self.pub_key@ == x25519_public_key(self.priv_key@)
    }

    /// Completes the exchange with the peer's public key.
    pub fn complete(self, peer: &[u8]) -> (res: Result<Vec<u8>, TlsError>)
        ensures
            secret_result_view(res) == x25519_agreement(peer@, self.priv_key@),
            res matches Ok(s) ==> s@.len() == X25519_KEY_LEN,
            res matches Ok(s) ==> forall|peer_sk: Seq<u8>|
                peer_sk.len() == 32 && #[trigger] x25519_public_key(peer_sk) == peer@ ==> x25519_shared_secret(
                    x25519_public_key(self.priv_key@),
                    peer_sk,
                ) == Some(s@),
            peer@.len() == X25519_KEY_LEN ==> forall|peer_sk: Seq<u8>|
                peer_sk.len() == 32 && #[trigger] x25519_public_key(peer_sk) == peer@ ==> res is Ok,
    {
        if peer.len() != X25519_KEY_LEN {
            return Err(TlsError::General(GeneralError::InvalidPublicKey));
        }
        let pk = peer_array_32(peer);
        match x25519_ecdh(&pk, &self.priv_key) {
            Ok(ss) => Ok(vstd::slice::slice_to_vec(ss.as_slice())),
            Err(_) => Err(TlsError::General(GeneralError::DerivationFailed)),
        }
    }

    /// Our public key.
    pub fn pub_key(&self) -> (pk: &[u8])
        ensures
            pk@ == self.pub_key@,
    {
        self.pub_key.as_slice()
    }

    /// The group of this exchange.
    pub fn group(&self) -> (g: u16)
        ensures
            g == GROUP_X25519,
    {
        GROUP_X25519
    }
}

fn peer_array_32(peer: &[u8]) -> (a: [u8; 32])
    requires
        peer@.len() == 32,
    ensures
        a@ == peer@,
{
    let mut a = [0u8; 32];
    let mut i: usize = 0;
    while i < 32
        invariant
            i <= 32,
            peer@.len() == 32,
            forall|j: int| 0 <= j < i ==> a@[j] == peer@[j],
        decreases 32 - i,
    {
        a[i] = peer[i];
        i = i + 1;
    }
    assert(a@ =~= peer@);
    a
}

impl Nike {
    /// Starts an exchange with a fresh random secret key.
    pub fn start(&self) -> (res: Result<ActiveNike, TlsError>)
        ensures
            match res {
                Ok(a) => a.wf(),
                Err(e) => e == TlsError::FailedToGetRandomBytes,
            },
    {
        match random_32() {
            Some(secret) => Ok(self.start_from_secret(secret)),
            None => Err(TlsError::FailedToGetRandomBytes),
        }
    }

    /// Starts an exchange with the given secret key.
    pub fn start_from_secret(&self, secret: [u8; 32]) -> (a: ActiveNike)
        ensures
            a.priv_key == secret,
            a.wf(),
    {
        let pub_key = x25519_secret_to_public(&secret);
        ActiveNike { priv_key: secret, pub_key }
    }

    /// Starts an exchange with a fresh secret and completes it at once with the peer's
    /// public key.
    pub fn start_and_complete(&self, peer_pub_key: &[u8]) -> (res: Result<
        CompletedKeyExchange,
        TlsError,
    >)
        ensures
            match res {
                Ok(c) => exists|sk: Seq<u8>|
                    sk.len() == 32 && #[trigger] nike_exchange(peer_pub_key@, sk) == Ok::<
                        (u16, Seq<u8>, Seq<u8>),
                        TlsError,
                    >(completed_view(c)),
                Err(e) => e == TlsError::FailedToGetRandomBytes || exists|sk: Seq<u8>|
                    sk.len() == 32 && #[trigger] nike_exchange(peer_pub_key@, sk) == Err::<
                        (u16, Seq<u8>, Seq<u8>),
                        TlsError,
                    >(e),
            },
    {
        match random_32() {
            Some(secret) => {
                let res = self.complete_from_secret(peer_pub_key, secret);
                assert(secret@.len() == 32 && nike_exchange(peer_pub_key@, secret@) == completed_result_view(res));
                res
            },
            None => Err(TlsError::FailedToGetRandomBytes),
        }
    }

    /// Completes an exchange in one step with the given secret key: our public key is
    /// sent back and the shared secret is the X25519 agreement.
    pub fn complete_from_secret(&self, peer_pub_key: &[u8], secret: [u8; 32]) -> (res: Result<
        CompletedKeyExchange,
        TlsError,
    >)
        ensures
            completed_result_view(res) == nike_exchange(peer_pub_key@, secret@),
            res matches Ok(c) ==> c.pub_key@.len() == X25519_KEY_LEN && c.secret@.len() == X25519_KEY_LEN,
            res matches Ok(c) ==> forall|peer_sk: Seq<u8>|
                peer_sk.len() == 32 && #[trigger] x25519_public_key(peer_sk) == peer_pub_key@ ==> x25519_agreement(
                    c.pub_key@,
                    peer_sk,
                ) == Ok::<Seq<u8>, TlsError>(c.secret@),
    {
        let active = self.start_from_secret(secret);
        let group = active.group();
        let pub_key = vstd::slice::slice_to_vec(active.pub_key());
        match active.complete(peer_pub_key) {
            Ok(secret) => Ok(CompletedKeyExchange { group, pub_key, secret }),
            Err(e) => Err(e),
        }
    }

    /// The group's code point.
    pub fn name(&self) -> (g: u16)
        ensures
            g == GROUP_X25519,
    {
        GROUP_X25519
    }
}

/// A one-step X25519 exchange under the secret `sk`.
pub open spec fn nike_exchange(peer: Seq<u8>, sk: Seq<u8>) -> Result<(u16, Seq<u8>, Seq<u8>), TlsError> {
    match x25519_agreement(peer, sk) {
        Ok(ss) => Ok((GROUP_X25519, x25519_public_key(sk), ss)),
        Err(e) => Err(e),
    }
}

/// The ML-KEM-768 group, used as a key encapsulation mechanism.
#[derive(Debug)]
pub struct Kem;

/// A started ML-KEM-768 exchange: our decapsulation and encapsulation keys.
#[derive(Debug)]
pub struct KemKeyExchange {
    pub priv_key: Vec<u8>,
    pub pub_key: Vec<u8>,
}

impl KemKeyExchange {
    /// The keys are a pair generated from some seed.
    pub open spec fn wf(&self) -> bool {
        exists|seed: Seq<u8>|
            seed.len() == 64 && #[trigger] mlkem768_key_pair(seed) == (self.priv_key@, self.pub_key@)
                && self.priv_key@.len() == MLKEM768_PRIVATE_KEY_LEN
                && self.pub_key@.len() == MLKEM768_PUBLIC_KEY_LEN
    }

    /// Completes the exchange: decapsulates the peer's ciphertext.
    pub fn complete(self, peer: &[u8]) -> (res: Result<Vec<u8>, TlsError>)
        requires
            self.wf(),
        ensures
            secret_result_view(res) == mlkem768_agreement(peer@, self.priv_key@),
    {
        if peer.len() != MLKEM768_CIPHERTEXT_LEN {
            return Err(TlsError::General(GeneralError::EcdhDerive));
        }
        let ss = mlkem768_decapsulate(self.priv_key.as_slice(), peer);
        Ok(vstd::slice::slice_to_vec(ss.as_slice()))
    }

    /// Our encapsulation key.
    pub fn pub_key(&self) -> (pk: &[u8])
        ensures
            pk@ == self.pub_key@,
    {
        self.pub_key.as_slice()
    }

    /// The group of this exchange.
    pub fn group(&self) -> (g: u16)
        ensures
            g == GROUP_MLKEM768,
    {
        GROUP_MLKEM768
    }
}

impl Kem {
    /// Starts an exchange with a freshly generated key pair.
    pub fn start(&self) -> (res: Result<KemKeyExchange, TlsError>)
        ensures
            match res {
                Ok(k) => k.wf(),
                Err(e) => e == TlsError::General(GeneralError::MlKemKeygen),
            },
    {
        match random_64() {
            Some(seed) => Ok(self.start_from_seed(seed)),
            None => Err(TlsError::General(GeneralError::MlKemKeygen)),
        }
    }

    /// Starts an exchange with the key pair of the given seed.
    pub fn start_from_seed(&self, seed: [u8; 64]) -> (k: KemKeyExchange)
        ensures
            (k.priv_key@, k.pub_key@) == mlkem768_key_pair(seed@),
            k.wf(),
    {
        let (priv_key, pub_key) = mlkem768_generate_key_pair(seed);
        KemKeyExchange { priv_key, pub_key }
    }

    /// Encapsulates to the peer's encapsulation key with fresh randomness.
    pub fn start_and_complete(&self, peer_pub_key: &[u8]) -> (res: Result<
        CompletedKeyExchange,
        TlsError,
    >)
        ensures
            peer_pub_key@.len() != MLKEM768_PUBLIC_KEY_LEN ==> res == Err::<CompletedKeyExchange, TlsError>(
                TlsError::General(GeneralError::MlKemPubkey),
            ),
            peer_pub_key@.len() == MLKEM768_PUBLIC_KEY_LEN ==> match res {
                Ok(c) => exists|r: Seq<u8>|
                    r.len() == 32 && completed_result_view(res) == mlkem768_exchange(peer_pub_key@, r),
                Err(e) => e == TlsError::General(GeneralError::MlKemEncaps),
            },
    {
        if peer_pub_key.len() != MLKEM768_PUBLIC_KEY_LEN {
            return Err(TlsError::General(GeneralError::MlKemPubkey));
        }
        match random_32() {
            Some(randomness) => {
                let res = self.complete_with_randomness(peer_pub_key, randomness);
                assert(randomness@.len() == 32);
                res
            },
            None => Err(TlsError::General(GeneralError::MlKemEncaps)),
        }
    }

    /// Encapsulates to the peer's encapsulation key with the given randomness: the
    /// ciphertext is sent back and the encapsulated secret is shared.
    pub fn complete_with_randomness(&self, peer_pub_key: &[u8], randomness: [u8; 32]) -> (res:
        Result<CompletedKeyExchange, TlsError>)
        ensures
            completed_result_view(res) == mlkem768_exchange(peer_pub_key@, randomness@),
    {
        if peer_pub_key.len() != MLKEM768_PUBLIC_KEY_LEN {
            return Err(TlsError::General(GeneralError::MlKemPubkey));
        }
        let (ct, ss) = mlkem768_encapsulate(peer_pub_key, randomness);
        Ok(
            CompletedKeyExchange {
                group: self.name(),
                pub_key: ct,
                secret: vstd::slice::slice_to_vec(ss.as_slice()),
            },
        )
    }

    /// The group's code point.
    pub fn name(&self) -> (g: u16)
        ensures
            g == GROUP_MLKEM768,
    {
        GROUP_MLKEM768
    }
}

/// The server's side of the ML-KEM-768 exchange answers with the ciphertext of the
/// encapsulation to the client's key and keeps that encapsulation's shared secret,
/// unchanged; a client share that is not an encapsulation key is refused.
pub proof fn lemma_mlkem768_exchange_is_encapsulation(peer: Seq<u8>, randomness: Seq<u8>)
    ensures
        peer.len() == 1184 ==> mlkem768_exchange(peer, randomness) == Ok::<(u16, Seq<u8>, Seq<u8>), TlsError>(
            (
                0x0201u16,
                mlkem768_encapsulation(peer, randomness).0,
                mlkem768_encapsulation(peer, randomness).1,
            ),
        ),
        peer.len() != 1184 ==> mlkem768_exchange(peer, randomness) == Err::<(u16, Seq<u8>, Seq<u8>), TlsError>(
            TlsError::General(GeneralError::MlKemPubkey),
        ),
{
}

/// The client's side of the ML-KEM-768 exchange keeps the decapsulation of the server's
/// ciphertext under its own key, unchanged; a share that is not a ciphertext is refused.
pub proof fn lemma_mlkem768_agreement_is_decapsulation(peer: Seq<u8>, sk: Seq<u8>)
    ensures
        peer.len() == 1088 ==> mlkem768_agreement(peer, sk) == Ok::<Seq<u8>, TlsError>(
            mlkem768_decapsulation(sk, peer),
        ),
        peer.len() != 1088 ==> mlkem768_agreement(peer, sk) == Err::<Seq<u8>, TlsError>(
            TlsError::General(GeneralError::EcdhDerive),
        ),
{
}

/// What the two sides of the ML-KEM-768 exchange keep: the server keeps the secret of its
/// encapsulation to the client's key, and the client, completing with the server's
/// answer, keeps the decapsulation of that same ciphertext under its own key.
pub proof fn lemma_mlkem768_sides(pk: Seq<u8>, sk: Seq<u8>, randomness: Seq<u8>)
    requires
        pk.len() == 1184,
        mlkem768_encapsulation(pk, randomness).0.len() == 1088,
    ensures
        mlkem768_exchange(pk, randomness) matches Ok((_, ct, ss)) && ss == mlkem768_encapsulation(pk, randomness).1
            && mlkem768_agreement(ct, sk) == Ok::<Seq<u8>, TlsError>(
            mlkem768_decapsulation(sk, mlkem768_encapsulation(pk, randomness).0),
        ),
{
}

/// The one-step X25519 exchange sends our public key and keeps the X25519 shared secret
/// of the peer's key and our secret, unchanged; a peer key that is not 32 bytes is
/// refused.
pub proof fn lemma_nike_exchange_is_x25519(peer: Seq<u8>, sk: Seq<u8>)
    ensures
        peer.len() == 32 ==> nike_exchange(peer, sk) == match x25519_shared_secret(peer, sk) {
            Some(ss) => Ok::<(u16, Seq<u8>, Seq<u8>), TlsError>((0x001du16, x25519_public_key(sk), ss)),
            None => Err(TlsError::General(GeneralError::DerivationFailed)),
        },
        peer.len() != 32 ==> nike_exchange(peer, sk) == Err::<(u16, Seq<u8>, Seq<u8>), TlsError>(
            TlsError::General(GeneralError::InvalidPublicKey),
        ),
{
}

} // verus!
