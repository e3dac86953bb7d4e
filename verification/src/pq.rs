//! The hybrid X25519MLKEM768 key exchange: ML-KEM-768 and X25519 side by side, with
//! the ML-KEM part first in every share and in the combined secret.

use vstd::prelude::*;

use crate::backend::{
    mlkem768_decapsulate, mlkem768_decapsulation, mlkem768_encapsulate, mlkem768_encapsulation,
    mlkem768_generate_key_pair, mlkem768_key_pair, x25519_public_key, x25519_shared_secret,
};
use crate::error::{GeneralError, PeerMisbehaved, TlsError};
use crate::kx::{
    completed_result_view, completed_view, nike_exchange, secret_result_view, x25519_agreement,
    ActiveNike, CompletedKeyExchange, Nike,
};
use crate::random::{random_32, random_64};
use crate::record::TLS13_VERSION;

verus! {

/// Length of an X25519 share.
pub const X25519_LEN: usize = 32;

/// Length of an ML-KEM-768 ciphertext.
pub const MLKEM768_CIPHERTEXT_LEN: usize = 1088;

/// Length of an ML-KEM-768 encapsulation key.
pub const MLKEM768_ENCAP_LEN: usize = 1184;

/// Length of an ML-KEM-768 shared secret.
pub const MLKEM768_SECRET_LEN: usize = 32;

/// Length of the client's combined share.
pub const COMBINED_PUBKEY_LEN: usize = MLKEM768_ENCAP_LEN + X25519_LEN;

/// Length of the server's combined share.
pub const COMBINED_CIPHERTEXT_LEN: usize = MLKEM768_CIPHERTEXT_LEN + X25519_LEN;

/// Length of the combined shared secret.
pub const COMBINED_SHARED_SECRET_LEN: usize = MLKEM768_SECRET_LEN + X25519_LEN;

/// TLS code point of the X25519MLKEM768 group.
pub const NAMED_GROUP: u16 = 0x11ec;

/// The error for a share of the wrong shape.
pub open spec fn invalid_key_share() -> TlsError {
    TlsError::PeerMisbehaved(PeerMisbehaved::InvalidKeyShare)
}

/// The client's share split into its ML-KEM encapsulation key and its X25519 key.
pub open spec fn split_share(buf: Seq<u8>) -> Option<(Seq<u8>, Seq<u8>)> {
    if buf.len() != COMBINED_PUBKEY_LEN {
        None
    } else {
        Some((buf.subrange(0, MLKEM768_ENCAP_LEN as int), buf.subrange(MLKEM768_ENCAP_LEN as int, buf.len() as int)))
    }
}

/// The server's share split into its ML-KEM ciphertext and its X25519 key.
pub open spec fn split_ciphertext(buf: Seq<u8>) -> Option<(Seq<u8>, Seq<u8>)> {
    if buf.len() != COMBINED_CIPHERTEXT_LEN {
        None
    } else {
        Some(
            (
                buf.subrange(0, MLKEM768_CIPHERTEXT_LEN as int),
                buf.subrange(MLKEM768_CIPHERTEXT_LEN as int, buf.len() as int),
            ),
        )
    }
}

/// The combined secret or share: the ML-KEM part, then the X25519 part.
pub open spec fn combine(ml_kem: Seq<u8>, x25519: Seq<u8>) -> Seq<u8> {
    ml_kem + x25519
}

/// The client's share as received: its ML-KEM and its X25519 parts.
#[derive(Debug)]
pub struct ReceivedShare<'a> {
    pub ml_kem: &'a [u8],
    pub x25519: &'a [u8],
}

impl<'a> ReceivedShare<'a> {
    /// Splits a client share; `None` unless it has exactly the combined length.
    pub fn new(buf: &'a [u8]) -> (res: Option<ReceivedShare<'a>>)
        ensures
            match res {
                Some(s) => split_share(buf@) == Some((s.ml_kem@, s.x25519@)),
                None => split_share(buf@) is None,
            },
    {
        if buf.len() != COMBINED_PUBKEY_LEN {
            return None;
        }
        let ml_kem = vstd::slice::slice_subrange(buf, 0, MLKEM768_ENCAP_LEN);
        let x25519 = vstd::slice::slice_subrange(buf, MLKEM768_ENCAP_LEN, buf.len());
        Some(ReceivedShare { ml_kem, x25519 })
    }
}

/// The server's share as received: its ML-KEM ciphertext and its X25519 part.
#[derive(Debug)]
pub struct ReceivedCiphertext<'a> {
    pub ml_kem: &'a [u8],
    pub x25519: &'a [u8],
}

impl<'a> ReceivedCiphertext<'a> {
    /// Splits a server share; `None` unless it has exactly the combined length.
    pub fn new(buf: &'a [u8]) -> (res: Option<ReceivedCiphertext<'a>>)
        ensures
            match res {
                Some(s) => split_ciphertext(buf@) == Some((s.ml_kem@, s.x25519@)),
                None => split_ciphertext(buf@) is None,
            },
    {
        if buf.len() != COMBINED_CIPHERTEXT_LEN {
            return None;
        }
        let ml_kem = vstd::slice::slice_subrange(buf, 0, MLKEM768_CIPHERTEXT_LEN);
        let x25519 = vstd::slice::slice_subrange(buf, MLKEM768_CIPHERTEXT_LEN, buf.len());
        Some(ReceivedCiphertext { ml_kem, x25519 })
    }
}

/// The combined shared secret.
#[derive(Debug)]
pub struct CombinedSecret(pub [u8; 64]);

impl CombinedSecret {
    /// The ML-KEM secret followed by the 32-byte X25519 secret.
    pub fn combine(x25519: &[u8], ml_kem: [u8; 32]) -> (out: CombinedSecret)
        requires
            x25519@.len() == X25519_LEN,
        ensures
            out.0@ == combine(ml_kem@, x25519@),
    {
        let mut out = [0u8; 64];
        let mut i: usize = 0;
        while i < 64
            invariant
                i <= 64,
                x25519@.len() == 32,
                forall|j: int| 0 <= j < i ==> out@[j] == combine(ml_kem@, x25519@)[j],
            decreases 64 - i,
        {
            if i < MLKEM768_SECRET_LEN {
                out[i] = ml_kem[i];
            } else {
                out[i] = x25519[i - MLKEM768_SECRET_LEN];
            }
            i = i + 1;
        }
        assert(out@ =~= combine(ml_kem@, x25519@));
        CombinedSecret(out)
    }
}

/// The server's combined share.
#[derive(Debug)]
pub struct CombinedShare(pub Vec<u8>);

impl CombinedShare {
    /// The ML-KEM ciphertext followed by the 32-byte X25519 share.
    pub fn combine(x25519: &[u8], ml_kem: Vec<u8>) -> (out: CombinedShare)
        requires
            x25519@.len() == X25519_LEN,
            ml_kem@.len() == MLKEM768_CIPHERTEXT_LEN,
        ensures
            out.0@ == combine(ml_kem@, x25519@),
    {
        let mut out = ml_kem;
        let mut x = vstd::slice::slice_to_vec(x25519);
        out.append(&mut x);
        CombinedShare(out)
    }
}

/// The X25519MLKEM768 group.
#[derive(Debug)]
pub struct X25519MlKem768;

/// A started hybrid exchange: the X25519 half, the ML-KEM key pair (decapsulation key,
/// encapsulation key) and the combined share sent to the server.
#[derive(Debug)]
pub struct Active {
    pub x25519: ActiveNike,
    pub key_pair: (Vec<u8>, Vec<u8>),
    pub combined_pub_key: Vec<u8>,
}

impl Active {
    /// The X25519 half is consistent, the ML-KEM keys form a pair of some seed, and the
    /// share is the ML-KEM encapsulation key followed by the X25519 public key.
    pub open spec fn wf(&self) -> bool {
        &&& self.x25519.wf()
        &&& exists|seed: Seq<u8>|
            seed.len() == 64 && #[trigger] mlkem768_key_pair(seed) == (self.key_pair.0@, self.key_pair.1@)
        &&& self.key_pair.0@.len() == 2400
        &&& self.key_pair.1@.len() == MLKEM768_ENCAP_LEN
        &&& self.combined_pub_key@ == combine(self.key_pair.1@, self.x25519.pub_key@)
        &&& self.combined_pub_key@.len() == COMBINED_PUBKEY_LEN
    }

    /// Completes the exchange with the server's combined share: decapsulates the ML-KEM
    /// ciphertext, completes the X25519 half, and combines the two secrets.
    pub fn complete(self, peer_pub_key: &[u8]) -> (res: Result<Vec<u8>, TlsError>)
        requires
            self.wf(),
        ensures
            secret_result_view(res) == hybrid_client_secret(
                peer_pub_key@,
                self.key_pair.0@,
                self.x25519.priv_key@,
            ),
    {
        let ciphertext = match ReceivedCiphertext::new(peer_pub_key) {
            Some(c) => c,
            None => return Err(TlsError::PeerMisbehaved(PeerMisbehaved::InvalidKeyShare)),
        };
        let x25519_secret = match self.x25519.complete(ciphertext.x25519) {
            Ok(s) => s,
            Err(e) => return Err(e),
        };
        let ml_kem_secret = mlkem768_decapsulate(self.key_pair.0.as_slice(), ciphertext.ml_kem);
        let combined = CombinedSecret::combine(x25519_secret.as_slice(), ml_kem_secret);
        Ok(vstd::slice::slice_to_vec(combined.0.as_slice()))
    }

    /// The combined share to send.
    pub fn pub_key(&self) -> (pk: &[u8])
        ensures
            pk@ == self.combined_pub_key@,
    {
        self.combined_pub_key.as_slice()
    }

    /// The group of this exchange.
    pub fn group(&self) -> (g: u16)
        ensures
            g == NAMED_GROUP,
    {
        NAMED_GROUP
    }
}

/// The client's shared secret from the server's share, under the ML-KEM decapsulation
/// key `sk` and the X25519 secret `x_sk`.
pub open spec fn hybrid_client_secret(peer: Seq<u8>, sk: Seq<u8>, x_sk: Seq<u8>) -> Result<
    Seq<u8>,
    TlsError,
> {
    match split_ciphertext(peer) {
        None => Err(invalid_key_share()),
        Some((ct, x_share)) => match x25519_agreement(x_share, x_sk) {
            Err(e) => Err(e),
            Ok(x_ss) => Ok(combine(mlkem768_decapsulation(sk, ct), x_ss)),
        },
    }
}

/// The server's side of the exchange with the client's share, under the X25519 secret
/// `x_sk` and the ML-KEM randomness `r`: the share to send back and the shared secret.
pub open spec fn hybrid_server_exchange(client_share: Seq<u8>, x_sk: Seq<u8>, r: Seq<u8>) -> Result<
    (u16, Seq<u8>, Seq<u8>),
    TlsError,
> {
    match split_share(client_share) {
        None => Err(invalid_key_share()),
        Some((pk, x_share)) => match nike_exchange(x_share, x_sk) {
            Err(e) => Err(e),
            Ok((_, x_pub, x_ss)) => {
                let (ct, ss) = mlkem768_encapsulation(pk, r);
                Ok((NAMED_GROUP, combine(ct, x_pub), combine(ss, x_ss)))
            },
        },
    }
}

impl X25519MlKem768 {
    /// Starts a client exchange with fresh keys.
    pub fn start(&self) -> (res: Result<Active, TlsError>)
        ensures
            match res {
                Ok(a) => a.wf(),
                Err(e) => e == TlsError::FailedToGetRandomBytes,
            },
    {
        let x25519_secret = match random_32() {
            Some(s) => s,
            None => return Err(TlsError::FailedToGetRandomBytes),
        };
        let seed = match random_64() {
            Some(s) => s,
            None => return Err(TlsError::FailedToGetRandomBytes),
        };
        Ok(self.start_from_randomness(x25519_secret, seed))
    }

    /// Starts a client exchange with the given X25519 secret and ML-KEM seed: the share
    /// is the encapsulation key of the seed's key pair followed by the X25519 public key.
    pub fn start_from_randomness(&self, x25519_secret: [u8; 32], seed: [u8; 64]) -> (a: Active)
        ensures
            a.wf(),
            a.x25519.priv_key == x25519_secret,
            (a.key_pair.0@, a.key_pair.1@) == mlkem768_key_pair(seed@),
            a.combined_pub_key@ == combine(mlkem768_key_pair(seed@).1, x25519_public_key(x25519_secret@)),
            a.combined_pub_key@.len() == COMBINED_PUBKEY_LEN,
            a.combined_pub_key@.subrange(0, MLKEM768_ENCAP_LEN as int) == mlkem768_key_pair(seed@).1,
            a.combined_pub_key@.subrange(MLKEM768_ENCAP_LEN as int, COMBINED_PUBKEY_LEN as int)
                == x25519_public_key(x25519_secret@),
    {
        let x25519 = Nike.start_from_secret(x25519_secret);
        let (sk, pk) = mlkem768_generate_key_pair(seed);
        let mut combined_pub_key = vstd::slice::slice_to_vec(pk.as_slice());
        let mut x_pub = vstd::slice::slice_to_vec(x25519.pub_key());
        combined_pub_key.append(&mut x_pub);
        let a = Active { x25519, key_pair: (sk, pk), combined_pub_key };
        assert(a.combined_pub_key@.subrange(0, MLKEM768_ENCAP_LEN as int) =~= a.key_pair.1@);
        assert(a.combined_pub_key@.subrange(MLKEM768_ENCAP_LEN as int, COMBINED_PUBKEY_LEN as int)
            =~= a.x25519.pub_key@);
        a
    }

    /// The server's side: answers the client's combined share with fresh randomness.
    pub fn start_and_complete(&self, client_share: &[u8]) -> (res: Result<
        CompletedKeyExchange,
        TlsError,
    >)
        ensures
            split_share(client_share@) is None ==> res == Err::<CompletedKeyExchange, TlsError>(
                invalid_key_share(),
            ),
            match res {
                Ok(c) => exists|x_sk: Seq<u8>, r: Seq<u8>|
                    x_sk.len() == 32 && r.len() == 32 && #[trigger] hybrid_server_exchange(
                        client_share@,
                        x_sk,
                        r,
                    ) == Ok::<(u16, Seq<u8>, Seq<u8>), TlsError>(completed_view(c)),
                Err(e) => e == TlsError::FailedToGetRandomBytes || exists|x_sk: Seq<u8>, r: Seq<u8>|
                    x_sk.len() == 32 && r.len() == 32 && #[trigger] hybrid_server_exchange(
                        client_share@,
                        x_sk,
                        r,
                    ) == Err::<(u16, Seq<u8>, Seq<u8>), TlsError>(e),
            },
    {
        if client_share.len() != COMBINED_PUBKEY_LEN {
            let ghost zeros = Seq::new(32, |i: int| 0u8);
            assert(hybrid_server_exchange(client_share@, zeros, zeros) == Err::<
                (u16, Seq<u8>, Seq<u8>),
                TlsError,
            >(invalid_key_share()));
            return Err(TlsError::PeerMisbehaved(PeerMisbehaved::InvalidKeyShare));
        }
        let x25519_secret = match random_32() {
            Some(s) => s,
            None => return Err(TlsError::FailedToGetRandomBytes),
        };
        let randomness = match random_32() {
            Some(r) => r,
            None => return Err(TlsError::FailedToGetRandomBytes),
        };
        let res = self.complete_with_randomness(client_share, x25519_secret, randomness);
        assert(hybrid_server_exchange(client_share@, x25519_secret@, randomness@) == completed_result_view(res));
        res
    }

    /// The server's side with the given X25519 secret and ML-KEM randomness: the share
    /// sent back is the ML-KEM ciphertext followed by our X25519 public key, and the
    /// secret is the ML-KEM secret followed by the X25519 secret.
    pub fn complete_with_randomness(
        &self,
        client_share: &[u8],
        x25519_secret: [u8; 32],
        randomness: [u8; 32],
    ) -> (res: Result<CompletedKeyExchange, TlsError>)
        ensures
            completed_result_view(res) == hybrid_server_exchange(
                client_share@,
                x25519_secret@,
                randomness@,
            ),
            res matches Ok(c) ==> c.pub_key@.len() == COMBINED_CIPHERTEXT_LEN && c.secret@.len()
                == COMBINED_SHARED_SECRET_LEN,
    {
        let share = match ReceivedShare::new(client_share) {
            Some(s) => s,
            None => return Err(TlsError::PeerMisbehaved(PeerMisbehaved::InvalidKeyShare)),
        };
        let x25519 = match Nike.complete_from_secret(share.x25519, x25519_secret) {
            Ok(c) => c,
            Err(e) => return Err(e),
        };
        let (ml_kem_share, ml_kem_secret) = mlkem768_encapsulate(share.ml_kem, randomness);
        let combined_secret = CombinedSecret::combine(x25519.secret.as_slice(), ml_kem_secret);
        let combined_share = CombinedShare::combine(x25519.pub_key.as_slice(), ml_kem_share);
        Ok(
            CompletedKeyExchange {
                group: self.name(),
                pub_key: combined_share.0,
                secret: vstd::slice::slice_to_vec(combined_secret.0.as_slice()),
            },
        )
    }

    /// The group's code point.
    pub fn name(&self) -> (g: u16)
        ensures
            g == NAMED_GROUP,
    {
        NAMED_GROUP
    }

    /// The group is offered for TLS 1.3 only.
    pub fn usable_for_version(&self, version: u16) -> (b: bool)
        ensures
            b == (version == TLS13_VERSION),
    {
        version == TLS13_VERSION
    }
}

/// Splitting the server's combined share gives back the ML-KEM ciphertext and the X25519
/// share it was combined from.
pub proof fn lemma_split_ciphertext_of_combine(ml_kem: Seq<u8>, x25519: Seq<u8>)
    requires
        ml_kem.len() == MLKEM768_CIPHERTEXT_LEN,
        x25519.len() == X25519_LEN,
    ensures
        split_ciphertext(combine(ml_kem, x25519)) == Some((ml_kem, x25519)),
{
    let c = combine(ml_kem, x25519);
    assert(c.subrange(0, MLKEM768_CIPHERTEXT_LEN as int) =~= ml_kem);
    assert(c.subrange(MLKEM768_CIPHERTEXT_LEN as int, c.len() as int) =~= x25519);
}

/// Splitting the client's combined share gives back the ML-KEM encapsulation key and the
/// X25519 public key it was combined from.
pub proof fn lemma_split_share_of_combine(ml_kem: Seq<u8>, x25519: Seq<u8>)
    requires
        ml_kem.len() == MLKEM768_ENCAP_LEN,
        x25519.len() == X25519_LEN,
    ensures
        split_share(combine(ml_kem, x25519)) == Some((ml_kem, x25519)),
{
    let c = combine(ml_kem, x25519);
    assert(c.subrange(0, MLKEM768_ENCAP_LEN as int) =~= ml_kem);
    assert(c.subrange(MLKEM768_ENCAP_LEN as int, c.len() as int) =~= x25519);
}

/// The client's hybrid secret is the ML-KEM-768 secret (the decapsulation of the first
/// 1088 bytes of the server's share) followed by the X25519 secret (of the last 32 bytes
/// and the client's X25519 key). A share of another length is refused.
pub proof fn lemma_hybrid_client_secret_parts(peer: Seq<u8>, sk: Seq<u8>, x_sk: Seq<u8>)
    ensures
        peer.len() == 1120 ==> hybrid_client_secret(peer, sk, x_sk) == match x25519_shared_secret(
            peer.subrange(1088, 1120),
            x_sk,
        ) {
            Some(x) => Ok::<Seq<u8>, TlsError>(mlkem768_decapsulation(sk, peer.subrange(0, 1088)) + x),
            None => Err(TlsError::General(GeneralError::DerivationFailed)),
        },
        peer.len() != 1120 ==> hybrid_client_secret(peer, sk, x_sk) == Err::<Seq<u8>, TlsError>(
            TlsError::PeerMisbehaved(PeerMisbehaved::InvalidKeyShare),
        ),
{
}

/// The server's hybrid answer: its share is the ML-KEM-768 ciphertext to the first 1184
/// bytes of the client's share followed by its own X25519 public key, and its secret is
/// that encapsulation's secret followed by the X25519 secret of the client's last 32
/// bytes. A share of another length is refused.
pub proof fn lemma_hybrid_server_exchange_parts(share: Seq<u8>, x_sk: Seq<u8>, r: Seq<u8>)
    ensures
        share.len() == 1216 ==> hybrid_server_exchange(share, x_sk, r) == match x25519_shared_secret(
            share.subrange(1184, 1216),
            x_sk,
        ) {
            Some(x) => Ok::<(u16, Seq<u8>, Seq<u8>), TlsError>(
                (
                    0x11ecu16,
                    mlkem768_encapsulation(share.subrange(0, 1184), r).0 + x25519_public_key(x_sk),
                    mlkem768_encapsulation(share.subrange(0, 1184), r).1 + x,
                ),
            ),
            None => Err(TlsError::General(GeneralError::DerivationFailed)),
        },
        share.len() != 1216 ==> hybrid_server_exchange(share, x_sk, r) == Err::<(u16, Seq<u8>, Seq<u8>), TlsError>(
            TlsError::PeerMisbehaved(PeerMisbehaved::InvalidKeyShare),
        ),
{
}

/// Where the ML-KEM-768 secret is 32 bytes, the hybrid secret's first 32 bytes are the
/// ML-KEM-768 secret and its last 32 bytes the X25519 secret, on both sides.
pub proof fn lemma_hybrid_secret_halves(
    share: Seq<u8>,
    x_sk: Seq<u8>,
    r: Seq<u8>,
    peer: Seq<u8>,
    sk: Seq<u8>,
    client_x_sk: Seq<u8>,
)
    requires
        share.len() == 1216,
        peer.len() == 1120,
        mlkem768_encapsulation(share.subrange(0, 1184), r).1.len() == 32,
        mlkem768_decapsulation(sk, peer.subrange(0, 1088)).len() == 32,
    ensures
        hybrid_server_exchange(share, x_sk, r) matches Ok((_, _, ss)) ==> ss.subrange(0, 32)
            == mlkem768_encapsulation(share.subrange(0, 1184), r).1 && Some(ss.subrange(32, ss.len() as int))
            == x25519_shared_secret(share.subrange(1184, 1216), x_sk),
        hybrid_client_secret(peer, sk, client_x_sk) matches Ok(ss) ==> ss.subrange(0, 32) == mlkem768_decapsulation(
            sk,
            peer.subrange(0, 1088),
        ) && Some(ss.subrange(32, ss.len() as int)) == x25519_shared_secret(
            peer.subrange(1088, 1120),
            client_x_sk,
        ),
{
    lemma_hybrid_server_exchange_parts(share, x_sk, r);
    lemma_hybrid_client_secret_parts(peer, sk, client_x_sk);
    let e = mlkem768_encapsulation(share.subrange(0, 1184), r).1;
    let d = mlkem768_decapsulation(sk, peer.subrange(0, 1088));
    if let Some(x) = x25519_shared_secret(share.subrange(1184, 1216), x_sk) {
        assert((e + x).subrange(0, 32) =~= e);
        assert((e + x).subrange(32, (e + x).len() as int) =~= x);
    }
    if let Some(x) = x25519_shared_secret(peer.subrange(1088, 1120), client_x_sk) {
        assert((d + x).subrange(0, 32) =~= d);
        assert((d + x).subrange(32, (d + x).len() as int) =~= x);
    }
}

} // verus!
