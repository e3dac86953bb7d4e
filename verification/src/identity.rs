//! The key identity document: a PKCS#8 `OneAsymmetricKey` (RFC 5958) that stands for a
//! P-256 key held elsewhere. It names the algorithm and curve, carries a placeholder
//! private key, the key's identifier as a `localKeyID` attribute and the public key,
//! and is written out in DER and then in PEM.

use vstd::prelude::*;

use crate::ecdsa_der::{be_value, der_length, long_form_octet, MAX_DER_LENGTH};

verus! {

/// The error type of the PEM encoder that the `der` crate re-exports.
#[verifier::external_type_specification]
#[verifier::external_body]
pub struct ExPemError(der::pem::Error);

/// The PEM text (RFC 7468) of the DER document `der` under the label `PRIVATE KEY`, with
/// lines ended by a line feed.
pub uninterp spec fn pem_private_key_text(der: Seq<u8>) -> Seq<char>;

/// Calls `der::pem::encode_string` with the label `PRIVATE KEY` and line-feed line
/// endings: the named text. Its source fails only where a length computation overflows,
/// which no input shorter than `0x1000_0000` bytes reaches.
#[verifier::external_body]
fn pem_encode(der: &[u8]) -> (res: Result<String, der::pem::Error>)
    ensures
        res matches Ok(s) ==> s@ == pem_private_key_text(der@),
        der@.len() <= 0x1000_0000 ==> res is Ok,
{
    der::pem::encode_string("PRIVATE KEY", der::pem::LineEnding::LF, der)
}

/// The DER length octets of `n` (definite form, as few octets as possible), for
/// `n <= MAX_DER_LENGTH`.
pub open spec fn der_length_octets(n: nat) -> Seq<u8> {
    if n < 0x80 {
        seq![n as u8]
    } else if n < 0x100 {
        seq![0x81u8, n as u8]
    } else if n < 0x1_0000 {
        seq![0x82u8, (n / 0x100) as u8, (n % 0x100) as u8]
    } else if n < 0x100_0000 {
        seq![0x83u8, (n / 0x1_0000) as u8, ((n / 0x100) % 0x100) as u8, (n % 0x100) as u8]
    } else {
        seq![
            0x84u8,
            (n / 0x100_0000) as u8,
            ((n / 0x1_0000) % 0x100) as u8,
            ((n / 0x100) % 0x100) as u8,
            (n % 0x100) as u8,
        ]
    }
}

/// A DER element: its tag, the length of its content, and the content.
pub open spec fn tlv(tag: u8, content: Seq<u8>) -> Seq<u8> {
    seq![tag] + der_length_octets(content.len()) + content
}

/// The encoded `INTEGER 1`: the version of a `OneAsymmetricKey` that carries a public
/// key, and of an `ECPrivateKey`.
pub open spec fn version_one() -> Seq<u8> {
    seq![0x02u8, 0x01u8, 0x01u8]
}

/// The encoded object identifier `id-ecPublicKey` (1.2.840.10045.2.1).
pub open spec fn oid_ec_public_key() -> Seq<u8> {
    seq![0x06u8, 0x07u8, 0x2Au8, 0x86u8, 0x48u8, 0xCEu8, 0x3Du8, 0x02u8, 0x01u8]
}

/// The encoded object identifier `prime256v1` (1.2.840.10045.3.1.7).
pub open spec fn oid_prime256v1() -> Seq<u8> {
    seq![0x06u8, 0x08u8, 0x2Au8, 0x86u8, 0x48u8, 0xCEu8, 0x3Du8, 0x03u8, 0x01u8, 0x07u8]
}

/// The encoded object identifier `localKeyID` of PKCS#9 (1.2.840.113549.1.9.21).
pub open spec fn oid_local_key_id() -> Seq<u8> {
    seq![0x06u8, 0x09u8, 0x2Au8, 0x86u8, 0x48u8, 0x86u8, 0xF7u8, 0x0Du8, 0x01u8, 0x09u8, 0x15u8]
}

/// The encoded algorithm identifier of an ECDSA key on P-256.
pub open spec fn ec_p256_algorithm() -> Seq<u8> {
    tlv(0x30, oid_ec_public_key() + oid_prime256v1())
}

/// The identity document in DER: version, algorithm, the private key octets `private_key`,
/// the attribute `attribute` (as the only member of the attribute set) and the public
/// key `public_key` (a bit string without unused bits).
pub open spec fn identity_der(private_key: Seq<u8>, attribute: Seq<u8>, public_key: Seq<u8>) -> Seq<u8> {
    tlv(0x30, identity_content(private_key, attribute, public_key))
}

/// The content of the identity document's outer `SEQUENCE`.
pub open spec fn identity_content(private_key: Seq<u8>, attribute: Seq<u8>, public_key: Seq<u8>) -> Seq<u8> {
    version_one() + ec_p256_algorithm() + tlv(0x04, private_key) + tlv(0xA0, attribute) + tlv(
        0x81,
        seq![0x00u8] + public_key,
    )
}

/// Whether the `der` crate takes `n` bytes as the content of a `BIT STRING`: the length
/// must fit a DER length and the number of bits must fit a `usize`.
pub open spec fn bit_string_fits(n: nat) -> bool {
    n <= MAX_DER_LENGTH && n * 8 <= usize::MAX
}

/// Checks `bit_string_fits`.
pub fn check_bit_string_fits(n: usize) -> (fits: bool)
    ensures
        fits == bit_string_fits(n as nat),
{
    n as u64 <= MAX_DER_LENGTH && n <= usize::MAX / 8
}

fn length_octets(n: usize) -> (out: Vec<u8>)
    requires
        n <= MAX_DER_LENGTH,
    ensures
        out@ == der_length_octets(n as nat),
{
    if n < 0x80 {
        vec![n as u8]
    } else if n < 0x100 {
        vec![0x81u8, n as u8]
    } else if n < 0x1_0000 {
        vec![0x82u8, (n / 0x100) as u8, (n % 0x100) as u8]
    } else if n < 0x100_0000 {
        vec![0x83u8, (n / 0x1_0000) as u8, ((n / 0x100) % 0x100) as u8, (n % 0x100) as u8]
    } else {
        vec![
            0x84u8,
            (n / 0x100_0000) as u8,
            ((n / 0x1_0000) % 0x100) as u8,
            ((n / 0x100) % 0x100) as u8,
            (n % 0x100) as u8,
        ]
    }
}

/// Encodes a DER element, or `None` where the content is too long for a DER length.
pub fn encode_tlv(tag: u8, content: &[u8]) -> (out: Option<Vec<u8>>)
    ensures
        match out {
            Some(v) => content@.len() <= MAX_DER_LENGTH && v@ == tlv(tag, content@),
            None => content@.len() > MAX_DER_LENGTH,
        },
{
    if content.len() as u64 > MAX_DER_LENGTH {
        return None;
    }
    let mut out = vec![tag];
    let mut len = length_octets(content.len());
    out.append(&mut len);
    let mut body = vstd::slice::slice_to_vec(content);
    out.append(&mut body);
    Some(out)
}

fn join(a: Vec<u8>, b: Vec<u8>) -> (out: Vec<u8>)
    ensures
        out@ == a@ + b@,
{
    let mut a = a;
    let mut b = b;
    a.append(&mut b);
    a
}

/// Encodes the identity document, or `None` where its content is too long for a DER
/// length (every part is then short enough too, being a part of it).
pub fn encode_identity(private_key: &[u8], attribute: &[u8], public_key: &[u8]) -> (out: Option<Vec<u8>>)
    ensures
        match out {
            Some(v) => identity_content(private_key@, attribute@, public_key@).len() <= MAX_DER_LENGTH
                && v@ == identity_der(private_key@, attribute@, public_key@),
            None => identity_content(private_key@, attribute@, public_key@).len() > MAX_DER_LENGTH,
        },
{
    let ghost content = identity_content(private_key@, attribute@, public_key@);
    let mut bits = vec![0x00u8];
    let mut key_bits = vstd::slice::slice_to_vec(public_key);
    bits.append(&mut key_bits);
    let key_field = match encode_tlv(0x04, private_key) {
        Some(v) => v,
        None => return None,
    };
    let attribute_field = match encode_tlv(0xA0, attribute) {
        Some(v) => v,
        None => return None,
    };
    let public_key_field = match encode_tlv(0x81, bits.as_slice()) {
        Some(v) => v,
        None => return None,
    };
    let algorithm = vec![
        0x30u8, 0x13u8,
        0x06u8, 0x07u8, 0x2Au8, 0x86u8, 0x48u8, 0xCEu8, 0x3Du8, 0x02u8, 0x01u8,
        0x06u8, 0x08u8, 0x2Au8, 0x86u8, 0x48u8, 0xCEu8, 0x3Du8, 0x03u8, 0x01u8, 0x07u8,
    ];
    assert(algorithm@ =~= ec_p256_algorithm());
    let version = vec![0x02u8, 0x01u8, 0x01u8];
    assert(version@ =~= version_one());
    let body = join(join(join(join(version, algorithm), key_field), attribute_field), public_key_field);
    assert(body@ =~= content);
    encode_tlv(0x30, body.as_slice())
}

/// The identity document in PEM, or `None` where it cannot be encoded: always where its
/// content is too long for a DER length, never where its DER is shorter than
/// `0x1000_0000` bytes.
pub fn identity_pem(private_key: &[u8], attribute: &[u8], public_key: &[u8]) -> (out: Option<String>)
    ensures
        identity_content(private_key@, attribute@, public_key@).len() > MAX_DER_LENGTH ==> out is None,
        out matches Some(s) ==> s@ == pem_private_key_text(
            identity_der(private_key@, attribute@, public_key@),
        ),
        (identity_der(private_key@, attribute@, public_key@).len() <= 0x1000_0000
            && identity_content(private_key@, attribute@, public_key@).len() <= MAX_DER_LENGTH) ==> out is Some,
{
    let der = match encode_identity(private_key, attribute, public_key) {
        Some(d) => d,
        None => return None,
    };
    match pem_encode(der.as_slice()) {
        Ok(text) => Some(text),
        Err(_) => None,
    }
}

proof fn lemma_be_value_two(a: u8, b: u8)
    ensures
        be_value(seq![a, b]) == a * 256 + b,
{
    assert(seq![a, b].drop_last() =~= seq![a]);
    assert(seq![a].drop_last() =~= Seq::<u8>::empty());
    assert(be_value(Seq::<u8>::empty()) == 0);
    assert(be_value(seq![a]) == a);
}

proof fn lemma_be_value_three(a: u8, b: u8, c: u8)
    ensures
        be_value(seq![a, b, c]) == (a * 256 + b) * 256 + c,
{
    assert(seq![a, b, c].drop_last() =~= seq![a, b]);
    lemma_be_value_two(a, b);
}

proof fn lemma_be_value_four(a: u8, b: u8, c: u8, d: u8)
    ensures
        be_value(seq![a, b, c, d]) == ((a * 256 + b) * 256 + c) * 256 + d,
{
    assert(seq![a, b, c, d].drop_last() =~= seq![a, b, c]);
    lemma_be_value_three(a, b, c);
}

/// The length octets that the encoder writes are read back by the decoder as the same
/// length, whatever follows them: every length up to `MAX_DER_LENGTH` survives the
/// round trip, and the decoder stops right after the octets.
pub proof fn lemma_der_length_roundtrip(n: nat, rest: Seq<u8>)
    requires
        n <= MAX_DER_LENGTH,
    ensures
        der_length(der_length_octets(n) + rest, 0, (der_length_octets(n) + rest).len() as int)
            == Some((n as int, der_length_octets(n).len() as int)),
{
    let b = der_length_octets(n) + rest;
    let octets = der_length_octets(n);
    if n < 0x80 {
        assert(b[0] == n as u8);
        assert(octets.len() == 1);
    } else if n < 0x100 {
        assert(b.subrange(1, 2) =~= seq![n as u8]);
        assert(seq![n as u8].drop_last() =~= Seq::<u8>::empty());
        assert(be_value(Seq::<u8>::empty()) == 0);
        assert(be_value(seq![n as u8]) == n);
        assert(long_form_octet(n) == 0x81);
        assert(b[0] == 0x81u8);
    } else if n < 0x1_0000 {
        let (x1, x0) = ((n / 0x100) as u8, (n % 0x100) as u8);
        assert(b.subrange(1, 3) =~= seq![x1, x0]);
        lemma_be_value_two(x1, x0);
        assert(x1 * 256 + x0 == n) by (nonlinear_arith)
            requires
                x1 == n / 0x100,
                x0 == n % 0x100,
        ;
        assert(long_form_octet(n) == 0x82);
        assert(b[0] == 0x82u8);
    } else if n < 0x100_0000 {
        let (x2, x1, x0) = ((n / 0x1_0000) as u8, ((n / 0x100) % 0x100) as u8, (n % 0x100) as u8);
        assert(b.subrange(1, 4) =~= seq![x2, x1, x0]);
        lemma_be_value_three(x2, x1, x0);
        assert((x2 * 256 + x1) * 256 + x0 == n) by (nonlinear_arith)
            requires
                x2 == n / 0x1_0000,
                x1 == (n / 0x100) % 0x100,
                x0 == n % 0x100,
        ;
        assert(long_form_octet(n) == 0x83);
        assert(b[0] == 0x83u8);
    } else {
        let (x3, x2, x1, x0) = (
            (n / 0x100_0000) as u8,
            ((n / 0x1_0000) % 0x100) as u8,
            ((n / 0x100) % 0x100) as u8,
            (n % 0x100) as u8,
        );
        assert(b.subrange(1, 5) =~= seq![x3, x2, x1, x0]);
        lemma_be_value_four(x3, x2, x1, x0);
        assert(((x3 * 256 + x2) * 256 + x1) * 256 + x0 == n) by (nonlinear_arith)
            requires
                x3 == n / 0x100_0000,
                x2 == (n / 0x1_0000) % 0x100,
                x1 == (n / 0x100) % 0x100,
                x0 == n % 0x100,
        ;
        assert(long_form_octet(n) == 0x84);
        assert(b[0] == 0x84u8);
    }
}

} // verus!
