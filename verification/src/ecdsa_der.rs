//! The DER encoding of ECDSA signatures (`ECDSA-Sig-Value ::= SEQUENCE { r INTEGER,
//! s INTEGER }`): the encoder used when signing and the decoder used when verifying.

use vstd::prelude::*;

verus! {

/// Tag of a DER `INTEGER`.
pub const TAG_INTEGER: u8 = 0x02;

/// Tag of a DER `SEQUENCE`.
pub const TAG_SEQUENCE: u8 = 0x30;

/// The largest length that the DER reader accepts.
pub const MAX_DER_LENGTH: u64 = 0xffff_ffff;

// ----- encoding -----

/// `b` without its leading zero bytes, keeping at least one byte.
pub open spec fn strip_leading_zeros(b: Seq<u8>) -> Seq<u8>
    decreases b.len(),
{
    if b.len() > 1 && b[0] == 0 {
        strip_leading_zeros(b.drop_first())
    } else {
        b
    }
}

/// The content octets of the DER `INTEGER` for the unsigned big-endian value `b`:
/// minimal, with a zero byte in front where the top bit would otherwise be set.
pub open spec fn uint_content(b: Seq<u8>) -> Seq<u8> {
    let m = strip_leading_zeros(b);
    if m.len() > 0 && m[0] >= 0x80 {
        seq![0u8] + m
    } else {
        m
    }
}

/// The DER `INTEGER` (tag, one length octet, content) for the unsigned value `b`.
pub open spec fn der_uint(b: Seq<u8>) -> Seq<u8> {
    seq![TAG_INTEGER, uint_content(b).len() as u8] + uint_content(b)
}

/// The DER encoding of the 64-byte signature `r || s`.
pub open spec fn ecdsa_sig_der(sig: Seq<u8>) -> Seq<u8> {
    let r = der_uint(sig.subrange(0, 32));
    let s = der_uint(sig.subrange(32, 64));
    seq![TAG_SEQUENCE, (r.len() + s.len()) as u8] + r + s
}

proof fn lemma_strip_len(b: Seq<u8>)
    ensures
        strip_leading_zeros(b).len() <= b.len(),
        b.len() > 0 ==> strip_leading_zeros(b).len() > 0,
    decreases b.len(),
{
    if b.len() > 1 && b[0] == 0 {
        lemma_strip_len(b.drop_first());
    }
}

/// Strips the leading zero bytes of `b`, keeping at least one.
fn strip_zeros(b: &[u8]) -> (out: Vec<u8>)
    requires
        b@.len() > 0,
    ensures
        out@ == strip_leading_zeros(b@),
{
    let mut i: usize = 0;
    assert(b@.subrange(0, b@.len() as int) =~= b@);
    while i < b.len() - 1 && b[i] == 0
        invariant
            i < b@.len(),
            strip_leading_zeros(b@) == strip_leading_zeros(b@.subrange(i as int, b@.len() as int)),
        decreases b.len() - i,
    {
        assert(b@.subrange(i as int, b@.len() as int).drop_first() =~= b@.subrange(i + 1, b@.len() as int));
        i = i + 1;
    }
    let out = vstd::slice::slice_to_vec(vstd::slice::slice_subrange(b, i, b.len()));
    out
}

/// Appends the DER `INTEGER` for the unsigned value `b` (at most 32 bytes) to `out`.
fn push_der_uint(out: &mut Vec<u8>, b: &[u8])
    requires
        0 < b@.len() <= 32,
    ensures
        final(out)@ == old(out)@ + der_uint(b@),
        der_uint(b@).len() <= 35,
{
    proof {
        lemma_strip_len(b@);
    }
    let stripped = strip_zeros(b);
    let needs_zero = stripped[0] >= 0x80;
    let content_len: u8 = if needs_zero { (stripped.len() + 1) as u8 } else { stripped.len() as u8 };
    out.push(TAG_INTEGER);
    out.push(content_len);
    if needs_zero {
        out.push(0u8);
    }
    let mut rest = stripped;
    out.append(&mut rest);
    assert(final(out)@ =~= old(out)@ + der_uint(b@)) by {
        assert(uint_content(b@).len() == content_len);
    }
}

/// Creates the ASN.1 DER encoding of an ECDSA signature from its big-endian scalars
/// `r` (the first 32 bytes) and `s` (the last 32 bytes).
pub fn der_encode_ecdsa_signature(sig: &[u8; 64]) -> (der: Vec<u8>)
    ensures
        der@ == ecdsa_sig_der(sig@),
        der@.len() <= 72,
{
    let r = vstd::slice::slice_subrange(sig.as_slice(), 0, 32);
    let s = vstd::slice::slice_subrange(sig.as_slice(), 32, 64);
    let mut body: Vec<u8> = Vec::new();
    push_der_uint(&mut body, r);
    push_der_uint(&mut body, s);
    let mut der: Vec<u8> = Vec::new();
    der.push(TAG_SEQUENCE);
    der.push(body.len() as u8);
    der.append(&mut body);
    assert(der@ =~= ecdsa_sig_der(sig@));
    der
}

// ----- decoding -----

/// The unsigned big-endian value of the bytes `b`.
pub open spec fn be_value(b: Seq<u8>) -> nat
    decreases b.len(),
{
    if b.len() == 0 {
        0
    } else {
        be_value(b.drop_last()) * 256 + b.last() as nat
    }
}

/// The initial octet of the minimal long-form DER length for `v` (`v >= 0x80`).
pub open spec fn long_form_octet(v: nat) -> int {
    if v < 0x80 {
        0
    } else if v <= 0xff {
        0x81
    } else if v <= 0xffff {
        0x82
    } else if v <= 0xff_ffff {
        0x83
    } else {
        0x84
    }
}

/// A DER length at `pos` that does not reach past `end`: its value and the position
/// after it. The long form must be minimal and at most `MAX_DER_LENGTH`.
pub open spec fn der_length(b: Seq<u8>, pos: int, end: int) -> Option<(int, int)> {
    if pos < 0 || pos >= end || end > b.len() {
        None
    } else if b[pos] < 0x80 {
        Some((b[pos] as int, pos + 1))
    } else if 0x81 <= b[pos] <= 0x84 {
        let n = b[pos] - 0x80;
        if pos + 1 + n > end {
            None
        } else {
            let v = be_value(b.subrange(pos + 1, pos + 1 + n));
            if v > MAX_DER_LENGTH || long_form_octet(v) != b[pos] {
                None
            } else {
                Some((v as int, pos + 1 + n))
            }
        }
    } else {
        None
    }
}

/// The content octets of an `INTEGER` are canonical: non-empty, and without a
/// redundant leading `0x00` or `0xff`.
pub open spec fn int_canonical(c: Seq<u8>) -> bool {
    &&& c.len() > 0
    &&& !(c.len() > 1 && c[0] == 0x00 && c[1] < 0x80)
    &&& !(c.len() > 1 && c[0] == 0xff && c[1] >= 0x80)
}

/// A DER `INTEGER` at `pos` inside `[pos, end)`: its content octets and the position
/// after it.
pub open spec fn der_integer(b: Seq<u8>, pos: int, end: int) -> Option<(Seq<u8>, int)> {
    if pos < 0 || pos >= end || end > b.len() || b[pos] != TAG_INTEGER {
        None
    } else {
        match der_length(b, pos + 1, end) {
            None => None,
            Some((len, p)) => if p + len > end {
                None
            } else {
                let c = b.subrange(p, p + len);
                if int_canonical(c) {
                    Some((c, p + len))
                } else {
                    None
                }
            },
        }
    }
}

/// Decoding of `ECDSA-Sig-Value` from the start of `b`: a `SEQUENCE` that holds exactly
/// two `INTEGER`s; bytes after the sequence are ignored.
pub open spec fn ecdsa_sig_decode(b: Seq<u8>) -> Option<(Seq<u8>, Seq<u8>)> {
    if b.len() > MAX_DER_LENGTH || b.len() == 0 || b[0] != TAG_SEQUENCE {
        None
    } else {
        match der_length(b, 1, b.len() as int) {
            None => None,
            Some((len, p)) => if p + len > b.len() {
                None
            } else {
                let end = p + len;
                match der_integer(b, p, end) {
                    None => None,
                    Some((r, p2)) => match der_integer(b, p2, end) {
                        None => None,
                        Some((s, p3)) => if p3 == end {
                            Some((r, s))
                        } else {
                            None
                        },
                    },
                }
            },
        }
    }
}

proof fn lemma_be_value_bound(b: Seq<u8>)
    ensures
        be_value(b) < vstd::arithmetic::power::pow(256, b.len()),
    decreases b.len(),
{
    vstd::arithmetic::power::lemma_pow_positive(256, b.len());
    if b.len() > 0 {
        lemma_be_value_bound(b.drop_last());
        vstd::arithmetic::power::lemma_pow_adds(256, (b.len() - 1) as nat, 1);
        vstd::arithmetic::power::lemma_pow1(256);
        let p = vstd::arithmetic::power::pow(256, (b.len() - 1) as nat);
        assert(be_value(b.drop_last()) * 256 + b.last() < p * 256) by (nonlinear_arith)
            requires
                be_value(b.drop_last()) < p,
                b.last() < 256,
        ;
    }
}

proof fn lemma_pow256_small(i: nat)
    requires
        i <= 3,
    ensures
        vstd::arithmetic::power::pow(256, i) <= 16777216,
{
    reveal_with_fuel(vstd::arithmetic::power::pow, 4);
}

/// Reads a DER length at `pos`, not reading past `end`.
pub(crate) fn read_der_length(b: &[u8], pos: usize, end: usize) -> (res: Option<(usize, usize)>)
    requires
        end <= b@.len(),
    ensures
        match res {
            Some((v, p)) => der_length(b@, pos as int, end as int) == Some((v as int, p as int)),
            None => der_length(b@, pos as int, end as int) is None,
        },
{
    if pos >= end {
        return None;
    }
    let first = b[pos];
    if first < 0x80 {
        return Some((first as usize, pos + 1));
    }
    if first < 0x81 || first > 0x84 {
        return None;
    }
    let n = (first - 0x80) as usize;
    if n > end - pos - 1 {
        return None;
    }
    let mut v: u64 = 0;
    let mut i: usize = 0;
    proof {
        vstd::arithmetic::power::lemma_pow0(256);
    }
    while i < n
        invariant
            1 <= n <= 4,
            pos + 1 + n <= end <= b@.len(),
            i <= n,
            v == be_value(b@.subrange(pos + 1, pos + 1 + i)),
            v < vstd::arithmetic::power::pow(256, i as nat),
        decreases n - i,
    {
        let ghost prefix = b@.subrange(pos + 1, pos + 1 + i);
        let ghost next = b@.subrange(pos + 1, pos + 1 + i + 1);
        assert(next.drop_last() =~= prefix);
        proof {
            lemma_pow256_small(i as nat);
            lemma_be_value_bound(next);
        }
        v = v * 256 + b[pos + 1 + i] as u64;
        i = i + 1;
    }
    let expected: u8 = if v < 0x80 {
        0
    } else if v <= 0xff {
        0x81
    } else if v <= 0xffff {
        0x82
    } else if v <= 0xff_ffff {
        0x83
    } else {
        0x84
    };
    if v > MAX_DER_LENGTH || expected != first {
        return None;
    }
    Some((v as usize, pos + 1 + n))
}

/// Reads a DER `INTEGER` at `pos` inside `[pos, end)`: its content and the next position.
fn read_der_integer(b: &[u8], pos: usize, end: usize) -> (res: Option<(Vec<u8>, usize)>)
    requires
        end <= b@.len(),
    ensures
        match res {
            Some((c, p)) => der_integer(b@, pos as int, end as int) == Some((c@, p as int)),
            None => der_integer(b@, pos as int, end as int) is None,
        },
{
    if pos >= end || b[pos] != TAG_INTEGER {
        return None;
    }
    let (len, p) = match read_der_length(b, pos + 1, end) {
        Some(x) => x,
        None => return None,
    };
    if len > end - p {
        return None;
    }
    let c = vstd::slice::slice_subrange(b, p, p + len);
    if c.len() == 0 {
        return None;
    }
    if c.len() > 1 && c[0] == 0x00 && c[1] < 0x80 {
        return None;
    }
    if c.len() > 1 && c[0] == 0xff && c[1] >= 0x80 {
        return None;
    }
    Some((vstd::slice::slice_to_vec(c), p + len))
}

/// An ECDSA signature as DER carries it: the content octets of `r` and `s`.
#[derive(Debug)]
pub struct DerEcdsaSignature {
    pub r: Vec<u8>,
    pub s: Vec<u8>,
}

impl DerEcdsaSignature {
    /// Decodes an `ECDSA-Sig-Value` from the start of `b`.
    pub fn decode(b: &[u8]) -> (res: Option<DerEcdsaSignature>)
        ensures
            match res {
                Some(sig) => ecdsa_sig_decode(b@) == Some((sig.r@, sig.s@)),
                None => ecdsa_sig_decode(b@) is None,
            },
    {
        if b.len() as u64 > MAX_DER_LENGTH || b.len() == 0 || b[0] != TAG_SEQUENCE {
            return None;
        }
        let (len, p) = match read_der_length(b, 1, b.len()) {
            Some(x) => x,
            None => return None,
        };
        if len > b.len() - p {
            return None;
        }
        let end = p + len;
        let (r, p2) = match read_der_integer(b, p, end) {
            Some(x) => x,
            None => return None,
        };
        let (s, p3) = match read_der_integer(b, p2, end) {
            Some(x) => x,
            None => return None,
        };
        if p3 != end {
            return None;
        }
        Some(DerEcdsaSignature { r, s })
    }
}

// ----- laws -----

proof fn lemma_strip_shape(b: Seq<u8>)
    requires
        b.len() > 0,
    ensures
        strip_leading_zeros(b).len() > 0,
        strip_leading_zeros(b).len() <= b.len(),
        strip_leading_zeros(b).len() > 1 ==> strip_leading_zeros(b)[0] != 0,
        strip_leading_zeros(b) == b.subrange(b.len() - strip_leading_zeros(b).len(), b.len() as int),
    decreases b.len(),
{
    if b.len() > 1 && b[0] == 0 {
        lemma_strip_shape(b.drop_first());
        let m = strip_leading_zeros(b.drop_first());
        assert(b.drop_first().subrange(b.len() - 1 - m.len(), b.len() - 1) =~= b.subrange(
            b.len() - m.len(),
            b.len() as int,
        ));
    } else {
        assert(b.subrange(0, b.len() as int) =~= b);
    }
}

pub(crate) proof fn lemma_uint_content_shape(b: Seq<u8>)
    requires
        0 < b.len() <= 32,
    ensures
        int_canonical(uint_content(b)),
        0 < uint_content(b).len() <= 33,
{
    lemma_strip_shape(b);
}

proof fn lemma_der_integer_of_der_uint(d: Seq<u8>, pos: int, b: Seq<u8>, end: int)
    requires
        0 < b.len() <= 32,
        0 <= pos,
        pos + der_uint(b).len() <= end <= d.len(),
        d.subrange(pos, pos + der_uint(b).len()) == der_uint(b),
    ensures
        der_integer(d, pos, end) == Some((uint_content(b), pos + der_uint(b).len())),
{
    lemma_uint_content_shape(b);
    let c = uint_content(b);
    assert(d[pos] == der_uint(b)[0]);
    assert(d[pos + 1] == der_uint(b)[1]);
    assert(der_length(d, pos + 1, end) == Some((c.len() as int, pos + 2)));
    assert(d.subrange(pos + 2, pos + 2 + c.len()) =~= c) by {
        assert forall|i: int| 0 <= i < c.len() implies d.subrange(pos + 2, pos + 2 + c.len())[i] == c[i] by {
            assert(d[pos + 2 + i] == der_uint(b)[2 + i]);
        }
    }
}

/// Decoding undoes encoding: the DER encoding of a 64-byte signature `r || s` decodes
/// to the `INTEGER` contents of `r` and `s`.
pub proof fn lemma_decode_encode(sig: Seq<u8>)
    requires
        sig.len() == 64,
    ensures
        ecdsa_sig_decode(ecdsa_sig_der(sig)) == Some(
            (uint_content(sig.subrange(0, 32)), uint_content(sig.subrange(32, 64))),
        ),
{
    let rb = sig.subrange(0, 32);
    let sb = sig.subrange(32, 64);
    let r = der_uint(rb);
    let s = der_uint(sb);
    lemma_uint_content_shape(rb);
    lemma_uint_content_shape(sb);
    let d = ecdsa_sig_der(sig);
    let rl = r.len() as int;
    let sl = s.len() as int;
    let end: int = 2 + rl + sl;
    assert(d.len() == end);
    assert(der_length(d, 1, d.len() as int) == Some(((r.len() + s.len()) as int, 2int)));
    assert(d.subrange(2, 2 + rl) =~= r);
    lemma_der_integer_of_der_uint(d, 2, rb, end);
    assert(d.subrange(2 + rl, 2 + rl + sl) =~= s);
    lemma_der_integer_of_der_uint(d, 2 + rl, sb, end);
}

/// A 32-byte scalar is carried by DER as exactly those 32 bytes if and only if its
/// first byte lies in `0x01..=0x7f`, or it is zero and the second byte has its top bit
/// set; otherwise leading zeros are dropped or a zero byte is added.
pub proof fn lemma_uint_content_is_identity(b: Seq<u8>)
    requires
        b.len() == 32,
    ensures
        (uint_content(b) == b) <==> (0 < b[0] < 0x80 || (b[0] == 0 && b[1] >= 0x80)),
        uint_content(b).len() == 32 ==> uint_content(b) == b,
{
    lemma_strip_shape(b);
    let m = strip_leading_zeros(b);
    if b[0] == 0 {
        let t = b.drop_first();
        assert(m == strip_leading_zeros(t));
        lemma_strip_shape(t);
        if b[1] == 0 {
            assert(m == strip_leading_zeros(t.drop_first()));
            lemma_strip_shape(t.drop_first());
            assert(uint_content(b).len() < 32);
        } else {
            assert(m == t);
            if b[1] >= 0x80 {
                assert(uint_content(b) =~= b);
            } else {
                assert(uint_content(b).len() == 31);
            }
        }
    } else {
        assert(m == b);
        if b[0] >= 0x80 {
            assert(uint_content(b).len() == 33);
        }
    }
}

/// The content of the DER `INTEGER` for an unsigned big-endian value carries that same
/// value, is canonical, and reads as non-negative (its first byte is below `0x80`).
pub proof fn lemma_uint_content_value(b: Seq<u8>)
    requires
        0 < b.len() <= 32,
    ensures
        be_value(uint_content(b)) == be_value(b),
        int_canonical(uint_content(b)),
        uint_content(b)[0] < 0x80,
{
    lemma_uint_content_shape(b);
    lemma_strip_value(b);
    let m = strip_leading_zeros(b);
    if m.len() > 0 && m[0] >= 0x80 {
        lemma_be_value_zero_prefix(m);
    }
}

proof fn lemma_be_value_zero_prefix(m: Seq<u8>)
    ensures
        be_value(seq![0u8] + m) == be_value(m),
    decreases m.len(),
{
    if m.len() == 0 {
        assert(seq![0u8] + m =~= seq![0u8]);
        assert(seq![0u8].drop_last() =~= Seq::<u8>::empty());
        assert(be_value(Seq::<u8>::empty()) == 0);
        assert(be_value(seq![0u8]) == 0);
    } else {
        let x = seq![0u8] + m;
        assert(x.drop_last() =~= seq![0u8] + m.drop_last());
        assert(x.last() == m.last());
        lemma_be_value_zero_prefix(m.drop_last());
        assert(be_value(x) == be_value(x.drop_last()) * 256 + x.last() as nat);
    }
}

proof fn lemma_strip_value(b: Seq<u8>)
    ensures
        be_value(strip_leading_zeros(b)) == be_value(b),
    decreases b.len(),
{
    if b.len() > 1 && b[0] == 0 {
        lemma_strip_value(b.drop_first());
        assert(b =~= seq![0u8] + b.drop_first());
        lemma_be_value_zero_prefix(b.drop_first());
    }
}

/// The DER form of a signature `r || s` is a `SEQUENCE` that decodes to two canonical,
/// non-negative integers, `r` first and then `s`, carrying the values of the first and of
/// the last 32 bytes.
pub proof fn lemma_signature_der_values(sig: Seq<u8>)
    requires
        sig.len() == 64,
    ensures
        ecdsa_sig_der(sig)[0] == TAG_SEQUENCE,
        ecdsa_sig_decode(ecdsa_sig_der(sig)) matches Some((r, s)) && be_value(r) == be_value(sig.subrange(0, 32))
            && be_value(s) == be_value(sig.subrange(32, 64)) && r[0] < 0x80 && s[0] < 0x80,
{
    lemma_decode_encode(sig);
    lemma_uint_content_value(sig.subrange(0, 32));
    lemma_uint_content_value(sig.subrange(32, 64));
}

} // verus!
