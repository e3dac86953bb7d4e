//! Lower-case hexadecimal encoding of byte strings (used to name imported keys).

use vstd::prelude::*;

use crate::std_wrappers::string_push;

verus! {

/// The lower-case hexadecimal digit for a nibble `n < 16`.
pub open spec fn hex_digit(n: int) -> char {
    if n < 10 {
        (('0' as int) + n) as char
    } else {
        (('a' as int) + (n - 10)) as char
    }
}

/// The lower-case hexadecimal encoding of `bytes`: two digits per byte, high nibble first.
pub open spec fn hex_encoding(bytes: Seq<u8>) -> Seq<char> {
    Seq::new(
        2 * bytes.len(),
        |i: int|
            if i % 2 == 0 {
                hex_digit((bytes[i / 2] / 16) as int)
            } else {
                hex_digit((bytes[i / 2] % 16) as int)
            },
    )
}

fn nibble_char(n: u8) -> (c: char)
    requires
        n < 16,
    ensures
        c == hex_digit(n as int),
{
    if n < 10 {
        (48u8 + n) as char
    } else {
        (97u8 + (n - 10)) as char
    }
}

/// Encodes `bytes` as lower-case hexadecimal, two digits per byte.
pub fn encode_hex(bytes: &[u8]) -> (s: String)
    ensures
        s@ == hex_encoding(bytes@),
{
    let mut s = String::new();
    let mut i: usize = 0;
    while i < bytes.len()
        invariant
            i <= bytes.len(),
            s@ =~= hex_encoding(bytes@.subrange(0, i as int)),
        decreases bytes.len() - i,
    {
        let b = bytes[i];
        string_push(&mut s, nibble_char(b / 16));
        string_push(&mut s, nibble_char(b % 16));
        assert(s@ =~= hex_encoding(bytes@.subrange(0, i + 1)));
        i = i + 1;
    }
    assert(bytes@.subrange(0, i as int) =~= bytes@);
    s
}

/// The number that a lower-case hexadecimal digit stands for; `-1` for any other
/// character.
pub open spec fn hex_digit_value(c: char) -> int {
    if '0' <= c && c <= '9' {
        c as int - '0' as int
    } else if 'a' <= c && c <= 'f' {
        c as int - 'a' as int + 10
    } else {
        -1
    }
}

/// Each byte is written as two lower-case hexadecimal digits, high nibble first: the
/// encoding is twice as long as the bytes, and each pair of digits reads back to its byte.
pub proof fn lemma_hex_encoding_reads_back(bytes: Seq<u8>)
    ensures
        hex_encoding(bytes).len() == 2 * bytes.len(),
        forall|k: int| 0 <= k < 2 * bytes.len() ==> 0 <= #[trigger] hex_digit_value(hex_encoding(bytes)[k]) < 16,
        forall|i: int|
            0 <= i < bytes.len() ==> hex_digit_value(#[trigger] hex_encoding(bytes)[2 * i]) * 16 + hex_digit_value(
                hex_encoding(bytes)[2 * i + 1],
            ) == bytes[i],
{
    assert forall|n: int| 0 <= n < 16 implies #[trigger] hex_digit_value(hex_digit(n)) == n by {
        if n < 10 {
            assert((('0' as int) + n) as char as int == '0' as int + n);
        } else {
            assert((('a' as int) + (n - 10)) as char as int == 'a' as int + n - 10);
        }
    }
    let h = hex_encoding(bytes);
    assert forall|k: int| 0 <= k < 2 * bytes.len() implies 0 <= #[trigger] hex_digit_value(h[k]) < 16 by {
        let b = bytes[k / 2];
        if k % 2 == 0 {
            assert(hex_digit_value(hex_digit((b / 16) as int)) == (b / 16) as int);
        } else {
            assert(hex_digit_value(hex_digit((b % 16) as int)) == (b % 16) as int);
        }
    }
    assert forall|i: int| 0 <= i < bytes.len() implies hex_digit_value(#[trigger] h[2 * i]) * 16 + hex_digit_value(
        h[2 * i + 1],
    ) == bytes[i] by {
        let b = bytes[i];
        assert((2 * i) / 2 == i);
        assert((2 * i + 1) / 2 == i);
        assert(hex_digit_value(hex_digit((b / 16) as int)) == (b / 16) as int);
        assert(hex_digit_value(hex_digit((b % 16) as int)) == (b % 16) as int);
    }
}

} // verus!
