//! The decisions of the demonstration HTTPS server: its command line, the list of
//! addresses to bind, and how it names the key exchange group of a connection.

use vstd::prelude::*;

use crate::hex::{hex_digit, hex_digit_value};
use crate::std_wrappers::string_push;

verus! {

/// The code point of the hybrid key exchange group X25519MLKEM768.
pub const X25519MLKEM768: u16 = 0x11ec;

/// The digits of `v` in lower-case hexadecimal, without leading zeros (`0` for zero).
pub open spec fn hex_text(v: nat) -> Seq<char>
    decreases v,
{
    if v < 16 {
        seq![hex_digit(v as int)]
    } else {
        hex_text(v / 16).push(hex_digit((v % 16) as int))
    }
}

/// The name that rustls's `Debug` gives the named group with code point `code`: the
/// variant's name for each group that rustls lists, and `NamedGroup(0x..)`, with the code
/// in lower-case hexadecimal, for any other.
pub open spec fn named_group_debug_text(code: u16) -> Seq<char> {
    if code == 0x0017 {
        "secp256r1"@
    } else if code == 0x0018 {
        "secp384r1"@
    } else if code == 0x0019 {
        "secp521r1"@
    } else if code == 0x001d {
        "X25519"@
    } else if code == 0x001e {
        "X448"@
    } else if code == 0x0100 {
        "FFDHE2048"@
    } else if code == 0x0101 {
        "FFDHE3072"@
    } else if code == 0x0102 {
        "FFDHE4096"@
    } else if code == 0x0103 {
        "FFDHE6144"@
    } else if code == 0x0104 {
        "FFDHE8192"@
    } else if code == 0x0200 {
        "MLKEM512"@
    } else if code == 0x0201 {
        "MLKEM768"@
    } else if code == 0x0202 {
        "MLKEM1024"@
    } else if code == 0x11eb {
        "secp256r1MLKEM768"@
    } else if code == 0x11ec {
        "X25519MLKEM768"@
    } else {
        "NamedGroup(0x"@ + hex_text(code as nat) + ")"@
    }
}

/// Formats `rustls::NamedGroup::from(code)` with `Debug`, which its source writes as the
/// variant's name for the groups it lists and as the enum's name with the code in
/// hexadecimal for the others.
#[verifier::external_body]
fn named_group_debug(code: u16) -> (s: String)
    ensures
        s@ == named_group_debug_text(code),
{
    format!("{:?}", rustls::NamedGroup::from(code))
}

/// The name under which the page shows the key exchange group `group`: the hybrid group
/// has a name of its own, every other group its rustls name.
pub fn named_group_string(group: u16) -> (name: String)
    ensures
        group == X25519MLKEM768 ==> name@ == "Hybrid_ML-KEM_X25519"@,
        group != X25519MLKEM768 ==> name@ == named_group_debug_text(group),
{
    if group == X25519MLKEM768 {
        "Hybrid_ML-KEM_X25519".to_owned()
    } else {
        named_group_debug(group)
    }
}

/// Whether the group `group` resists a quantum adversary: only the hybrid group does.
pub fn is_post_quantum(group: u16) -> (pq: bool)
    ensures
        pq == (group == X25519MLKEM768),
{
    group == X25519MLKEM768
}

/// A command line of the server that does not have its three arguments.
#[derive(Debug, Clone, Copy, PartialEq, Eq, Structural)]
pub enum ServerArgumentError {
    /// The number of arguments, the program's name included.
    WrongArgumentCount(usize),
}

/// The decimal digits of `n`, without leading zeros (`0` for zero).
pub open spec fn decimal_text(n: nat) -> Seq<char>
    decreases n,
{
    if n < 10 {
        seq![hex_digit(n as int)]
    } else {
        decimal_text(n / 10).push(hex_digit((n % 10) as int))
    }
}

/// Appends the decimal digits of `n` to `s`.
fn push_decimal(s: &mut String, n: usize)
    ensures
        final(s)@ == old(s)@ + decimal_text(n as nat),
    decreases n,
{
    if n >= 10 {
        push_decimal(s, n / 10);
    }
    let d: u8 = (n % 10) as u8;
    let c: char = (48u8 + d) as char;
    assert(c == hex_digit(d as int));
    string_push(s, c);
    assert(final(s)@ =~= old(s)@ + decimal_text(n as nat));
}

impl ServerArgumentError {
    /// The message that the server prints for this error.
    pub fn message(&self) -> (msg: String)
        ensures
            msg@ == (match *self {
                ServerArgumentError::WrongArgumentCount(n) => "expected 3 arguments (incl arg 0), got "@
                    + decimal_text(n as nat),
            }),
    {
        match self {
            ServerArgumentError::WrongArgumentCount(n) => {
                let mut msg = "expected 3 arguments (incl arg 0), got ".to_owned();
                push_decimal(&mut msg, *n);
                msg
            },
        }
    }
}

/// The three arguments of the command line `args` (the program's name first): the
/// addresses to bind, the certificate file and the key file.
pub fn server_arguments(args: Vec<String>) -> (res: Result<(String, String, String), ServerArgumentError>)
    ensures
        args@.len() == 4 ==> (res matches Ok((addrs, cert, key)) && addrs@ == args@[1]@ && cert@ == args@[2]@
            && key@ == args@[3]@),
        args@.len() != 4 ==> res == Err::<(String, String, String), ServerArgumentError>(
            ServerArgumentError::WrongArgumentCount(args@.len() as usize),
        ),
{
    if args.len() != 4 {
        return Err(ServerArgumentError::WrongArgumentCount(args.len()));
    }
    Ok((args[1].clone(), args[2].clone(), args[3].clone()))
}

/// The pieces of `s` between the separators `sep`, in order: one more piece than there
/// are separators, empty pieces included.
pub open spec fn split_on(s: Seq<char>, sep: char) -> Seq<Seq<char>>
    decreases s.len(),
{
    if s.len() == 0 {
        seq![Seq::empty()]
    } else {
        let prev = split_on(s.drop_last(), sep);
        if s.last() == sep {
            prev.push(Seq::empty())
        } else {
            prev.update(prev.len() - 1, prev.last().push(s.last()))
        }
    }
}

proof fn lemma_split_on_not_empty(s: Seq<char>, sep: char)
    ensures
        split_on(s, sep).len() >= 1,
    decreases s.len(),
{
    if s.len() > 0 {
        lemma_split_on_not_empty(s.drop_last(), sep);
    }
}

/// The views of a list of strings.
pub open spec fn string_views(v: Seq<String>) -> Seq<Seq<char>> {
    v.map_values(|p: String| p@)
}

/// Splits the address list `s` at its commas.
pub fn split_addresses(s: &str) -> (parts: Vec<String>)
    ensures
        string_views(parts@) == split_on(s@, ','),
{
    broadcast use vstd::string::axiom_spec_iter;
    let mut parts: Vec<String> = Vec::new();
    let mut current = String::new();
    for c in it: s.chars()
        invariant
            it.seq() == s@,
            string_views(parts@).push(current@) == split_on(s@.take(it.index()), ','),
    {
        proof {
            lemma_split_on_not_empty(s@.take(it.index()), ',');
            assert(s@.take(it.index() + 1).drop_last() =~= s@.take(it.index()));
        }
        if c == ',' {
            let done = current;
            parts.push(done);
            current = String::new();
            assert(string_views(parts@).push(current@) =~= split_on(s@.take(it.index() + 1), ','));
        } else {
            string_push(&mut current, c);
            assert(string_views(parts@).push(current@) =~= split_on(s@.take(it.index() + 1), ','));
        }
    }
    assert(s@.take(s@.len() as int) =~= s@);
    parts.push(current);
    assert(string_views(parts@) =~= split_on(s@, ','));
    parts
}

/// The pieces joined again, with `sep` between each two.
pub open spec fn join_with(pieces: Seq<Seq<char>>, sep: char) -> Seq<char>
    decreases pieces.len(),
{
    if pieces.len() <= 1 {
        if pieces.len() == 0 {
            Seq::empty()
        } else {
            pieces[0]
        }
    } else {
        join_with(pieces.drop_last(), sep).push(sep) + pieces.last()
    }
}

proof fn lemma_join_extend_last(pieces: Seq<Seq<char>>, sep: char, c: char)
    requires
        pieces.len() >= 1,
    ensures
        join_with(pieces.update(pieces.len() - 1, pieces.last().push(c)), sep) == join_with(pieces, sep).push(c),
{
    let updated = pieces.update(pieces.len() - 1, pieces.last().push(c));
    if pieces.len() == 1 {
        assert(updated[0] == pieces[0].push(c));
    } else {
        assert(updated.drop_last() =~= pieces.drop_last());
        assert(updated.last() == pieces.last().push(c));
        assert(join_with(pieces.drop_last(), sep).push(sep) + pieces.last().push(c) =~= (join_with(
            pieces.drop_last(),
            sep,
        ).push(sep) + pieces.last()).push(c));
    }
}

/// Splitting at a separator and joining the pieces again with it gives back the text:
/// the address list is cut at its commas and nowhere else.
pub proof fn lemma_join_of_split(s: Seq<char>, sep: char)
    ensures
        join_with(split_on(s, sep), sep) == s,
    decreases s.len(),
{
    if s.len() > 0 {
        let prev = split_on(s.drop_last(), sep);
        lemma_join_of_split(s.drop_last(), sep);
        lemma_split_on_not_empty(s.drop_last(), sep);
        if s.last() == sep {
            let pushed = prev.push(Seq::<char>::empty());
            assert(pushed.drop_last() =~= prev);
            assert(join_with(prev, sep).push(sep) + Seq::<char>::empty() =~= join_with(prev, sep).push(sep));
        } else {
            lemma_join_extend_last(prev, sep, s.last());
        }
        assert(s.drop_last().push(s.last()) =~= s);
    }
}

/// The number that a string of digits in base `base` stands for, the digits read by
/// `hex_digit_value`.
pub open spec fn digits_value(s: Seq<char>, base: int) -> int
    decreases s.len(),
{
    if s.len() == 0 {
        0
    } else {
        digits_value(s.drop_last(), base) * base + hex_digit_value(s.last())
    }
}

proof fn lemma_digit_value(d: int)
    requires
        0 <= d < 16,
    ensures
        hex_digit_value(hex_digit(d)) == d,
{
    if d < 10 {
        assert((('0' as int) + d) as char as int == '0' as int + d);
    } else {
        assert((('a' as int) + (d - 10)) as char as int == 'a' as int + d - 10);
    }
}

/// The decimal text of `n` reads back to `n`; its digits are `0` to `9`, and it starts
/// with `0` only where `n` is zero.
pub proof fn lemma_decimal_text_reads_back(n: nat)
    ensures
        digits_value(decimal_text(n), 10) == n,
        decimal_text(n).len() > 0,
        forall|k: int| 0 <= k < decimal_text(n).len() ==> 0 <= #[trigger] hex_digit_value(decimal_text(n)[k]) < 10,
        (decimal_text(n)[0] == '0') == (n == 0),
    decreases n,
{
    if n < 10 {
        lemma_digit_value(n as int);
        assert(decimal_text(n).drop_last() =~= Seq::<char>::empty());
        assert(digits_value(Seq::<char>::empty(), 10) == 0);
        assert(digits_value(decimal_text(n), 10) == digits_value(Seq::<char>::empty(), 10) * 10 + n);
    } else {
        lemma_decimal_text_reads_back(n / 10);
        lemma_digit_value((n % 10) as int);
        let t = decimal_text(n);
        assert(t.drop_last() == decimal_text(n / 10));
        assert(t[0] == decimal_text(n / 10)[0]);
        vstd::arithmetic::div_mod::lemma_fundamental_div_mod(n as int, 10);
        assert(digits_value(t, 10) == digits_value(t.drop_last(), 10) * 10 + hex_digit_value(t.last()));
    }
}

/// The hexadecimal text of `v` reads back to `v`; its digits are `0` to `9` and `a` to
/// `f`, and it starts with `0` only where `v` is zero.
pub proof fn lemma_hex_text_reads_back(v: nat)
    ensures
        digits_value(hex_text(v), 16) == v,
        hex_text(v).len() > 0,
        forall|k: int| 0 <= k < hex_text(v).len() ==> 0 <= #[trigger] hex_digit_value(hex_text(v)[k]) < 16,
        (hex_text(v)[0] == '0') == (v == 0),
    decreases v,
{
    if v < 16 {
        lemma_digit_value(v as int);
        assert(hex_text(v).drop_last() =~= Seq::<char>::empty());
        assert(digits_value(Seq::<char>::empty(), 16) == 0);
        assert(digits_value(hex_text(v), 16) == digits_value(Seq::<char>::empty(), 16) * 16 + v);
        if v != 0 {
            assert(hex_digit_value(hex_text(v)[0]) != 0);
        }
    } else {
        lemma_hex_text_reads_back(v / 16);
        lemma_digit_value((v % 16) as int);
        let t = hex_text(v);
        assert(t.drop_last() == hex_text(v / 16));
        assert(t[0] == hex_text(v / 16)[0]);
        vstd::arithmetic::div_mod::lemma_fundamental_div_mod(v as int, 16);
        assert(digits_value(t, 16) == digits_value(t.drop_last(), 16) * 16 + hex_digit_value(t.last()));
    }
}

} // verus!
