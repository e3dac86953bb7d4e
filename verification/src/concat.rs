//! Joining byte strings given in several pieces.

use vstd::prelude::*;

verus! {

/// The contents of a list of byte slices.
pub open spec fn slice_views(chunks: Seq<&[u8]>) -> Seq<Seq<u8>> {
    chunks.map_values(|c: &[u8]| c@)
}

/// The pieces joined in order.
pub open spec fn flatten(pieces: Seq<Seq<u8>>) -> Seq<u8>
    decreases pieces.len(),
{
    if pieces.len() == 0 {
        Seq::empty()
    } else {
        flatten(pieces.drop_last()) + pieces.last()
    }
}

/// Joins `chunks` in order.
pub fn concat(chunks: &[&[u8]]) -> (out: Vec<u8>)
    ensures
        out@ == flatten(slice_views(chunks@)),
{
    let ghost views = slice_views(chunks@);
    let mut out: Vec<u8> = Vec::new();
    let mut i: usize = 0;
    while i < chunks.len()
        invariant
            i <= chunks@.len(),
            views == slice_views(chunks@),
            out@ == flatten(views.take(i as int)),
        decreases chunks.len() - i,
    {
        let mut piece = vstd::slice::slice_to_vec(chunks[i]);
        out.append(&mut piece);
        assert(views.take(i + 1).drop_last() =~= views.take(i as int));
        i = i + 1;
    }
    assert(views.take(i as int) =~= views);
    out
}

/// Joining nothing gives nothing.
pub proof fn lemma_flatten_empty()
    ensures
        flatten(Seq::<Seq<u8>>::empty()) == Seq::<u8>::empty(),
{
}

/// Joining one more piece appends that piece whole to what the others join to.
pub proof fn lemma_flatten_push(pieces: Seq<Seq<u8>>, piece: Seq<u8>)
    ensures
        flatten(pieces.push(piece)) == flatten(pieces) + piece,
{
    assert(pieces.push(piece).drop_last() =~= pieces);
}

/// Joining two lists of pieces one after the other is joining each and appending.
pub proof fn lemma_flatten_append(a: Seq<Seq<u8>>, b: Seq<Seq<u8>>)
    ensures
        flatten(a + b) == flatten(a) + flatten(b),
    decreases b.len(),
{
    if b.len() == 0 {
        assert(a + b =~= a);
        assert(flatten(a) + flatten(b) =~= flatten(a));
    } else {
        lemma_flatten_append(a, b.drop_last());
        assert((a + b).drop_last() =~= a + b.drop_last());
        assert(flatten(a + b) =~= flatten(a) + flatten(b));
    }
}

/// The joined length is the sum of the pieces' lengths, and each piece stands whole, in
/// order, at the offset given by the lengths of the pieces before it.
pub proof fn lemma_flatten_pieces(pieces: Seq<Seq<u8>>, i: int)
    requires
        0 <= i < pieces.len(),
    ensures
        flatten(pieces).len() == flatten(pieces.take(i)).len() + pieces[i].len() + flatten(
            pieces.skip(i + 1),
        ).len(),
        flatten(pieces).subrange(
            flatten(pieces.take(i)).len() as int,
            (flatten(pieces.take(i)).len() + pieces[i].len()) as int,
        ) == pieces[i],
{
    assert(pieces =~= pieces.take(i) + seq![pieces[i]] + pieces.skip(i + 1));
    lemma_flatten_append(pieces.take(i) + seq![pieces[i]], pieces.skip(i + 1));
    lemma_flatten_append(pieces.take(i), seq![pieces[i]]);
    assert(seq![pieces[i]] =~= Seq::<Seq<u8>>::empty().push(pieces[i]));
    lemma_flatten_push(Seq::<Seq<u8>>::empty(), pieces[i]);
    assert(flatten(seq![pieces[i]]) =~= pieces[i]);
    let f = flatten(pieces.take(i));
    assert(flatten(pieces).subrange(f.len() as int, (f.len() + pieces[i].len()) as int) =~= pieces[i]);
}

} // verus!
