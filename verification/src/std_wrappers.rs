//! Trusted specifications of the few standard-library calls that vstd leaves unspecified.

use vstd::prelude::*;

verus! {

/// `String::push` appends one character at the end of the string.
#[verifier::external_body]
pub(crate) fn string_push(s: &mut String, c: char)
    ensures
        final(s)@ == old(s)@.push(c),
{
    s.push(c);
}

} // verus!
