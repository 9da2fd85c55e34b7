//! Small string helpers whose results are stated over the character views.

use vstd::prelude::*;
use vstd::utf8::*;

verus! {

/// Number of bytes that `chars` takes in UTF-8.
pub open spec fn utf8_len(chars: Seq<char>) -> nat {
    encode_utf8(chars).len()
}

/// The characters of an optional borrowed string.
pub open spec fn text_of(s: Option<&str>) -> Option<Seq<char>> {
    match s {
        Some(s) => Some(s@),
        None => None,
    }
}

/// The characters of an optional owned string.
pub open spec fn text_of_owned(s: Option<String>) -> Option<Seq<char>> {
    match s {
        Some(s) => Some(s@),
        None => None,
    }
}

/// Borrows the string inside an option.
pub fn as_opt_str(s: &Option<String>) -> (borrowed: Option<&str>)
    ensures
        text_of(borrowed) == text_of_owned(*s),
{
    match s {
        Some(s) => Some(s.as_str()),
        None => None,
    }
}

/// Two character sequences with the same UTF-8 encoding are the same sequence.
pub proof fn lemma_utf8_injective(a: Seq<char>, b: Seq<char>)
    requires
        encode_utf8(a) == encode_utf8(b),
    ensures
        a == b,
{
    encode_utf8_decode_utf8(a);
    encode_utf8_decode_utf8(b);
}

/// Whether two strings hold the same characters.
pub fn str_eq(a: &str, b: &str) -> (same: bool)
    ensures
        same == (a@ == b@),
{
    let x = a.as_bytes();
    let y = b.as_bytes();
    if x.len() != y.len() {
        return false;
    }
    let mut i: usize = 0;
    while i < x.len()
        invariant
            i <= x.len(),
            x@.len() == y@.len(),
            x@ == encode_utf8(a@),
            y@ == encode_utf8(b@),
            forall|j: int| 0 <= j < i ==> x@[j] == y@[j],
        decreases x.len() - i,
    {
        if x[i] != y[i] {
            return false;
        }
        i += 1;
    }
    proof {
        assert(x@ =~= y@);
        lemma_utf8_injective(a@, b@);
    }
    true
}

} // verus!
