use vstd::prelude::*;
use vstd::utf8::{decode_utf8, valid_utf8};

verus! {

/// The index of the first NUL byte of `b`, or its length if it has none.
pub open spec fn nul_index(b: Seq<u8>) -> int
    decreases b.len(),
{
    if b.len() == 0 {
        0
    } else if b[0] == 0 {
        0
    } else {
        1 + nul_index(b.drop_first())
    }
}

/// The bytes of `b` before its first NUL.
pub open spec fn c_bytes(b: Seq<u8>) -> Seq<u8> {
    b.subrange(0, nul_index(b))
}

/// The text that `b` encodes in UTF-8, if it is valid UTF-8.
pub open spec fn utf8_of(b: Seq<u8>) -> Option<Seq<char>> {
    if valid_utf8(b) {
        Some(decode_utf8(b))
    } else {
        None
    }
}

/// The text that `b` encodes, or `???` where it is not valid UTF-8.
pub open spec fn text_or_unknown(b: Seq<u8>) -> Seq<char> {
    if valid_utf8(b) {
        decode_utf8(b)
    } else {
        "???"@
    }
}

/// `i` is the first NUL of `b` when no byte before it is NUL and it is NUL or the end.
pub proof fn lemma_nul_index(b: Seq<u8>, i: int)
    requires
        0 <= i <= b.len(),
        forall|j: int| 0 <= j < i ==> b[j] != 0,
        i == b.len() || b[i] == 0,
    ensures
        nul_index(b) == i,
    decreases i,
{
    if i > 0 {
        let t = b.drop_first();
        assert forall|j: int| 0 <= j < i - 1 implies t[j] != 0 by {
            assert(t[j] == b[j + 1]);
        }
        lemma_nul_index(t, i - 1);
    }
}

/// The position of the first NUL byte of `b`, or its length.
pub fn find_nul(b: &[u8]) -> (r: usize)
    ensures
        r == nul_index(b@),
        r <= b@.len(),
{
    let mut i: usize = 0;
    while i < b.len() && b[i] != 0
        invariant
            i <= b@.len(),
            forall|j: int| 0 <= j < i ==> b@[j] != 0,
        decreases b@.len() - i,
    {
        i = i + 1;
    }
    proof {
        lemma_nul_index(b@, i as int);
    }
    i
}

/// Relies on `std::str::from_utf8`: it succeeds exactly on valid UTF-8 and
/// then yields the characters encoded.
#[verifier::external_body]
fn utf8_text(b: &[u8]) -> (r: Option<String>)
    ensures
        r is Some == valid_utf8(b@),
        r matches Some(t) ==> t@ == decode_utf8(b@),
{
    match std::str::from_utf8(b) {
        Ok(t) => Some(t.to_owned()),
        Err(_) => None,
    }
}

/// The text of a NUL-terminated (or NUL-padded) byte string, if it is valid UTF-8.
pub fn buf_to_str(buf: &[u8]) -> (r: Option<String>)
    ensures
        r matches Some(t) ==> utf8_of(c_bytes(buf@)) == Some(t@),
        r is None ==> utf8_of(c_bytes(buf@)) is None,
{
    let n = find_nul(buf);
    utf8_text(&buf[0..n])
}

/// The text that `b` encodes, or `???` where it is not valid UTF-8.
pub fn utf8_or_unknown(b: &[u8]) -> (r: String)
    ensures
        r@ == text_or_unknown(b@),
{
    match utf8_text(b) {
        Some(t) => t,
        None => "???".to_owned(),
    }
}

/// The text of a NUL-terminated byte string, or `???` where it is not valid UTF-8.
pub fn c_text_or_unknown(buf: &[u8]) -> (r: String)
    ensures
        r@ == text_or_unknown(c_bytes(buf@)),
{
    let n = find_nul(buf);
    utf8_or_unknown(&buf[0..n])
}

} // verus!
