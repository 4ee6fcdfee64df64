//! Text that crosses the boundary to the debugger.
//!
//! On that side a string is a run of bytes that ends at the first NUL. On the
//! way in, text is cut at its first NUL and given its terminator; on the way
//! out, the bytes before the first NUL are copied into an owned string.

use vstd::prelude::*;
use vstd::utf8::{decode_utf8, valid_utf8};

verus! {

/// Whether `bytes` is a C string: it ends with a NUL, and holds no other.
pub open spec fn is_c_string(bytes: Seq<u8>) -> bool {
    &&& bytes.len() > 0
    &&& bytes[bytes.len() - 1] == 0
    &&& forall|i: int| 0 <= i < bytes.len() - 1 ==> bytes[i] != 0
}

/// Whether `text` is what a reader on the debugger's side sees in `bytes`:
/// the bytes before the first NUL, or all of them where there is none.
pub open spec fn is_text_of(text: Seq<u8>, bytes: Seq<u8>) -> bool {
    &&& text.len() <= bytes.len()
    &&& text == bytes.subrange(0, text.len() as int)
    &&& forall|i: int| 0 <= i < text.len() ==> text[i] != 0
    &&& text.len() < bytes.len() ==> bytes[text.len() as int] == 0
}

/// Whether the text that the debugger's side sees in `bytes` is valid UTF-8.
pub open spec fn is_readable(bytes: Seq<u8>) -> bool {
    exists|text: Seq<u8>| is_text_of(text, bytes) && valid_utf8(text)
}

/// Whether `string` holds the characters of the text that the debugger's side
/// sees in `bytes`, decoded as UTF-8.
pub open spec fn reads_as(bytes: Seq<u8>, string: Seq<char>) -> bool {
    exists|text: Seq<u8>|
        is_text_of(text, bytes) && valid_utf8(text) && string == decode_utf8(text)
}

/// Copies the bytes of `bytes` that stand before its first NUL.
pub fn text_before_nul(bytes: &[u8]) -> (text: Vec<u8>)
    ensures
        is_text_of(text@, bytes@),
{
    let mut text: Vec<u8> = Vec::new();
    let mut i: usize = 0;
    while i < bytes.len() && bytes[i] != 0
        invariant
            i <= bytes.len(),
            text@ == bytes@.subrange(0, i as int),
            forall|j: int| 0 <= j < i ==> bytes@[j] != 0,
        decreases bytes.len() - i,
    {
        text.push(bytes[i]);
        i = i + 1;
        assert(text@ == bytes@.subrange(0, i as int));
    }
    text
}

/// Makes a C string of `text`: the bytes before its first NUL, then the
/// terminator. Text that already is a C string comes back as it is.
pub fn c_string(text: &[u8]) -> (out: Vec<u8>)
    ensures
        is_c_string(out@),
        is_text_of(out@.drop_last(), text@),
        is_c_string(text@) ==> out@ == text@,
{
    let mut out: Vec<u8> = text_before_nul(text);
    let ghost cut = out@;
    out.push(0);
    proof {
        assert(out@.drop_last() == cut);
        if is_c_string(text@) {
            lemma_c_string_holds_its_text(text@);
            lemma_text_is_unique(cut, text@.drop_last(), text@);
            assert(out@ == text@);
        }
    }
    out
}

/// Reads a string in the bytes that the debugger wrote: the text before the
/// first NUL, decoded as UTF-8. The result is `None` exactly when that text is
/// not valid UTF-8.
pub fn string_before_nul(bytes: &[u8]) -> (string: Option<String>)
    ensures
        string is Some <==> is_readable(bytes@),
        string matches Some(s) ==> reads_as(bytes@, s@),
{
    let text: Vec<u8> = text_before_nul(bytes);
    proof {
        assert forall|other: Seq<u8>| is_text_of(other, bytes@) implies other == text@ by {
            lemma_text_is_unique(other, text@, bytes@);
        }
    }
    string_from_utf8(text)
}

/// `String::from_utf8` of the standard library. The contract states what its
/// documentation says: the bytes become a string exactly when they are valid
/// UTF-8, and the string then holds the characters that they encode.
#[verifier::external_body]
fn string_from_utf8(bytes: Vec<u8>) -> (string: Option<String>)
    ensures
        string is Some <==> valid_utf8(bytes@),
        string matches Some(s) ==> s@ == decode_utf8(bytes@),
{
    match String::from_utf8(bytes) {
        Ok(string) => Some(string),
        Err(_) => None,
    }
}

/// The debugger's side sees exactly one text in given bytes.
pub proof fn lemma_text_is_unique(a: Seq<u8>, b: Seq<u8>, bytes: Seq<u8>)
    requires
        is_text_of(a, bytes),
        is_text_of(b, bytes),
    ensures
        a == b,
{
    if a.len() < b.len() {
        assert(b[a.len() as int] == bytes[a.len() as int]);
    } else if b.len() < a.len() {
        assert(a[b.len() as int] == bytes[b.len() as int]);
    }
}

/// What is marshalled in comes out again: the text that the debugger's side
/// sees in a C string is the string without its terminator.
pub proof fn lemma_c_string_holds_its_text(bytes: Seq<u8>)
    requires
        is_c_string(bytes),
    ensures
        is_text_of(bytes.drop_last(), bytes),
{
}

} // verus!
