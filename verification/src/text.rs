//! Text as the rules of this crate see it: blankness, byte size, equality.

use vstd::prelude::*;
use vstd::utf8::*;

verus! {

/// The Unicode `White_Space` property.
pub open spec fn is_white_space(c: char) -> bool {
    let u = c as u32;
    ||| 0x09 <= u <= 0x0d
    ||| u == 0x20
    ||| u == 0x85
    ||| u == 0xa0
    ||| u == 0x1680
    ||| 0x2000 <= u <= 0x200a
    ||| u == 0x2028
    ||| u == 0x2029
    ||| u == 0x202f
    ||| u == 0x205f
    ||| u == 0x3000
}

/// Nothing but white space, the empty text among it.
pub open spec fn is_blank(text: Seq<char>) -> bool {
    forall|i: int| 0 <= i < text.len() ==> is_white_space(#[trigger] text[i])
}

/// Size of a text in UTF-8 bytes.
pub open spec fn byte_len(text: Seq<char>) -> nat {
    encode_utf8(text).len()
}

/// A text that says something and fits into `limit` bytes.
pub open spec fn is_bounded_text(text: Seq<char>, limit: nat) -> bool {
    !is_blank(text) && byte_len(text) <= limit
}

/// Appends one character: `String::push` leaves the old text followed by `c`.
pub assume_specification[ String::push ](s: &mut String, c: char)
    ensures
        final(s)@ == old(s)@.push(c),
;

/// Appends a text: `String::push_str` leaves the old text followed by `tail`.
pub assume_specification[ String::push_str ](s: &mut String, tail: &str)
    ensures
        final(s)@ == old(s)@ + tail@,
;

/// `String::from_utf8`: succeeds exactly on well-formed UTF-8, and the text it
/// gives has those bytes.
#[verifier::external_body]
pub(crate) fn text_from_utf8(bytes: Vec<u8>) -> (text: Option<String>)
    ensures
        text is Some <==> valid_utf8(bytes@),
        text matches Some(t) ==> encode_utf8(t@) == bytes@,
{
    String::from_utf8(bytes).ok()
}

fn white_space(c: char) -> (answer: bool)
    ensures
        answer == is_white_space(c),
{
    let u: u32 = c as u32;
    (0x09 <= u && u <= 0x0d) || u == 0x20 || u == 0x85 || u == 0xa0 || u == 0x1680 || (0x2000 <= u
        && u <= 0x200a) || u == 0x2028 || u == 0x2029 || u == 0x202f || u == 0x205f || u == 0x3000
}

/// Whether `text` is empty once white space is trimmed.
pub fn blank(text: &str) -> (answer: bool)
    ensures
        answer == is_blank(text@),
{
    let mut all: bool = true;
    for c in rest: text.chars()
        invariant
            rest.seq() == text@,
            all == (forall|i: int| 0 <= i < rest.index() ==> is_white_space(#[trigger] text@[i])),
    {
        let white: bool = white_space(c);
        assert(text@[rest.index()] == c);
        if !white {
            all = false;
        }
    }
    all
}

/// Size of `text` in bytes.
pub fn size(text: &str) -> (bytes: usize)
    ensures
        bytes == byte_len(text@),
{
    text.as_bytes().len()
}

/// Whether `text` says something within `limit` bytes.
pub fn text_within(text: &str, limit: usize) -> (answer: bool)
    ensures
        answer == is_bounded_text(text@, limit as nat),
{
    !blank(text) && size(text) <= limit
}

/// Whether two texts are the same characters.
pub fn same_text(left: &str, right: &str) -> (answer: bool)
    ensures
        answer == (left@ == right@),
{
    let a = left.as_bytes();
    let b = right.as_bytes();
    proof {
        encode_utf8_decode_utf8(left@);
        encode_utf8_decode_utf8(right@);
    }
    if a.len() != b.len() {
        return false;
    }
    let mut i: usize = 0;
    while i < a.len()
        invariant
            i <= a.len(),
            a@.len() == b@.len(),
            a@ == encode_utf8(left@),
            b@ == encode_utf8(right@),
            forall|j: int| 0 <= j < i ==> a@[j] == b@[j],
        decreases a.len() - i,
    {
        if a[i] != b[i] {
            return false;
        }
        i = i + 1;
    }
    assert(a@ =~= b@);
    true
}

} // verus!
