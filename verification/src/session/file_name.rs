//! Reversible file names for session identities.
//!
//! A session is stored under `session-<hex>.jsonl`, where `<hex>` spells the
//! UTF-8 bytes of its identity in lower-case hexadecimal. The name holds no
//! separator, whatever the identity holds.

use crate::id::SessionId;
use crate::text::text_from_utf8;
use vstd::prelude::*;
use vstd::utf8::*;

verus! {

/// The digit of a nibble.
pub open spec fn hex_digit(nibble: int) -> char {
    if nibble < 10 {
        (48 + nibble) as char
    } else {
        (87 + nibble) as char
    }
}

/// The nibble that a byte spells, if it is a lower-case hexadecimal digit.
pub open spec fn hex_value(byte: u8) -> Option<u8> {
    if 48 <= byte <= 57 {
        Some((byte - 48) as u8)
    } else if 97 <= byte <= 102 {
        Some((byte - 87) as u8)
    } else {
        None
    }
}

/// Two digits for each byte, the high nibble first.
pub open spec fn hex_text(bytes: Seq<u8>) -> Seq<char> {
    Seq::new(
        2 * bytes.len(),
        |i: int|
            hex_digit(
                if i % 2 == 0 {
                    bytes[i / 2] as int / 16
                } else {
                    bytes[i / 2] as int % 16
                },
            ),
    )
}

/// Every byte is a digit and the digits pair up.
pub open spec fn is_hex(digits: Seq<u8>) -> bool {
    digits.len() % 2 == 0 && forall|i: int|
        0 <= i < digits.len() ==> hex_value(#[trigger] digits[i]) is Some
}

/// The bytes that pairs of digits spell.
pub open spec fn hex_bytes(digits: Seq<u8>) -> Seq<u8> {
    Seq::new(
        digits.len() / 2,
        |i: int| (hex_value(digits[2 * i])->0 * 16 + hex_value(digits[2 * i + 1])->0) as u8,
    )
}

pub open spec fn prefix() -> Seq<char> {
    seq!['s', 'e', 's', 's', 'i', 'o', 'n', '-']
}

pub open spec fn suffix() -> Seq<char> {
    seq!['.', 'j', 's', 'o', 'n', 'l']
}

/// The file name of a session.
pub open spec fn file_name(id: Seq<char>) -> Seq<char> {
    prefix() + hex_text(encode_utf8(id)) + suffix()
}

/// The identity that a file name stands for.
pub open spec fn named_session(name: Seq<char>) -> Option<Seq<char>> {
    let bytes = encode_utf8(name);
    let head = encode_utf8(prefix());
    let tail = encode_utf8(suffix());
    let end = bytes.len() - tail.len();
    if head.len() <= end && bytes.subrange(0, head.len() as int) == head && bytes.subrange(
        end,
        bytes.len() as int,
    ) == tail {
        let digits = bytes.subrange(head.len() as int, end);
        if is_hex(digits) && valid_utf8(hex_bytes(digits)) {
            Some(decode_utf8(hex_bytes(digits)))
        } else {
            None
        }
    } else {
        None
    }
}

fn hex_char(nibble: u8) -> (digit: char)
    requires
        nibble < 16,
    ensures
        digit == hex_digit(nibble as int),
{
    if nibble < 10 {
        (48 + nibble) as char
    } else {
        (87 + nibble) as char
    }
}

pub fn decode_hex_nibble(byte: u8) -> (nibble: Option<u8>)
    ensures
        nibble == hex_value(byte),
        nibble matches Some(n) ==> n < 16,
{
    if 48 <= byte && byte <= 57 {
        Some(byte - 48)
    } else if 97 <= byte && byte <= 102 {
        Some(byte - 87)
    } else {
        None
    }
}

pub fn encode_session_id(session_id: &SessionId) -> (encoded: String)
    ensures
        encoded@ == hex_text(encode_utf8(session_id@)),
{
    let bytes = session_id.as_str().as_bytes();
    let mut encoded = String::new();
    let mut i: usize = 0;
    while i < bytes.len()
        invariant
            i <= bytes@.len(),
            bytes@ == encode_utf8(session_id@),
            encoded@ == hex_text(bytes@.take(i as int)),
        decreases bytes@.len() - i,
    {
        let byte: u8 = bytes[i];
        let ghost before = encoded@;
        encoded.push(hex_char(byte / 16));
        encoded.push(hex_char(byte % 16));
        assert(encoded@ =~= hex_text(bytes@.take(i as int + 1))) by {
            let next = bytes@.take(i as int + 1);
            assert forall|j: int| 0 <= j < encoded@.len() implies encoded@[j] == hex_text(next)[j] by {
                if j < before.len() {
                    assert(before[j] == hex_text(bytes@.take(i as int))[j]);
                    assert(next[j / 2] == bytes@.take(i as int)[j / 2]);
                }
            }
        }
        i = i + 1;
    }
    assert(bytes@.take(bytes@.len() as int) =~= bytes@);
    encoded
}

/// Decodes the bytes between `from` and `to` as hexadecimal text.
fn decode_digits(bytes: &[u8], from: usize, to: usize) -> (id: Option<SessionId>)
    requires
        from <= to <= bytes@.len(),
    ensures
        ({
            let digits = bytes@.subrange(from as int, to as int);
            &&& id is Some <==> is_hex(digits) && valid_utf8(hex_bytes(digits))
            &&& id matches Some(s) ==> s@ == decode_utf8(hex_bytes(digits))
        }),
{
    let ghost digits = bytes@.subrange(from as int, to as int);
    if (to - from) % 2 != 0 {
        return None;
    }
    let mut decoded: Vec<u8> = Vec::new();
    let mut i: usize = from;
    while i < to
        invariant
            from <= i <= to <= bytes@.len(),
            (to - from) % 2 == 0,
            (i - from) % 2 == 0,
            digits == bytes@.subrange(from as int, to as int),
            decoded@.len() == (i - from) / 2,
            forall|j: int| 0 <= j < i - from ==> hex_value(#[trigger] digits[j]) is Some,
            decoded@ =~= hex_bytes(digits).take((i - from) / 2),
        decreases to - i,
    {
        let ghost at = (i - from) / 2;
        assert(digits[i - from] == bytes@[i as int]);
        assert(digits[i - from + 1] == bytes@[i as int + 1]);
        let high = match decode_hex_nibble(bytes[i]) {
            Some(n) => n,
            None => {
                return None;
            },
        };
        let low = match decode_hex_nibble(bytes[i + 1]) {
            Some(n) => n,
            None => {
                return None;
            },
        };
        decoded.push(high * 16 + low);
        assert(hex_bytes(digits)[at] == high * 16 + low) by {
            assert(2 * at == i - from);
        }
        i = i + 2;
    }
    assert(hex_bytes(digits).take(((to - from) / 2) as int) =~= hex_bytes(digits));
    match text_from_utf8(decoded) {
        Some(text) => {
            proof {
                encode_utf8_decode_utf8(text@);
            }
            Some(SessionId::new(text))
        },
        None => None,
    }
}

/// Decodes hexadecimal text; nothing unless it is what `encode_session_id`
/// gives for some identity.
pub fn decode_session_id(encoded: &str) -> (id: Option<SessionId>)
    ensures
        id is Some <==> is_hex(encode_utf8(encoded@)) && valid_utf8(
            hex_bytes(encode_utf8(encoded@)),
        ),
        id matches Some(s) ==> s@ == decode_utf8(hex_bytes(encode_utf8(encoded@))),
{
    let bytes = encoded.as_bytes();
    assert(bytes@.subrange(0, bytes@.len() as int) =~= bytes@);
    decode_digits(bytes, 0, bytes.len())
}

/// The path-contained, reversible file name for a session identity.
pub fn session_file_name(session_id: &SessionId) -> (name: String)
    ensures
        name@ == file_name(session_id@),
{
    proof {
        reveal_strlit("session-");
        reveal_strlit(".jsonl");
    }
    let mut name = String::new();
    name.push_str("session-");
    let encoded = encode_session_id(session_id);
    name.push_str(encoded.as_str());
    name.push_str(".jsonl");
    assert(name@ =~= file_name(session_id@));
    name
}

proof fn lemma_ascii(text: Seq<char>)
    requires
        is_ascii_chars(text),
    ensures
        encode_utf8(text).len() == text.len(),
        forall|i: int| 0 <= i < text.len() ==> #[trigger] encode_utf8(text)[i] == text[i] as u8,
{
    is_ascii_chars_encode_utf8(text);
}

fn bytes_match(bytes: &[u8], at: usize, expected: &[u8]) -> (answer: bool)
    requires
        at + expected@.len() <= bytes@.len(),
    ensures
        answer == (bytes@.subrange(at as int, at + expected@.len()) == expected@),
{
    let end: usize = bytes.len();
    let mut i: usize = 0;
    while i < expected.len()
        invariant
            i <= expected@.len(),
            end == bytes@.len(),
            at + expected@.len() <= bytes@.len(),
            forall|j: int| 0 <= j < i ==> bytes@[at + j] == expected@[j],
        decreases expected@.len() - i,
    {
        if bytes[at + i] != expected[i] {
            proof {
                assert(bytes@.subrange(at as int, at + expected@.len())[i as int] != expected@[i as int]);
            }
            return false;
        }
        i = i + 1;
    }
    assert(bytes@.subrange(at as int, at + expected@.len()) =~= expected@);
    true
}

/// Decodes a file name given by `session_file_name`.
pub fn session_id_from_file_name(name: &str) -> (id: Option<SessionId>)
    ensures
        id is Some <==> named_session(name@) is Some,
        id matches Some(s) ==> Some(s@) == named_session(name@),
{
    proof {
        reveal_strlit("session-");
        reveal_strlit(".jsonl");
        assert("session-"@ =~= prefix());
        assert(".jsonl"@ =~= suffix());
    }
    let bytes = name.as_bytes();
    let head = "session-".as_bytes();
    let tail = ".jsonl".as_bytes();
    if bytes.len() < tail.len() || bytes.len() - tail.len() < head.len() {
        return None;
    }
    let end: usize = bytes.len() - tail.len();
    if !bytes_match(bytes, 0, head) || !bytes_match(bytes, end, tail) {
        return None;
    }
    decode_digits(bytes, head.len(), end)
}

/// A file name gives back the identity it was made for.
pub proof fn file_name_round_trip(id: Seq<char>)
    ensures
        named_session(file_name(id)) == Some(id),
{
    let bytes = encode_utf8(id);
    let name = file_name(id);
    let text = hex_text(bytes);
    assert forall|i: int| 0 <= i < name.len() implies '\0' <= #[trigger] name[i] <= '\u{7f}' by {
        if 8 <= i < 8 + text.len() {
            assert(name[i] == text[i - 8]);
        }
    }
    lemma_ascii(name);
    lemma_ascii(prefix());
    lemma_ascii(suffix());
    let raw = encode_utf8(name);
    let end = raw.len() - 6;
    assert(raw.subrange(0, 8) =~= encode_utf8(prefix()));
    assert(raw.subrange(end, raw.len() as int) =~= encode_utf8(suffix()));
    let digits = raw.subrange(8, end);
    assert(digits.len() == 2 * bytes.len());
    assert forall|i: int| 0 <= i < digits.len() implies hex_value(#[trigger] digits[i]) == Some(
        (if i % 2 == 0 {
            bytes[i / 2] / 16
        } else {
            bytes[i / 2] % 16
        }) as u8,
    ) by {
        assert(digits[i] == name[i + 8] as u8);
        assert(name[i + 8] == text[i]);
    }
    assert(hex_bytes(digits) =~= bytes) by {
        assert forall|i: int| 0 <= i < bytes.len() implies #[trigger] hex_bytes(digits)[i] == bytes[i] by {
            assert(hex_value(digits[2 * i]) == Some((bytes[i] / 16) as u8));
            assert(hex_value(digits[2 * i + 1]) == Some((bytes[i] % 16) as u8));
        }
    }
    encode_utf8_valid_utf8(id);
    encode_utf8_decode_utf8(id);
}

/// Different identities never share a file.
pub proof fn file_name_injective(left: Seq<char>, right: Seq<char>)
    requires
        file_name(left) == file_name(right),
    ensures
        left == right,
{
    file_name_round_trip(left);
    file_name_round_trip(right);
}

/// No character of a file name can lead out of its directory: each is a letter,
/// a digit, `-` or `.`.
pub proof fn file_name_is_contained(id: Seq<char>, i: int)
    requires
        0 <= i < file_name(id).len(),
    ensures
        ({
            let c = file_name(id)[i];
            ('a' <= c <= 'z') || ('0' <= c <= '9') || c == '-' || c == '.'
        }),
{
    let text = hex_text(encode_utf8(id));
    let name = file_name(id);
    if 8 <= i < 8 + text.len() {
        assert(name[i] == text[i - 8]);
    } else if i >= 8 + text.len() {
        assert(name[i] == suffix()[i - 8 - text.len()]);
    } else {
        assert(name[i] == prefix()[i]);
    }
}

} // verus!
