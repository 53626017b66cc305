//! Reading JSON text, as a definition apart from how it is written. What is written here
//! is held to it: a value that was written can be read back.

use crate::json::{decimal, escaped, escaped_all, hex_digit, json_string};
use vstd::prelude::*;

verus! {

/// A JSON value. A number is kept as it is spelled.
pub enum JsonValue {
    Null,
    Truth(bool),
    Number(Seq<char>),
    Text(Seq<char>),
    List(Seq<JsonValue>),
    Object(Seq<Member>),
}

/// A value under its name in an object.
pub struct Member {
    pub key: Seq<char>,
    pub value: JsonValue,
}

/// What a hexadecimal digit counts.
pub open spec fn nibble(c: char) -> Option<int> {
    if '0' <= c <= '9' {
        Some(c as int - '0' as int)
    } else if 'a' <= c <= 'f' {
        Some(c as int - 'a' as int + 10)
    } else if 'A' <= c <= 'F' {
        Some(c as int - 'A' as int + 10)
    } else {
        None
    }
}

/// The character that a backslash at the front stands for, and how far it reaches.
/// Characters beyond the first plane are not spelled that way.
pub open spec fn unescaped(s: Seq<char>) -> Option<(char, int)> {
    if s.len() < 2 {
        None
    } else if s[1] == '"' {
        Some(('"', 2))
    } else if s[1] == '\\' {
        Some(('\\', 2))
    } else if s[1] == '/' {
        Some(('/', 2))
    } else if s[1] == 'b' {
        Some(('\u{8}', 2))
    } else if s[1] == 't' {
        Some(('\u{9}', 2))
    } else if s[1] == 'n' {
        Some(('\u{a}', 2))
    } else if s[1] == 'f' {
        Some(('\u{c}', 2))
    } else if s[1] == 'r' {
        Some(('\u{d}', 2))
    } else if s[1] == 'u' && s.len() >= 6 && nibble(s[2]) is Some && nibble(s[3]) is Some && nibble(
        s[4],
    ) is Some && nibble(s[5]) is Some {
        let code = nibble(s[2])->0 * 4096 + nibble(s[3])->0 * 256 + nibble(s[4])->0 * 16 + nibble(
            s[5],
        )->0;
        if code < 0xd800 {
            Some((code as char, 6))
        } else {
            None
        }
    } else {
        None
    }
}

/// The text up to the closing quote, and what follows it.
pub open spec fn read_text(s: Seq<char>) -> Option<(Seq<char>, Seq<char>)>
    decreases s.len(),
{
    if s.len() == 0 {
        None
    } else if s[0] == '"' {
        Some((Seq::empty(), s.skip(1)))
    } else if s[0] == '\\' {
        match unescaped(s) {
            Some((c, n)) => if 0 < n <= s.len() {
                match read_text(s.skip(n)) {
                    Some((text, rest)) => Some((seq![c] + text, rest)),
                    None => None,
                }
            } else {
                None
            },
            None => None,
        }
    } else {
        match read_text(s.skip(1)) {
            Some((text, rest)) => Some((seq![s[0]] + text, rest)),
            None => None,
        }
    }
}

pub open spec fn is_number_part(c: char) -> bool {
    '0' <= c <= '9' || c == '-' || c == '+' || c == '.' || c == 'e' || c == 'E'
}

/// How many characters at the front spell a number.
pub open spec fn number_len(s: Seq<char>) -> nat
    decreases s.len(),
{
    if s.len() == 0 || !is_number_part(s[0]) {
        0
    } else {
        1 + number_len(s.skip(1))
    }
}

/// The value at the front, and what follows it.
pub open spec fn read_value(s: Seq<char>) -> Option<(JsonValue, Seq<char>)>
    decreases s.len(), 0int,
{
    if s.len() == 0 {
        None
    } else if s[0] == '"' {
        match read_text(s.skip(1)) {
            Some((text, rest)) => Some((JsonValue::Text(text), rest)),
            None => None,
        }
    } else if s[0] == '{' {
        if s.len() > 1 && s[1] == '}' {
            Some((JsonValue::Object(Seq::empty()), s.skip(2)))
        } else {
            match read_members(s.skip(1)) {
                Some((members, rest)) => Some((JsonValue::Object(members), rest)),
                None => None,
            }
        }
    } else if s[0] == '[' {
        if s.len() > 1 && s[1] == ']' {
            Some((JsonValue::List(Seq::empty()), s.skip(2)))
        } else {
            match read_items(s.skip(1)) {
                Some((items, rest)) => Some((JsonValue::List(items), rest)),
                None => None,
            }
        }
    } else if s.len() >= 4 && s[0] == 'n' && s[1] == 'u' && s[2] == 'l' && s[3] == 'l' {
        Some((JsonValue::Null, s.skip(4)))
    } else if s.len() >= 4 && s[0] == 't' && s[1] == 'r' && s[2] == 'u' && s[3] == 'e' {
        Some((JsonValue::Truth(true), s.skip(4)))
    } else if s.len() >= 5 && s[0] == 'f' && s[1] == 'a' && s[2] == 'l' && s[3] == 's' && s[4]
        == 'e' {
        Some((JsonValue::Truth(false), s.skip(5)))
    } else if number_len(s) > 0 {
        Some((JsonValue::Number(s.take(number_len(s) as int)), s.skip(number_len(s) as int)))
    } else {
        None
    }
}

/// The members up to the closing brace, and what follows it.
pub open spec fn read_members(s: Seq<char>) -> Option<(Seq<Member>, Seq<char>)>
    decreases s.len(), 0int,
{
    if s.len() == 0 || s[0] != '"' {
        None
    } else {
        match read_text(s.skip(1)) {
            None => None,
            Some((key, tail)) => if tail.len() == 0 || tail[0] != ':' || tail.len() >= s.len() {
                None
            } else {
                match read_value(tail.skip(1)) {
                    None => None,
                    Some((value, after)) => if after.len() == 0 || after.len() >= s.len() {
                        None
                    } else if after[0] == '}' {
                        Some((seq![Member { key, value }], after.skip(1)))
                    } else if after[0] == ',' {
                        match read_members(after.skip(1)) {
                            None => None,
                            Some((more, rest)) => Some((seq![Member { key, value }] + more, rest)),
                        }
                    } else {
                        None
                    },
                }
            },
        }
    }
}

/// The items up to the closing bracket, and what follows it.
pub open spec fn read_items(s: Seq<char>) -> Option<(Seq<JsonValue>, Seq<char>)>
    decreases s.len(), 1int,
{
    match read_value(s) {
        None => None,
        Some((value, after)) => if after.len() == 0 || after.len() >= s.len() {
            None
        } else if after[0] == ']' {
            Some((seq![value], after.skip(1)))
        } else if after[0] == ',' && after.len() > 1 {
            match read_items(after.skip(1)) {
                None => None,
                Some((more, rest)) => Some((seq![value] + more, rest)),
            }
        } else {
            None
        },
    }
}

/// The whole text is one value.
pub open spec fn read_json(s: Seq<char>) -> Option<JsonValue> {
    match read_value(s) {
        Some((value, rest)) => if rest.len() == 0 {
            Some(value)
        } else {
            None
        },
        None => None,
    }
}

/// The value under a name in an object, the first of that name.
pub open spec fn field(value: JsonValue, key: Seq<char>) -> Option<JsonValue> {
    match value {
        JsonValue::Object(members) => member_from(members, key, 0),
        _ => None,
    }
}

pub open spec fn member_from(members: Seq<Member>, key: Seq<char>, k: int) -> Option<JsonValue>
    decreases members.len() - k,
{
    if k < 0 || k >= members.len() {
        None
    } else if members[k].key == key {
        Some(members[k].value)
    } else {
        member_from(members, key, k + 1)
    }
}

/// What a numeral counts.
pub open spec fn number_of(digits: Seq<char>) -> int
    decreases digits.len(),
{
    if digits.len() == 0 {
        0
    } else {
        number_of(digits.drop_last()) * 10 + (digits.last() as int - '0' as int)
    }
}

/// A place where a value may end.
pub open spec fn ends_value(rest: Seq<char>) -> bool {
    rest.len() == 0 || rest[0] == ',' || rest[0] == '}' || rest[0] == ']'
}

/// The text is read as the value, whatever follows it.
#[verifier::opaque]
pub open spec fn spells(text: Seq<char>, value: JsonValue) -> bool {
    forall|rest: Seq<char>|
        ends_value(rest) ==> #[trigger] read_value(text + rest) == Some((value, rest))
}

/// A text that spells a value is read as it.
pub proof fn spelled_is_read(text: Seq<char>, value: JsonValue)
    requires
        spells(text, value),
    ensures
        read_json(text) == Some(value),
{
    reveal(spells);
    assert(text + Seq::<char>::empty() =~= text);
    assert(read_value(text + Seq::<char>::empty()) == Some((value, Seq::<char>::empty())));
}

pub proof fn escaping_goes_by_character(c: char, text: Seq<char>)
    ensures
        escaped_all(seq![c] + text) == escaped(c) + escaped_all(text),
    decreases text.len(),
{
    let whole = seq![c] + text;
    if text.len() == 0 {
        assert(whole.drop_last() =~= Seq::<char>::empty());
        assert(escaped_all(whole.drop_last()) =~= Seq::<char>::empty());
        assert(escaped_all(whole) =~= escaped(c));
        assert(escaped(c) + escaped_all(text) =~= escaped(c));
    } else {
        assert(whole.drop_last() =~= seq![c] + text.drop_last());
        escaping_goes_by_character(c, text.drop_last());
        assert((escaped(c) + escaped_all(text.drop_last())) + escaped(text.last()) =~= escaped(c) + (
        escaped_all(text.drop_last()) + escaped(text.last())));
    }
}

proof fn nibbles_are_read(n: int)
    requires
        0 <= n < 16,
    ensures
        nibble(hex_digit(n)) == Some(n),
{
}

/// A character that was escaped is read back.
proof fn escape_is_read(c: char, rest: Seq<char>)
    ensures
        match read_text(rest) {
            Some((text, tail)) => read_text(escaped(c) + rest) == Some((seq![c] + text, tail)),
            None => read_text(escaped(c) + rest) is None,
        },
{
    let s = escaped(c) + rest;
    let n = escaped(c).len() as int;
    assert(s.skip(n) =~= rest);
    let u = c as u32;
    if u < 32 {
        nibbles_are_read(u as int / 16);
        nibbles_are_read(u as int % 16);
        nibbles_are_read(0);
    }
}

/// A text that was quoted is read back.
pub proof fn quoted_is_read(text: Seq<char>, rest: Seq<char>)
    ensures
        read_text(escaped_all(text) + (seq!['"'] + rest)) == Some((text, rest)),
    decreases text.len(),
{
    let tail = seq!['"'] + rest;
    if text.len() == 0 {
        assert(escaped_all(text) + tail =~= tail);
        assert(tail.skip(1) =~= rest);
        assert(text =~= Seq::<char>::empty());
    } else {
        let c = text[0];
        let more = text.skip(1);
        assert(text =~= seq![c] + more);
        escaping_goes_by_character(c, more);
        quoted_is_read(more, rest);
        assert((escaped(c) + escaped_all(more)) + tail =~= escaped(c) + (escaped_all(more) + tail));
        escape_is_read(c, escaped_all(more) + tail);
    }
}

pub proof fn text_is_spelled(text: Seq<char>)
    ensures
        spells(json_string(text), JsonValue::Text(text)),
{
    reveal(spells);
    assert forall|rest: Seq<char>| ends_value(rest) implies #[trigger] read_value(
        json_string(text) + rest,
    ) == Some((JsonValue::Text(text), rest)) by {
        let s = json_string(text) + rest;
        assert(s.skip(1) =~= escaped_all(text) + (seq!['"'] + rest));
        quoted_is_read(text, rest);
    }
}

pub proof fn digits_are_read(n: nat, rest: Seq<char>)
    requires
        ends_value(rest),
    ensures
        number_len(decimal(n) + rest) == decimal(n).len(),
        decimal(n).len() > 0,
        '0' <= decimal(n)[0] <= '9',
        number_of(decimal(n)) == n,
{
    digits_of(n);
    digits_run(decimal(n), rest);
}

proof fn digits_of(n: nat)
    ensures
        decimal(n).len() > 0,
        forall|i: int| 0 <= i < decimal(n).len() ==> '0' <= #[trigger] decimal(n)[i] <= '9',
        number_of(decimal(n)) == n,
    decreases n,
{
    let digit = (48 + n % 10) as char;
    if n < 10 {
        assert(decimal(n) =~= seq![digit]);
        assert(decimal(n).drop_last() =~= Seq::<char>::empty());
        assert(number_of(Seq::<char>::empty()) == 0);
    } else {
        digits_of(n / 10);
        assert(decimal(n).drop_last() =~= decimal(n / 10));
    }
}

proof fn digits_run(digits: Seq<char>, rest: Seq<char>)
    requires
        forall|i: int| 0 <= i < digits.len() ==> '0' <= #[trigger] digits[i] <= '9',
        ends_value(rest),
    ensures
        number_len(digits + rest) == digits.len(),
    decreases digits.len(),
{
    let s = digits + rest;
    if digits.len() == 0 {
        assert(s =~= rest);
    } else {
        assert(s.skip(1) =~= digits.skip(1) + rest);
        digits_run(digits.skip(1), rest);
    }
}

pub proof fn number_is_spelled(n: nat)
    ensures
        spells(decimal(n), JsonValue::Number(decimal(n))),
        number_of(decimal(n)) == n,
{
    reveal(spells);
    digits_of(n);
    assert forall|rest: Seq<char>| ends_value(rest) implies #[trigger] read_value(decimal(n) + rest)
        == Some((JsonValue::Number(decimal(n)), rest)) by {
        let s = decimal(n) + rest;
        digits_are_read(n, rest);
        assert(s[0] == decimal(n)[0]);
        assert(s.take(decimal(n).len() as int) =~= decimal(n));
        assert(s.skip(decimal(n).len() as int) =~= rest);
    }
}

pub proof fn null_is_spelled()
    ensures
        spells("null"@, JsonValue::Null),
{
    reveal(spells);
    reveal_strlit("null");
    assert forall|rest: Seq<char>| ends_value(rest) implies #[trigger] read_value("null"@ + rest)
        == Some((JsonValue::Null, rest)) by {
        assert(("null"@ + rest).skip(4) =~= rest);
    }
}

pub proof fn truth_is_spelled(value: bool)
    ensures
        spells(
            if value {
                "true"@
            } else {
                "false"@
            },
            JsonValue::Truth(value),
        ),
{
    reveal(spells);
    reveal_strlit("true");
    reveal_strlit("false");
    if value {
        assert forall|rest: Seq<char>| ends_value(rest) implies #[trigger] read_value(
            "true"@ + rest,
        ) == Some((JsonValue::Truth(true), rest)) by {
            assert(("true"@ + rest).skip(4) =~= rest);
        }
    } else {
        assert forall|rest: Seq<char>| ends_value(rest) implies #[trigger] read_value(
            "false"@ + rest,
        ) == Some((JsonValue::Truth(false), rest)) by {
            assert(("false"@ + rest).skip(5) =~= rest);
        }
    }
}

/// A name that is written as it is.
pub open spec fn is_plain(key: Seq<char>) -> bool {
    forall|i: int| 0 <= i < key.len() ==> key[i] != '"' && #[trigger] key[i] != '\\'
}

/// A name in front of its value.
pub open spec fn named(key: Seq<char>) -> Seq<char> {
    seq!['"'] + key + seq!['"', ':']
}

/// The text is read as the members up to and with the closing brace, whatever follows it.
#[verifier::opaque]
pub open spec fn closes_with(text: Seq<char>, members: Seq<Member>) -> bool {
    forall|rest: Seq<char>| #[trigger] read_members(text + rest) == Some((members, rest))
}

/// The text is read as the items up to and with the closing bracket, whatever follows it.
#[verifier::opaque]
pub open spec fn lists(text: Seq<char>, items: Seq<JsonValue>) -> bool {
    forall|rest: Seq<char>| #[trigger] read_items(text + rest) == Some((items, rest))
}

proof fn plain_is_read(key: Seq<char>, rest: Seq<char>)
    requires
        is_plain(key),
    ensures
        read_text(key + (seq!['"'] + rest)) == Some((key, rest)),
    decreases key.len(),
{
    let tail = seq!['"'] + rest;
    if key.len() == 0 {
        assert(key + tail =~= tail);
        assert(tail.skip(1) =~= rest);
        assert(key =~= Seq::<char>::empty());
    } else {
        assert((key + tail).skip(1) =~= key.skip(1) + tail);
        assert forall|i: int| 0 <= i < key.skip(1).len() implies key.skip(1)[i] != '"'
            && #[trigger] key.skip(1)[i] != '\\' by {
            assert(key[i + 1] != '\\');
        }
        plain_is_read(key.skip(1), rest);
        assert(seq![key[0]] + key.skip(1) =~= key);
    }
}

/// A plain name is its own quotation.
pub proof fn plain_is_quoted(key: Seq<char>)
    requires
        is_plain(key),
    ensures
        spells(seq!['"'] + key + seq!['"'], JsonValue::Text(key)),
{
    reveal(spells);
    let whole = seq!['"'] + key + seq!['"'];
    assert forall|rest: Seq<char>| ends_value(rest) implies #[trigger] read_value(whole + rest)
        == Some((JsonValue::Text(key), rest)) by {
        assert((whole + rest).skip(1) =~= key + (seq!['"'] + rest));
        plain_is_read(key, rest);
    }
}

proof fn name_is_read(key: Seq<char>, text: Seq<char>, value: JsonValue, rest: Seq<char>)
    requires
        is_plain(key),
        spells(text, value),
        ends_value(rest),
        rest.len() > 0,
    ensures
        ({
            let s = named(key) + (text + rest);
            &&& s.len() > 0
            &&& s[0] == '"'
            &&& read_text(s.skip(1)) == Some((key, seq![':'] + (text + rest)))
            &&& (seq![':'] + (text + rest)).skip(1) == text + rest
            &&& read_value(text + rest) == Some((value, rest))
            &&& rest.len() < s.len()
            &&& (text + rest).len() + 1 < s.len()
        }),
{
    reveal(spells);
    let s = named(key) + (text + rest);
    assert(s.skip(1) =~= key + (seq!['"'] + (seq![':'] + (text + rest))));
    plain_is_read(key, seq![':'] + (text + rest));
    assert((seq![':'] + (text + rest)).skip(1) =~= text + rest);
}

/// The last member of an object.
#[verifier::spinoff_prover]
pub proof fn last_member(key: Seq<char>, text: Seq<char>, value: JsonValue)
    requires
        is_plain(key),
        spells(text, value),
    ensures
        closes_with(named(key) + (text + seq!['}']), seq![Member { key, value }]),
{
    reveal(closes_with);
    let whole = named(key) + (text + seq!['}']);
    assert forall|rest: Seq<char>| #[trigger] read_members(whole + rest) == Some((seq![Member { key, value }], rest)) by {
        let tail = seq!['}'] + rest;
        name_is_read(key, text, value, tail);
        assert(whole + rest =~= named(key) + (text + tail));
        assert(tail.skip(1) =~= rest);
    }
}

/// One more member in front of others.
#[verifier::spinoff_prover]
pub proof fn one_more_member(
    key: Seq<char>,
    text: Seq<char>,
    value: JsonValue,
    others: Seq<char>,
    members: Seq<Member>,
)
    requires
        is_plain(key),
        spells(text, value),
        closes_with(others, members),
    ensures
        closes_with(
            named(key) + (text + (seq![','] + others)),
            seq![Member { key, value }] + members,
        ),
{
    reveal(closes_with);
    let whole = named(key) + (text + (seq![','] + others));
    assert forall|rest: Seq<char>| #[trigger] read_members(whole + rest) == Some((seq![Member { key, value }] + members, rest)) by {
        let tail = seq![','] + (others + rest);
        name_is_read(key, text, value, tail);
        assert(whole + rest =~= named(key) + (text + tail));
        assert(tail.skip(1) =~= others + rest);
        assert(read_members(others + rest) == Some((members, rest)));
    }
}

/// An object is a brace and its members.
#[verifier::spinoff_prover]
pub proof fn object_is_spelled(text: Seq<char>, members: Seq<Member>)
    requires
        closes_with(text, members),
    ensures
        spells(seq!['{'] + text, JsonValue::Object(members)),
{
    reveal(spells);
    reveal(closes_with);
    let whole = seq!['{'] + text;
    assert forall|rest: Seq<char>| ends_value(rest) implies #[trigger] read_value(whole + rest)
        == Some((JsonValue::Object(members), rest)) by {
        let s = whole + rest;
        assert(s.skip(1) =~= text + rest);
        assert(read_members(text + rest) == Some((members, rest)));
        assert((text + rest)[0] == '"');
        assert(s[1] == (text + rest)[0]);
    }
}

/// The last item of a list.
#[verifier::spinoff_prover]
pub proof fn last_item(text: Seq<char>, value: JsonValue)
    requires
        spells(text, value),
        text.len() > 0,
    ensures
        lists(text + seq![']'], seq![value]),
{
    reveal(lists);
    reveal(spells);
    let whole = text + seq![']'];
    assert forall|rest: Seq<char>| #[trigger] read_items(whole + rest) == Some(
        (seq![value], rest),
    ) by {
        let tail = seq![']'] + rest;
        assert(whole + rest =~= text + tail);
        assert(read_value(text + tail) == Some((value, tail)));
        assert(tail.skip(1) =~= rest);
    }
}

/// One more item in front of others.
#[verifier::spinoff_prover]
pub proof fn one_more_item(text: Seq<char>, value: JsonValue, others: Seq<char>, items: Seq<JsonValue>)
    requires
        spells(text, value),
        text.len() > 0,
        others.len() > 0,
        lists(others, items),
    ensures
        lists(text + (seq![','] + others), seq![value] + items),
{
    reveal(lists);
    reveal(spells);
    let whole = text + (seq![','] + others);
    assert forall|rest: Seq<char>| #[trigger] read_items(whole + rest)
        == Some((seq![value] + items, rest)) by {
        let tail = seq![','] + (others + rest);
        assert(whole + rest =~= text + tail);
        assert(read_value(text + tail) == Some((value, tail)));
        assert(tail.skip(1) =~= others + rest);
        assert(read_items(others + rest) == Some((items, rest)));
    }
}

/// A list is a bracket and its items, none of which starts with the closing bracket.
#[verifier::spinoff_prover]
pub proof fn list_is_spelled(text: Seq<char>, items: Seq<JsonValue>)
    requires
        lists(text, items),
        text.len() > 0,
        text[0] != ']',
    ensures
        spells(seq!['['] + text, JsonValue::List(items)),
{
    reveal(spells);
    reveal(lists);
    let whole = seq!['['] + text;
    assert forall|rest: Seq<char>| ends_value(rest) implies #[trigger] read_value(whole + rest)
        == Some((JsonValue::List(items), rest)) by {
        let s = whole + rest;
        assert(s.skip(1) =~= text + rest);
        assert(read_items(text + rest) == Some((items, rest)));
        assert(s[1] == text[0]);
    }
}

pub proof fn empty_list_is_spelled()
    ensures
        spells(seq!['[', ']'], JsonValue::List(Seq::empty())),
{
    reveal(spells);
    let whole = seq!['[', ']'];
    assert forall|rest: Seq<char>| ends_value(rest) implies #[trigger] read_value(whole + rest)
        == Some((JsonValue::List(Seq::empty()), rest)) by {
        assert((whole + rest).skip(2) =~= rest);
    }
}

proof fn text_goes_on(s: Seq<char>, rest: Seq<char>)
    ensures
        read_text(s) matches Some((text, tail)) ==> read_text(s + rest) == Some((text, tail + rest))
            && tail.len() < s.len(),
    decreases s.len(),
{
    if s.len() > 0 {
        if s[0] == '"' {
            assert((s + rest).skip(1) =~= s.skip(1) + rest);
        } else if s[0] == '\\' {
            match unescaped(s) {
                Some((_, n)) => {
                    if 0 < n <= s.len() {
                        assert(unescaped(s + rest) == unescaped(s));
                        assert((s + rest).skip(n) =~= s.skip(n) + rest);
                        text_goes_on(s.skip(n), rest);
                    }
                },
                None => {},
            }
        } else {
            assert((s + rest).skip(1) =~= s.skip(1) + rest);
            text_goes_on(s.skip(1), rest);
        }
    }
}

proof fn number_goes_on(s: Seq<char>, rest: Seq<char>)
    requires
        ends_value(rest) || number_len(s) < s.len(),
    ensures
        number_len(s) <= s.len(),
        number_len(s + rest) == number_len(s),
    decreases s.len(),
{
    if s.len() == 0 {
        assert(s + rest =~= rest);
    } else if is_number_part(s[0]) {
        assert((s + rest).skip(1) =~= s.skip(1) + rest);
        number_goes_on(s.skip(1), rest);
    }
}

proof fn number_fits(s: Seq<char>)
    ensures
        number_len(s) <= s.len(),
    decreases s.len(),
{
    if s.len() > 0 {
        number_fits(s.skip(1));
    }
}

proof fn value_goes_on(s: Seq<char>, rest: Seq<char>)
    ensures
        read_value(s) matches Some((value, tail)) ==> tail.len() < s.len() && (ends_value(rest)
            || tail.len() > 0 ==> read_value(s + rest) == Some((value, tail + rest))),
    decreases s.len(), 0int,
{
    if s.len() > 0 {
        let whole = s + rest;
        assert(whole[0] == s[0]);
        if s[0] == '"' {
            assert(whole.skip(1) =~= s.skip(1) + rest);
            text_goes_on(s.skip(1), rest);
        } else if s[0] == '{' {
            if s.len() > 1 && s[1] == '}' {
                assert(whole.skip(2) =~= s.skip(2) + rest);
            } else {
                assert(whole.skip(1) =~= s.skip(1) + rest);
                members_go_on(s.skip(1), rest);
            }
        } else if s[0] == '[' {
            if s.len() > 1 && s[1] == ']' {
                assert(whole.skip(2) =~= s.skip(2) + rest);
            } else {
                assert(whole.skip(1) =~= s.skip(1) + rest);
                items_go_on(s.skip(1), rest);
            }
        } else if s.len() >= 4 && s[0] == 'n' && s[1] == 'u' && s[2] == 'l' && s[3] == 'l' {
            assert(whole.skip(4) =~= s.skip(4) + rest);
        } else if s.len() >= 4 && s[0] == 't' && s[1] == 'r' && s[2] == 'u' && s[3] == 'e' {
            assert(whole.skip(4) =~= s.skip(4) + rest);
        } else if s.len() >= 5 && s[0] == 'f' && s[1] == 'a' && s[2] == 'l' && s[3] == 's' && s[4]
            == 'e' {
            assert(whole.skip(5) =~= s.skip(5) + rest);
        } else if number_len(s) > 0 {
            let n = number_len(s) as int;
            number_fits(s);
            assert(is_number_part(s[0]));
            if ends_value(rest) || s.skip(n).len() > 0 {
                number_goes_on(s, rest);
                assert(whole.take(n) =~= s.take(n));
                assert(whole.skip(n) =~= s.skip(n) + rest);
            }
        }
    }
}

proof fn members_go_on(s: Seq<char>, rest: Seq<char>)
    ensures
        read_members(s) matches Some((members, tail)) ==> read_members(s + rest) == Some(
            (members, tail + rest),
        ) && tail.len() < s.len() && s.len() > 0 && s[0] == '"',
    decreases s.len(), 0int,
{
    if s.len() > 0 && s[0] == '"' {
        assert((s + rest).skip(1) =~= s.skip(1) + rest);
        text_goes_on(s.skip(1), rest);
        match read_text(s.skip(1)) {
            Some((key, tail)) => {
                if tail.len() > 0 && tail[0] == ':' {
                    assert((tail + rest).skip(1) =~= tail.skip(1) + rest);
                    value_goes_on(tail.skip(1), rest);
                    match read_value(tail.skip(1)) {
                        Some((value, after)) => {
                            if after.len() > 0 {
                                assert((after + rest)[0] == after[0]);
                                assert((after + rest).skip(1) =~= after.skip(1) + rest);
                                members_go_on(after.skip(1), rest);
                            }
                        },
                        None => {},
                    }
                }
            },
            None => {},
        }
    }
}

proof fn items_go_on(s: Seq<char>, rest: Seq<char>)
    ensures
        read_items(s) matches Some((items, tail)) ==> read_items(s + rest) == Some(
            (items, tail + rest),
        ) && tail.len() < s.len() && s.len() > 0 && s[0] != ']',
    decreases s.len(), 1int,
{
    value_goes_on(s, rest);
    match read_value(s) {
        Some((value, after)) => {
            if after.len() > 0 {
                assert((after + rest)[0] == after[0]);
                assert((after + rest).skip(1) =~= after.skip(1) + rest);
                if after[0] == ',' && after.len() > 1 {
                    items_go_on(after.skip(1), rest);
                }
            }
        },
        None => {},
    }
}

/// A text that is read as a value spells it wherever a value may stand.
pub proof fn read_is_spelled(text: Seq<char>)
    requires
        read_json(text) is Some,
    ensures
        spells(text, read_json(text)->0),
        text.len() > 0,
{
    reveal(spells);
    let value = read_json(text)->0;
    assert forall|rest: Seq<char>| ends_value(rest) implies #[trigger] read_value(text + rest)
        == Some((value, rest)) by {
        value_goes_on(text, rest);
        assert(Seq::<char>::empty() + rest =~= rest);
        let (_, tail) = read_value(text)->0;
        assert(tail =~= Seq::<char>::empty());
    }
}

/// Texts with commas between them.
pub open spec fn joined(texts: Seq<Seq<char>>) -> Seq<char>
    decreases texts.len(),
{
    if texts.len() == 0 {
        Seq::empty()
    } else if texts.len() == 1 {
        texts[0]
    } else {
        joined(texts.drop_last()) + seq![','] + texts.last()
    }
}

/// Each text spells the value at its place.
pub open spec fn spell_all(texts: Seq<Seq<char>>, values: Seq<JsonValue>) -> bool {
    &&& texts.len() == values.len()
    &&& forall|i: int|
        0 <= i < texts.len() ==> spells(#[trigger] texts[i], values[i]) && texts[i].len() > 0
            && texts[i][0] != ']'
}

#[verifier::spinoff_prover]
proof fn joined_go_before(
    texts: Seq<Seq<char>>,
    values: Seq<JsonValue>,
    others: Seq<char>,
    items: Seq<JsonValue>,
)
    requires
        texts.len() > 0,
        spell_all(texts, values),
        others.len() > 0,
        lists(others, items),
    ensures
        lists(joined(texts) + (seq![','] + others), values + items),
        joined(texts).len() > 0,
        joined(texts)[0] != ']',
    decreases texts.len(),
{
    let n = texts.len() as int;
    let last = texts.last();
    one_more_item(last, values.last(), others, items);
    let tail = last + (seq![','] + others);
    let more = seq![values.last()] + items;
    if n == 1 {
        assert(values + items =~= more);
    } else {
        let front = texts.drop_last();
        let heads = values.drop_last();
        assert forall|i: int| 0 <= i < front.len() implies spells(#[trigger] front[i], heads[i])
            && front[i].len() > 0 && front[i][0] != ']' by {
            assert(front[i] == texts[i]);
        }
        joined_go_before(front, heads, tail, more);
        assert(joined(texts) + (seq![','] + others) =~= joined(front) + (seq![','] + tail));
        assert(values + items =~= heads + more);
    }
}

/// A bracketed list of texts that spell values is read as the list of those values.
#[verifier::spinoff_prover]
pub proof fn joined_is_spelled(texts: Seq<Seq<char>>, values: Seq<JsonValue>)
    requires
        spell_all(texts, values),
    ensures
        spells(seq!['['] + (joined(texts) + seq![']']), JsonValue::List(values)),
{
    let n = texts.len() as int;
    if n == 0 {
        empty_list_is_spelled();
        assert(seq!['['] + (joined(texts) + seq![']']) =~= seq!['[', ']']);
        assert(values =~= Seq::<JsonValue>::empty());
    } else {
        let last = texts.last();
        last_item(last, values.last());
        let tail = last + seq![']'];
        if n == 1 {
            assert(values =~= seq![values.last()]);
            list_is_spelled(tail, values);
        } else {
            let front = texts.drop_last();
            let heads = values.drop_last();
            assert forall|i: int| 0 <= i < front.len() implies spells(#[trigger] front[i], heads[i])
                && front[i].len() > 0 && front[i][0] != ']' by {
                assert(front[i] == texts[i]);
            }
            joined_go_before(front, heads, tail, seq![values.last()]);
            let text = joined(front) + (seq![','] + tail);
            assert(joined(texts) + seq![']'] =~= text);
            assert(heads + seq![values.last()] =~= values);
            assert(text[0] == joined(front)[0]);
            list_is_spelled(text, values);
        }
    }
}

/// The first member of a name is the one that is found under it.
pub proof fn member_is_found(members: Seq<Member>, key: Seq<char>, i: int)
    requires
        0 <= i < members.len(),
        members[i].key == key,
        forall|j: int| 0 <= j < i ==> (#[trigger] members[j]).key != key,
    ensures
        field(JsonValue::Object(members), key) == Some(members[i].value),
{
    member_is_found_from(members, key, i, 0);
}

proof fn member_is_found_from(members: Seq<Member>, key: Seq<char>, i: int, k: int)
    requires
        0 <= k <= i < members.len(),
        members[i].key == key,
        forall|j: int| 0 <= j < i ==> (#[trigger] members[j]).key != key,
    ensures
        member_from(members, key, k) == Some(members[i].value),
    decreases i - k,
{
    if k < i {
        member_is_found_from(members, key, i, k + 1);
    }
}

/// No member of a name is there to be found.
pub proof fn member_is_missing(members: Seq<Member>, key: Seq<char>)
    requires
        forall|j: int| 0 <= j < members.len() ==> (#[trigger] members[j]).key != key,
    ensures
        field(JsonValue::Object(members), key) is None,
{
    member_is_missing_from(members, key, 0);
}

proof fn member_is_missing_from(members: Seq<Member>, key: Seq<char>, k: int)
    requires
        0 <= k <= members.len(),
        forall|j: int| 0 <= j < members.len() ==> (#[trigger] members[j]).key != key,
    ensures
        member_from(members, key, k) is None,
    decreases members.len() - k,
{
    if k < members.len() {
        member_is_missing_from(members, key, k + 1);
    }
}

/// What stands behind a member of an object: the closing brace, or a comma and the other
/// members.
pub open spec fn follows_member(after: Seq<char>, members: Seq<Member>) -> bool {
    ||| after == seq!['}'] && members == Seq::<Member>::empty()
    ||| after.len() > 0 && after[0] == ',' && closes_with(after.skip(1), members)
}

/// A member in front of what stands behind it.
pub open spec fn member_text(key: Seq<char>, text: Seq<char>, after: Seq<char>) -> Seq<char> {
    seq![','] + (named(key) + (text + after))
}

/// One more member in front, whether or not others follow.
#[verifier::spinoff_prover]
pub proof fn member_goes_before(
    key: Seq<char>,
    text: Seq<char>,
    value: JsonValue,
    after: Seq<char>,
    members: Seq<Member>,
)
    requires
        is_plain(key),
        spells(text, value),
        follows_member(after, members),
    ensures
        follows_member(member_text(key, text, after), seq![Member { key, value }] + members),
        closes_with(named(key) + (text + after), seq![Member { key, value }] + members),
        forall|name: Seq<char>| #[trigger]
            field(JsonValue::Object(seq![Member { key, value }] + members), name) == if name == key {
                Some(value)
            } else {
                field(JsonValue::Object(members), name)
            },
{
    let whole = named(key) + (text + after);
    let all = seq![Member { key, value }] + members;
    if after == seq!['}'] && members == Seq::<Member>::empty() {
        last_member(key, text, value);
        assert(all =~= seq![Member { key, value }]);
    } else {
        one_more_member(key, text, value, after.skip(1), members);
        assert(after =~= seq![','] + after.skip(1));
    }
    assert(member_text(key, text, after).skip(1) =~= whole);
    assert forall|name: Seq<char>| #[trigger] field(JsonValue::Object(all), name) == if name == key {
        Some(value)
    } else {
        field(JsonValue::Object(members), name)
    } by {
        if name != key {
            shifted(members, all, name, 0);
        }
    }
}

proof fn shifted(members: Seq<Member>, all: Seq<Member>, name: Seq<char>, k: int)
    requires
        all.len() == members.len() + 1,
        forall|i: int| 0 <= i < members.len() ==> #[trigger] members[i] == all[i + 1],
        0 <= k <= members.len(),
    ensures
        member_from(all, name, k + 1) == member_from(members, name, k),
    decreases members.len() - k,
{
    if k < members.len() {
        shifted(members, all, name, k + 1);
    }
}

} // verus!
