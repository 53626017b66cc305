//! JSON values as text, and the text of JSON strings.

use crate::record::Record;
use vstd::prelude::*;

verus! {

/// A JSON value in its compact text form, object keys in order. Records that hold one
/// are the same where its text is; as values two texts are also the same where they
/// differ in the sign of a zero alone.
#[derive(Debug, PartialEq, Eq)]
pub struct Json {
    text: String,
}

impl Json {
    pub closed spec fn view(&self) -> Seq<char> {
        self.text@
    }

    /// A value whose compact text is at hand.
    pub fn from_compact(text: String) -> (json: Json)
        ensures
            json@ == text@,
    {
        Json { text }
    }

    pub fn as_str(&self) -> (text: &str)
        ensures
            text@ == self@,
    {
        self.text.as_str()
    }

    /// Whether two values are the same.
    pub fn is_same_value(&self, other: &Json) -> (answer: bool)
        ensures
            answer == same_value(self@, other@),
    {
        let left = unsigned(self.text.as_str());
        let right = unsigned(other.text.as_str());
        if left.len() != right.len() {
            return false;
        }
        let mut i: usize = 0;
        while i < left.len()
            invariant
                i <= left@.len(),
                left@ == without_signs(self@, self@.len() as int),
                right@ == without_signs(other@, other@.len() as int),
                left@.len() == right@.len(),
                forall|k: int| 0 <= k < i ==> left@[k] == right@[k],
            decreases left@.len() - i,
        {
            if left[i] != right[i] {
                return false;
            }
            i = i + 1;
        }
        assert(left@ =~= right@);
        true
    }
}

/// Where a character of a JSON text stands: outside strings, inside one, or behind a
/// backslash in one.
#[derive(Clone, Copy, Debug, PartialEq, Eq, Structural)]
enum Place {
    Outside,
    Inside,
    Escaped,
}

spec fn place_after(place: Place, c: char) -> Place {
    match place {
        Place::Outside => if c == '"' {
            Place::Inside
        } else {
            Place::Outside
        },
        Place::Inside => if c == '"' {
            Place::Outside
        } else if c == '\\' {
            Place::Escaped
        } else {
            Place::Inside
        },
        Place::Escaped => Place::Inside,
    }
}

/// Where the `n`th character stands.
spec fn place_at(text: Seq<char>, n: int) -> Place
    decreases n,
{
    if n <= 0 {
        Place::Outside
    } else {
        place_after(place_at(text, n - 1), text[n - 1])
    }
}

spec fn goes_on_as_number(c: char) -> bool {
    '0' <= c <= '9' || c == 'e' || c == 'E'
}

/// The `i`th character is the sign of the number `-0.0`.
pub closed spec fn is_sign_of_zero(text: Seq<char>, i: int) -> bool {
    &&& place_at(text, i) == Place::Outside
    &&& 0 <= i
    &&& i + 3 < text.len()
    &&& text[i] == '-'
    &&& text[i + 1] == '0'
    &&& text[i + 2] == '.'
    &&& text[i + 3] == '0'
    &&& i + 4 < text.len() ==> !goes_on_as_number(text[i + 4])
}

pub(crate) proof fn signs_are_minus(text: Seq<char>, i: int)
    requires
        is_sign_of_zero(text, i),
    ensures
        0 <= i < text.len(),
        text[i] == '-',
{
}

/// The first `n` characters without the signs of zeros.
pub open spec fn without_signs(text: Seq<char>, n: int) -> Seq<char>
    decreases n,
{
    if n <= 0 {
        Seq::empty()
    } else if is_sign_of_zero(text, n - 1) {
        without_signs(text, n - 1)
    } else {
        without_signs(text, n - 1).push(text[n - 1])
    }
}

/// Two compact texts are of the same value: zero is the same number under both signs,
/// every other number has one text.
pub open spec fn same_value(left: Seq<char>, right: Seq<char>) -> bool {
    without_signs(left, left.len() as int) == without_signs(right, right.len() as int)
}

/// Both are absent, or both are there with the same value.
pub open spec fn same_optional(left: Option<Seq<char>>, right: Option<Seq<char>>) -> bool {
    match (left, right) {
        (Some(left), Some(right)) => same_value(left, right),
        (None, None) => true,
        _ => false,
    }
}

/// Whether both are absent, or both there with the same value.
pub fn same_optional_value(left: &Option<Json>, right: &Option<Json>) -> (answer: bool)
    ensures
        answer == same_optional(left.deep_view(), right.deep_view()),
{
    match (left, right) {
        (Some(left), Some(right)) => left.is_same_value(right),
        (None, None) => true,
        _ => false,
    }
}

fn characters(text: &str) -> (found: Vec<char>)
    ensures
        found@ == text@,
{
    let mut found: Vec<char> = Vec::new();
    for c in rest: text.chars()
        invariant
            rest.seq() == text@,
            found@ == text@.take(rest.index()),
    {
        found.push(c);
        assert(found@ =~= text@.take(rest.index() + 1));
    }
    assert(text@.take(text@.len() as int) =~= text@);
    found
}

/// The characters of a text without the signs of zeros.
fn unsigned(text: &str) -> (kept: Vec<char>)
    ensures
        kept@ == without_signs(text@, text@.len() as int),
{
    let all = characters(text);
    let mut kept: Vec<char> = Vec::new();
    let mut place = Place::Outside;
    let mut i: usize = 0;
    while i < all.len()
        invariant
            i <= all@.len(),
            all@ == text@,
            place == place_at(text@, i as int),
            kept@ == without_signs(text@, i as int),
        decreases all@.len() - i,
    {
        let c = all[i];
        let left: usize = all.len() - i;
        let sign: bool = place == Place::Outside && c == '-' && left > 3 && all[i + 1] == '0' && all[i
            + 2] == '.' && all[i + 3] == '0' && (left == 4 || !continues_number(all[i + 4]));
        if !sign {
            kept.push(c);
        }
        place = match place {
            Place::Outside => if c == '"' {
                Place::Inside
            } else {
                Place::Outside
            },
            Place::Inside => if c == '"' {
                Place::Outside
            } else if c == '\\' {
                Place::Escaped
            } else {
                Place::Inside
            },
            Place::Escaped => Place::Inside,
        };
        i = i + 1;
    }
    kept
}

fn continues_number(c: char) -> (answer: bool)
    ensures
        answer == goes_on_as_number(c),
{
    ('0' <= c && c <= '9') || c == 'e' || c == 'E'
}

impl DeepView for Json {
    type V = Seq<char>;

    open spec fn deep_view(&self) -> Seq<char> {
        self@
    }
}

impl Record for Json {
    fn is_same(&self, other: &Self) -> (answer: bool) {
        self.text.is_same(&other.text)
    }

    fn duplicate(&self) -> (copy: Self) {
        Json { text: self.text.clone() }
    }
}

/// The lower-case hexadecimal digit of a nibble.
pub open spec fn hex_digit(nibble: int) -> char {
    if nibble < 10 {
        (48 + nibble) as char
    } else {
        (87 + nibble) as char
    }
}

/// A character inside a JSON string. Quotes, backslashes and control characters are
/// escaped, the latter by their short form where they have one.
pub open spec fn escaped(c: char) -> Seq<char> {
    let u = c as u32;
    if c == '"' {
        seq!['\\', '"']
    } else if c == '\\' {
        seq!['\\', '\\']
    } else if u == 8 {
        seq!['\\', 'b']
    } else if u == 9 {
        seq!['\\', 't']
    } else if u == 10 {
        seq!['\\', 'n']
    } else if u == 12 {
        seq!['\\', 'f']
    } else if u == 13 {
        seq!['\\', 'r']
    } else if u < 32 {
        seq!['\\', 'u', '0', '0', hex_digit(u as int / 16), hex_digit(u as int % 16)]
    } else {
        seq![c]
    }
}

pub open spec fn escaped_all(text: Seq<char>) -> Seq<char>
    decreases text.len(),
{
    if text.len() == 0 {
        Seq::empty()
    } else {
        escaped_all(text.drop_last()) + escaped(text.last())
    }
}

/// A text as a JSON string.
pub open spec fn json_string(text: Seq<char>) -> Seq<char> {
    seq!['"'] + escaped_all(text) + seq!['"']
}

/// `serde_json::to_string` on a string: quotes around the text, with quotes,
/// backslashes and control characters escaped. Writing a string to memory does not
/// fail.
#[verifier::external_body]
pub(crate) fn quote(text: &str) -> (json: String)
    ensures
        json@ == json_string(text@),
{
    serde_json::to_string(text).unwrap_or_default()
}

/// The decimal digits of a number.
pub open spec fn decimal(n: nat) -> Seq<char>
    decreases n,
{
    let digit = (48 + n % 10) as char;
    if n < 10 {
        seq![digit]
    } else {
        decimal(n / 10).push(digit)
    }
}

/// The decimal text of `n`.
pub fn decimal_text(n: u64) -> (text: String)
    ensures
        text@ == decimal(n as nat),
    decreases n,
{
    let digit: char = (48 + (n % 10) as u8) as char;
    if n < 10 {
        let mut text = String::new();
        text.push(digit);
        assert(text@ =~= decimal(n as nat));
        text
    } else {
        let mut text = decimal_text(n / 10);
        text.push(digit);
        text
    }
}

} // verus!
