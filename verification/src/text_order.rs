//! The order of texts: by their bytes, as dictionaries have it.

use crate::text::same_text;
use vstd::prelude::*;
use vstd::utf8::*;

verus! {

/// The bytes of one text come before those of another.
pub open spec fn bytes_before(a: Seq<u8>, b: Seq<u8>) -> bool
    decreases a.len(),
{
    if b.len() == 0 {
        false
    } else if a.len() == 0 {
        true
    } else if a[0] != b[0] {
        a[0] < b[0]
    } else {
        bytes_before(a.skip(1), b.skip(1))
    }
}

/// One text comes before another.
pub open spec fn text_before(a: Seq<char>, b: Seq<char>) -> bool {
    bytes_before(encode_utf8(a), encode_utf8(b))
}

/// Whether `a` comes before `b`.
pub fn comes_before(a: &str, b: &str) -> (answer: bool)
    ensures
        answer == text_before(a@, b@),
{
    let x = a.as_bytes();
    let y = b.as_bytes();
    let ghost p = encode_utf8(a@);
    let ghost q = encode_utf8(b@);
    let mut i: usize = 0;
    assert(p.skip(0) =~= p && q.skip(0) =~= q);
    while i < x.len() && i < y.len()
        invariant
            i <= x@.len(),
            i <= y@.len(),
            x@ == p,
            y@ == q,
            p == encode_utf8(a@),
            q == encode_utf8(b@),
            bytes_before(p, q) == bytes_before(p.skip(i as int), q.skip(i as int)),
        decreases x@.len() - i,
    {
        proof {
            assert(p.skip(i as int).skip(1) =~= p.skip(i + 1));
            assert(q.skip(i as int).skip(1) =~= q.skip(i + 1));
        }
        if x[i] != y[i] {
            return x[i] < y[i];
        }
        i = i + 1;
    }
    i < y.len()
}

proof fn bytes_are_ordered(a: Seq<u8>, b: Seq<u8>)
    ensures
        bytes_before(a, b) || bytes_before(b, a) || a == b,
        !(bytes_before(a, b) && bytes_before(b, a)),
        a == b ==> !bytes_before(a, b),
    decreases a.len(),
{
    if a.len() > 0 && b.len() > 0 && a[0] == b[0] {
        bytes_are_ordered(a.skip(1), b.skip(1));
        if a.skip(1) == b.skip(1) {
            assert(a =~= seq![a[0]] + a.skip(1));
            assert(b =~= seq![b[0]] + b.skip(1));
        }
    } else if a.len() == 0 && b.len() == 0 {
        assert(a =~= b);
    }
}

proof fn bytes_before_is_transitive(a: Seq<u8>, b: Seq<u8>, c: Seq<u8>)
    requires
        bytes_before(a, b),
        bytes_before(b, c),
    ensures
        bytes_before(a, c),
    decreases a.len(),
{
    if a.len() > 0 && b.len() > 0 && c.len() > 0 && a[0] == b[0] && b[0] == c[0] {
        bytes_before_is_transitive(a.skip(1), b.skip(1), c.skip(1));
    }
}

/// Of two texts exactly one comes first, unless they are the same.
pub proof fn texts_are_ordered(a: Seq<char>, b: Seq<char>)
    ensures
        text_before(a, b) || text_before(b, a) || a == b,
        !(text_before(a, b) && text_before(b, a)),
        a == b ==> !text_before(a, b),
{
    bytes_are_ordered(encode_utf8(a), encode_utf8(b));
    encode_utf8_decode_utf8(a);
    encode_utf8_decode_utf8(b);
}

/// The order goes on from text to text.
pub proof fn text_before_is_transitive(a: Seq<char>, b: Seq<char>, c: Seq<char>)
    requires
        text_before(a, b),
        text_before(b, c),
    ensures
        text_before(a, c),
{
    bytes_before_is_transitive(encode_utf8(a), encode_utf8(b), encode_utf8(c));
}

/// Each text comes before all later ones.
pub open spec fn is_ascending(texts: Seq<Seq<char>>) -> bool {
    forall|i: int, j: int|
        0 <= i < j < texts.len() ==> text_before(#[trigger] texts[i], #[trigger] texts[j])
}

/// The names with one more in its place; a name that is there already is not repeated.
pub fn insert_name(names: &mut Vec<String>, name: &String)
    requires
        is_ascending(old(names).deep_view()),
    ensures
        is_ascending(final(names).deep_view()),
        forall|t: Seq<char>| #[trigger]
            final(names).deep_view().contains(t) <==> old(names).deep_view().contains(t) || t
                == name@,
{
    let ghost before = names.deep_view();
    let mut i: usize = 0;
    while i < names.len() && comes_before(names[i].as_str(), name.as_str())
        invariant
            i <= names@.len(),
            before == names.deep_view(),
            forall|k: int| 0 <= k < i ==> text_before(#[trigger] before[k], name@),
        decreases names@.len() - i,
    {
        assert(before[i as int] == names@[i as int]@);
        i = i + 1;
    }
    if i < names.len() {
        assert(before[i as int] == names@[i as int]@);
        if same_text(names[i].as_str(), name.as_str()) {
            assert(before.contains(name@));
            return ;
        }
    }
    let ghost held = names@;
    names.insert(i, name.clone());
    proof {
        let after = names.deep_view();
        assert(after =~= before.insert(i as int, name@)) by {
            assert forall|k: int| 0 <= k < after.len() implies after[k] == before.insert(
                i as int,
                name@,
            )[k] by {
                if k < i {
                    assert(names@[k] == held[k]);
                } else if k > i {
                    assert(names@[k] == held[k - 1]);
                }
            }
        }
        if i < before.len() {
            texts_are_ordered(before[i as int], name@);
        }
        assert forall|a: int, b: int| 0 <= a < b < after.len() implies text_before(
            #[trigger] after[a],
            #[trigger] after[b],
        ) by {
            if b < i {
                assert(after[a] == before[a] && after[b] == before[b]);
            } else if b == i {
                assert(after[a] == before[a]);
            } else {
                assert(after[b] == before[b - 1]);
                if a < i {
                    assert(after[a] == before[a]);
                } else if a == i {
                    if b - 1 > i {
                        text_before_is_transitive(name@, before[i as int], before[b - 1]);
                    }
                } else {
                    assert(after[a] == before[a - 1]);
                }
            }
        }
        assert forall|t: Seq<char>| #[trigger] after.contains(t) <==> before.contains(t) || t
            == name@ by {
            if before.contains(t) {
                let k = before.index_of(t);
                assert(after[if k < i {
                    k
                } else {
                    k + 1
                }] == t);
            }
            if t == name@ {
                assert(after[i as int] == t);
            }
            if after.contains(t) {
                let k = after.index_of(t);
                if k < i {
                    assert(before[k] == t);
                } else if k > i {
                    assert(before[k - 1] == t);
                }
            }
        }
    }
}

} // verus!
