//! When two JSON texts are of one value.

use crate::json::{is_sign_of_zero, same_value, without_signs};
use vstd::prelude::*;

verus! {

proof fn unsigned_texts_stay(text: Seq<char>, n: int)
    requires
        0 <= n <= text.len(),
        !text.contains('-'),
    ensures
        without_signs(text, n) == text.take(n),
    decreases n,
{
    if n > 0 {
        unsigned_texts_stay(text, n - 1);
        if is_sign_of_zero(text, n - 1) {
            crate::json::signs_are_minus(text, n - 1);
            assert(text.contains(text[n - 1]));
        }
        assert(text.take(n) =~= text.take(n - 1).push(text[n - 1]));
    } else {
        assert(text.take(0) =~= Seq::<char>::empty());
    }
}

/// Texts without a minus are of one value only where they are the same text, and every
/// text is of one value with itself.
pub proof fn plain_texts_have_one_value(left: Seq<char>, right: Seq<char>)
    requires
        !left.contains('-'),
        !right.contains('-'),
    ensures
        same_value(left, right) <==> left == right,
{
    unsigned_texts_stay(left, left.len() as int);
    unsigned_texts_stay(right, right.len() as int);
    assert(left.take(left.len() as int) =~= left);
    assert(right.take(right.len() as int) =~= right);
}

/// Only minus signs are ever overlooked: what two texts of one value hold beside them is
/// the same, character by character and in the same order.
pub proof fn only_signs_are_overlooked(left: Seq<char>, right: Seq<char>)
    requires
        same_value(left, right),
    ensures
        left.filter(|c: char| c != '-') == right.filter(|c: char| c != '-'),
{
    signs_change_nothing_else(left, left.len() as int);
    signs_change_nothing_else(right, right.len() as int);
    assert(left.take(left.len() as int) =~= left);
    assert(right.take(right.len() as int) =~= right);
}

proof fn signs_change_nothing_else(text: Seq<char>, n: int)
    requires
        0 <= n <= text.len(),
    ensures
        without_signs(text, n).filter(|c: char| c != '-') == text.take(n).filter(|c: char| c != '-'),
    decreases n,
{
    reveal(Seq::filter);
    if n > 0 {
        signs_change_nothing_else(text, n - 1);
        let keeps = |c: char| c != '-';
        assert(text.take(n).drop_last() =~= text.take(n - 1));
        assert(text.take(n).last() == text[n - 1]);
        if is_sign_of_zero(text, n - 1) {
            crate::json::signs_are_minus(text, n - 1);
        } else {
            let kept = without_signs(text, n - 1).push(text[n - 1]);
            assert(kept.drop_last() =~= without_signs(text, n - 1));
            assert(kept.last() == text[n - 1]);
        }
    } else {
        assert(text.take(0) =~= without_signs(text, 0));
    }
}

} // verus!
