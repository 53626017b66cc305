//! What a conversation in order looks like.

use crate::generation::{GenerationRequestView, ModelMessageView};
use crate::generation_shape::{call_ids, messages_fault, shape_fault};
use vstd::prelude::*;

verus! {

/// The message at `j` proposes a call of this identity.
pub open spec fn proposes(messages: Seq<ModelMessageView>, j: int, id: Seq<char>) -> bool {
    &&& 0 <= j < messages.len()
    &&& messages[j] matches ModelMessageView::Assistant { tool_calls, .. }
    &&& exists|k: int| 0 <= k < tool_calls.len() && (#[trigger] tool_calls[k]).id == id
}

/// The message at `i` answers the call.
pub open spec fn answers(messages: Seq<ModelMessageView>, i: int, id: Seq<char>) -> bool {
    &&& 0 <= i < messages.len()
    &&& messages[i] matches ModelMessageView::Tool { call_id, .. }
    &&& call_id == id
}

/// Nothing but answers stands between the two.
pub open spec fn only_answers_between(messages: Seq<ModelMessageView>, j: int, i: int) -> bool {
    forall|m: int| j < m < i ==> (#[trigger] messages[m]) is Tool
}

/// The open calls are those that the last proposal made and nobody answered yet.
spec fn is_open(messages: Seq<ModelMessageView>, i: int, open: Seq<Seq<char>>, j: int) -> bool {
    &&& -1 <= j < i
    &&& open.len() > 0 ==> 0 <= j
    &&& only_answers_between(messages, j, i)
    &&& forall|k: int| 0 <= k < open.len() ==> proposes(messages, j, #[trigger] open[k])
}

proof fn answers_have_calls(
    messages: Seq<ModelMessageView>,
    i: int,
    open: Seq<Seq<char>>,
    j: int,
    at: int,
    id: Seq<char>,
)
    requires
        0 <= i <= at < messages.len(),
        messages_fault(messages, i, open) is None,
        is_open(messages, i, open, j),
        answers(messages, at, id),
    ensures
        exists|p: int| p < at && #[trigger] proposes(messages, p, id) && only_answers_between(messages, p, at),
    decreases messages.len() - i,
{
    match messages[i] {
        ModelMessageView::Tool { call_id, .. } => {
            let k = open.index_of_first(call_id)->0;
            open.index_of_first_ensures(call_id);
            if i == at {
                assert(open[k] == id);
                assert(proposes(messages, j, open[k]));
                assert(j < at && proposes(messages, j, id));
            } else {
                let rest = open.remove(k);
                assert forall|n: int| 0 <= n < rest.len() implies proposes(messages, j, #[trigger] rest[n]) by {
                    if n < k {
                        assert(rest[n] == open[n]);
                    } else {
                        assert(rest[n] == open[n + 1]);
                    }
                }
                assert(is_open(messages, i + 1, rest, j));
                answers_have_calls(messages, i + 1, rest, j, at, id);
            }
        },
        ModelMessageView::Assistant { content, tool_calls } => {
            let next = call_ids(tool_calls);
            assert forall|n: int| 0 <= n < next.len() implies proposes(messages, i, #[trigger] next[n]) by {
                assert(tool_calls[n].id == next[n]);
            }
            assert(is_open(messages, i + 1, next, i));
            answers_have_calls(messages, i + 1, next, i, at, id);
        },
        _ => {
            assert(open.len() == 0);
            assert(is_open(messages, i + 1, open, i));
            answers_have_calls(messages, i + 1, open, i, at, id);
        },
    }
}

proof fn open_calls_are_answered(
    messages: Seq<ModelMessageView>,
    i: int,
    open: Seq<Seq<char>>,
    id: Seq<char>,
)
    requires
        0 <= i <= messages.len(),
        messages_fault(messages, i, open) is None,
        open.contains(id),
    ensures
        exists|a: int| i <= a && #[trigger] answers(messages, a, id) && only_answers_between(messages, i - 1, a),
    decreases messages.len() - i,
{
    let at = open.index_of(id);
    assert(open.len() > 0);
    assert(i < messages.len());
    match messages[i] {
        ModelMessageView::Tool { call_id, .. } => {
            if call_id == id {
                assert(answers(messages, i, id));
            } else {
                let k = open.index_of_first(call_id)->0;
                open.index_of_first_ensures(call_id);
                let rest = open.remove(k);
                if at < k {
                    assert(rest[at] == id);
                } else {
                    assert(rest[at - 1] == id);
                }
                open_calls_are_answered(messages, i + 1, rest, id);
                let a = choose|a: int|
                    i + 1 <= a && #[trigger] answers(messages, a, id) && only_answers_between(messages, i, a);
                assert(answers(messages, a, id) && only_answers_between(messages, i - 1, a));
            }
        },
        _ => {},
    }
}

proof fn calls_have_answers(
    messages: Seq<ModelMessageView>,
    i: int,
    open: Seq<Seq<char>>,
    at: int,
    id: Seq<char>,
)
    requires
        0 <= i <= at < messages.len(),
        messages_fault(messages, i, open) is None,
        proposes(messages, at, id),
    ensures
        exists|a: int| at < a && #[trigger] answers(messages, a, id) && only_answers_between(messages, at, a),
    decreases messages.len() - i,
{
    match messages[i] {
        ModelMessageView::Tool { call_id, .. } => {
            calls_have_answers(
                messages,
                i + 1,
                open.remove(open.index_of_first(call_id)->0),
                at,
                id,
            );
        },
        ModelMessageView::Assistant { content, tool_calls } => {
            let next = call_ids(tool_calls);
            if i == at {
                let k = choose|k: int| 0 <= k < tool_calls.len() && (#[trigger] tool_calls[k]).id == id;
                assert(next[k] == id);
                open_calls_are_answered(messages, i + 1, next, id);
                let a = choose|a: int|
                    i + 1 <= a && #[trigger] answers(messages, a, id) && only_answers_between(messages, i, a);
                assert(answers(messages, a, id));
            } else {
                calls_have_answers(messages, i + 1, next, at, id);
            }
        },
        _ => {
            calls_have_answers(messages, i + 1, open, at, id);
        },
    }
}

/// In a request that is in order every tool message answers a call that the model proposed
/// just before, and every proposed call is answered before anybody says anything else.
pub proof fn calls_and_answers_meet(request: GenerationRequestView, i: int, id: Seq<char>)
    requires
        shape_fault(request) is None,
    ensures
        request.messages.len() > 0,
        answers(request.messages, i, id) ==> exists|p: int|
            p < i && #[trigger] proposes(request.messages, p, id) && only_answers_between(
                request.messages,
                p,
                i,
            ),
        proposes(request.messages, i, id) ==> exists|a: int|
            i < a && #[trigger] answers(request.messages, a, id) && only_answers_between(
                request.messages,
                i,
                a,
            ),
{
    let messages = request.messages;
    if answers(messages, i, id) {
        assert(is_open(messages, 0, Seq::empty(), -1));
        answers_have_calls(messages, 0, Seq::empty(), -1, i, id);
    }
    if proposes(messages, i, id) {
        calls_have_answers(messages, 0, Seq::empty(), i, id);
    }
}

} // verus!
