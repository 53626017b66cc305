//! The shape that a request must have before a model is asked.
//!
//! Every tool call that an assistant message proposes is answered, once, before
//! anything else is said; no tool message answers anything else.

use crate::generation::{
    GenerationConstraint, GenerationConstraintView, GenerationRequest, GenerationRequestView, ModelMessage,
    ModelMessageView, ModelProtocolError, ModelToolCall, ModelToolCallView, ModelToolDefinition,
    ModelToolDefinitionView, ToolChoice, ToolChoiceView,
};
use crate::id::ProviderToolCallId;
use crate::record::Record;
use crate::text::{blank, is_blank};
use vstd::prelude::*;

verus! {

/// The identities of proposed calls.
pub open spec fn call_ids(calls: Seq<ModelToolCallView>) -> Seq<Seq<char>> {
    calls.map_values(|call: ModelToolCallView| call.id)
}

/// A call lacks an identity of its own.
pub open spec fn calls_clash(calls: Seq<ModelToolCallView>) -> bool {
    exists|i: int|
        0 <= i < calls.len() && (is_blank((#[trigger] calls[i]).id) || exists|j: int|
            0 <= j < i && (#[trigger] calls[j]).id == calls[i].id)
}

/// What is wrong with the messages from the `i`th on, while the calls in `open` wait
/// for their answers.
pub open spec fn messages_fault(messages: Seq<ModelMessageView>, i: int, open: Seq<Seq<char>>) -> Option<
    ModelProtocolError,
>
    decreases messages.len() - i,
{
    if i >= messages.len() {
        if open.len() > 0 {
            Some(ModelProtocolError::UnansweredToolCall)
        } else {
            None
        }
    } else {
        match messages[i] {
            ModelMessageView::System { .. } => if open.len() > 0 {
                Some(ModelProtocolError::UnansweredToolCall)
            } else {
                messages_fault(messages, i + 1, open)
            },
            ModelMessageView::User { .. } => if open.len() > 0 {
                Some(ModelProtocolError::UnansweredToolCall)
            } else {
                messages_fault(messages, i + 1, open)
            },
            ModelMessageView::Assistant { content, tool_calls } => if open.len() > 0 {
                Some(ModelProtocolError::UnansweredToolCall)
            } else if (content is None && tool_calls.len() == 0) || calls_clash(tool_calls) {
                Some(ModelProtocolError::InvalidMessage)
            } else {
                messages_fault(messages, i + 1, call_ids(tool_calls))
            },
            ModelMessageView::Tool { call_id, .. } => if !open.contains(call_id) {
                Some(ModelProtocolError::UnexpectedToolResult)
            } else {
                messages_fault(messages, i + 1, open.remove(open.index_of_first(call_id)->0))
            },
        }
    }
}

/// A tool lacks a name of its own.
pub open spec fn tools_clash(tools: Seq<ModelToolDefinitionView>) -> bool {
    exists|i: int|
        0 <= i < tools.len() && (is_blank((#[trigger] tools[i]).name) || exists|j: int|
            0 <= j < i && (#[trigger] tools[j]).name == tools[i].name)
}

pub open spec fn has_tool(tools: Seq<ModelToolDefinitionView>, name: Seq<char>) -> bool {
    exists|i: int| 0 <= i < tools.len() && (#[trigger] tools[i]).name == name
}

pub open spec fn constraint_fault(constraint: GenerationConstraintView) -> Option<ModelProtocolError> {
    match constraint {
        GenerationConstraintView::NativeTools { tools, choice } => if tools.len() == 0
            || tools_clash(tools) || (choice matches ToolChoiceView::Named { name } && !has_tool(
            tools,
            name,
        )) {
            Some(ModelProtocolError::InvalidTools)
        } else {
            None
        },
        _ => None,
    }
}

/// What is wrong with a request, if anything.
pub open spec fn shape_fault(request: GenerationRequestView) -> Option<ModelProtocolError> {
    if request.messages.len() == 0 {
        Some(ModelProtocolError::EmptyRequest)
    } else {
        match messages_fault(request.messages, 0, Seq::empty()) {
            Some(fault) => Some(fault),
            None => constraint_fault(request.constraint),
        }
    }
}

fn has_clash(calls: &Vec<ModelToolCall>) -> (answer: bool)
    ensures
        answer == calls_clash(calls.deep_view()),
{
    let ghost views = calls.deep_view();
    let mut i: usize = 0;
    while i < calls.len()
        invariant
            i <= calls@.len(),
            views == calls.deep_view(),
            forall|k: int|
                0 <= k < i ==> !is_blank((#[trigger] views[k]).id) && !(exists|j: int|
                    0 <= j < k && (#[trigger] views[j]).id == views[k].id),
        decreases calls@.len() - i,
    {
        assert(views[i as int] == calls@[i as int]@);
        if blank(calls[i].id.as_str()) {
            return true;
        }
        let mut j: usize = 0;
        while j < i
            invariant
                j <= i < calls@.len(),
                views == calls.deep_view(),
                forall|k: int| 0 <= k < j ==> (#[trigger] views[k]).id != views[i as int].id,
            decreases i - j,
        {
            assert(views[i as int] == calls@[i as int]@);
            assert(views[j as int] == calls@[j as int]@);
            if calls[j].id.is_same(&calls[i].id) {
                return true;
            }
            j = j + 1;
        }
        i = i + 1;
    }
    false
}

fn ids_of(calls: &Vec<ModelToolCall>) -> (ids: Vec<ProviderToolCallId>)
    ensures
        ids.deep_view() == call_ids(calls.deep_view()),
{
    let ghost views = calls.deep_view();
    let mut ids: Vec<ProviderToolCallId> = Vec::new();
    let mut i: usize = 0;
    while i < calls.len()
        invariant
            i <= calls@.len(),
            views == calls.deep_view(),
            ids@.len() == i,
            forall|k: int| 0 <= k < i ==> (#[trigger] ids@[k])@ == views[k].id,
        decreases calls@.len() - i,
    {
        assert(views[i as int] == calls@[i as int]@);
        ids.push(calls[i].id.duplicate());
        i = i + 1;
    }
    assert(ids.deep_view() =~= call_ids(views));
    ids
}

/// Takes the first entry that is `id` out, if there is one.
fn close_call(open: &mut Vec<ProviderToolCallId>, id: &ProviderToolCallId) -> (found: bool)
    ensures
        found == old(open).deep_view().contains(id@),
        final(open).deep_view() == if found {
            old(open).deep_view().remove(old(open).deep_view().index_of_first(id@)->0)
        } else {
            old(open).deep_view()
        },
{
    broadcast use vstd::seq_lib::group_seq_properties;

    let ghost views = open.deep_view();
    let mut i: usize = 0;
    while i < open.len()
        invariant
            i <= open@.len(),
            views == open.deep_view(),
            views == old(open).deep_view(),
            forall|k: int| 0 <= k < i ==> (#[trigger] views[k]) != id@,
        decreases open@.len() - i,
    {
        assert(views[i as int] == open@[i as int]@);
        if open[i].is_same(id) {
            proof {
                assert(views.contains(id@));
                views.index_of_first_ensures(id@);
                assert(views.index_of_first(id@) == Some(i as int));
            }
            let _ = open.remove(i);
            assert(open.deep_view() =~= views.remove(i as int));
            return true;
        }
        i = i + 1;
    }
    false
}

fn check_tools(tools: &Vec<ModelToolDefinition>) -> (answer: bool)
    ensures
        answer == tools_clash(tools.deep_view()),
{
    let ghost views = tools.deep_view();
    let mut i: usize = 0;
    while i < tools.len()
        invariant
            i <= tools@.len(),
            views == tools.deep_view(),
            forall|k: int|
                0 <= k < i ==> !is_blank((#[trigger] views[k]).name) && !(exists|j: int|
                    0 <= j < k && (#[trigger] views[j]).name == views[k].name),
        decreases tools@.len() - i,
    {
        assert(views[i as int] == tools@[i as int]@);
        if blank(tools[i].name.as_str()) {
            return true;
        }
        let mut j: usize = 0;
        while j < i
            invariant
                j <= i < tools@.len(),
                views == tools.deep_view(),
                forall|k: int| 0 <= k < j ==> (#[trigger] views[k]).name != views[i as int].name,
            decreases i - j,
        {
            assert(views[i as int] == tools@[i as int]@);
            assert(views[j as int] == tools@[j as int]@);
            if tools[j].name.is_same(&tools[i].name) {
                return true;
            }
            j = j + 1;
        }
        i = i + 1;
    }
    false
}

/// Whether one of the tools has this name.
pub fn names_tool(tools: &Vec<ModelToolDefinition>, name: &String) -> (answer: bool)
    ensures
        answer == has_tool(tools.deep_view(), name@),
{
    let ghost views = tools.deep_view();
    let mut i: usize = 0;
    while i < tools.len()
        invariant
            i <= tools@.len(),
            views == tools.deep_view(),
            forall|k: int| 0 <= k < i ==> (#[trigger] views[k]).name != name@,
        decreases tools@.len() - i,
    {
        assert(views[i as int] == tools@[i as int]@);
        if tools[i].name.is_same(name) {
            return true;
        }
        i = i + 1;
    }
    false
}

impl GenerationRequest {
    /// A request for text.
    pub fn text(messages: Vec<ModelMessage>) -> (request: Self)
        ensures
            request == (GenerationRequest { messages, constraint: GenerationConstraint::Text }),
    {
        GenerationRequest { messages, constraint: GenerationConstraint::Text }
    }

    /// Checks the request before a model is asked.
    pub fn validate_shape(&self) -> (result: Result<(), ModelProtocolError>)
        ensures
            match result {
                Ok(_) => shape_fault(self@) is None,
                Err(e) => shape_fault(self@) == Some(e),
            },
    {
        match check_messages(&self.messages) {
            Err(e) => {
                return Err(e);
            },
            Ok(_) => {},
        }
        match &self.constraint {
            GenerationConstraint::NativeTools { tools, choice } => {
                if tools.len() == 0 || check_tools(tools) {
                    return Err(ModelProtocolError::InvalidTools);
                }
                match choice {
                    ToolChoice::Named { name } => {
                        if !names_tool(tools, name) {
                            return Err(ModelProtocolError::InvalidTools);
                        }
                    },
                    _ => {},
                }
            },
            _ => {},
        }
        Ok(())
    }
}

/// Checks that messages form a conversation.
pub fn check_messages(messages: &Vec<ModelMessage>) -> (result: Result<(), ModelProtocolError>)
    ensures
        match result {
            Ok(_) => messages@.len() > 0 && messages_fault(
                messages.deep_view(),
                0,
                Seq::empty(),
            ) is None,
            Err(e) => if messages@.len() == 0 {
                e == ModelProtocolError::EmptyRequest
            } else {
                messages_fault(messages.deep_view(), 0, Seq::empty()) == Some(e)
            },
        },
{
    if messages.len() == 0 {
        return Err(ModelProtocolError::EmptyRequest);
    }
    let ghost views = messages.deep_view();
    let mut open: Vec<ProviderToolCallId> = Vec::new();
    assert(open.deep_view() =~= Seq::empty());
    let mut i: usize = 0;
    while i < messages.len()
        invariant
            messages@.len() > 0,
            i <= messages@.len(),
            views == messages.deep_view(),
            messages_fault(views, 0, Seq::empty()) == messages_fault(
                views,
                i as int,
                open.deep_view(),
            ),
        decreases messages@.len() - i,
    {
        assert(views[i as int] == messages@[i as int]@);
        match &messages[i] {
            ModelMessage::System { .. } | ModelMessage::User { .. } => {
                if open.len() > 0 {
                    return Err(ModelProtocolError::UnansweredToolCall);
                }
            },
            ModelMessage::Assistant { content, tool_calls } => {
                if open.len() > 0 {
                    return Err(ModelProtocolError::UnansweredToolCall);
                }
                if (content.is_none() && tool_calls.len() == 0) || has_clash(tool_calls) {
                    return Err(ModelProtocolError::InvalidMessage);
                }
                open = ids_of(tool_calls);
            },
            ModelMessage::Tool { call_id, .. } => {
                if !close_call(&mut open, call_id) {
                    return Err(ModelProtocolError::UnexpectedToolResult);
                }
            },
        }
        i = i + 1;
    }
    if open.len() > 0 {
        return Err(ModelProtocolError::UnansweredToolCall);
    }
    Ok(())
}

} // verus!
