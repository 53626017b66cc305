//! Views of tool results as JSON text, keys in order.

use crate::context::viewing::{
    ContentReference, ContentReferenceView, ToolContentModel, ToolContentView, ToolOutcomeModel, ToolOutcomeView,
    ToolResultModel, ToolResultView,
};
use crate::json::{decimal, decimal_text, json_string, quote};
use crate::session::outcome_text::{bool_text, bool_text_of, category_name, category_name_of};
use vstd::prelude::*;

verus! {

pub open spec fn reference_json_of(r: ContentReferenceView) -> Seq<char> {
    "{\"scope\":{\"expires_at_ms\":"@ + decimal(r.scope.expires_at_ms as nat)
        + ",\"session_id\":"@ + json_string(r.scope.session_id) + ",\"task_id\":"@ + json_string(
        r.scope.task_id,
    ) + "},\"source_event\":"@ + json_string(r.source_event) + ",\"store_id\":"@ + json_string(
        r.store_id,
    ) + ",\"total_bytes\":"@ + decimal(r.total_bytes as nat) + "}"@
}

pub open spec fn content_json_of(c: ToolContentModel) -> Seq<char> {
    "{\"reference\":"@ + match c.reference {
        Some(r) => reference_json_of(r),
        None => "null"@,
    } + ",\"text\":"@ + json_string(c.text) + ",\"total_bytes\":"@ + decimal(c.total_bytes as nat)
        + ",\"truncated\":"@ + bool_text_of(c.truncated) + "}"@
}

pub open spec fn outcome_view_json_of(o: ToolOutcomeModel) -> Seq<char> {
    match o {
        ToolOutcomeModel::Succeeded { output } => "{\"output\":"@ + content_json_of(output)
            + ",\"status\":\"succeeded\"}"@,
        ToolOutcomeModel::Failed { category, code, message, retryable } => "{\"category\":\""@
            + category_name_of(category) + "\",\"code\":"@ + json_string(code) + ",\"message\":"@
            + content_json_of(message) + ",\"retryable\":"@ + bool_text_of(retryable)
            + ",\"status\":\"failed\"}"@,
    }
}

/// A result view as JSON.
pub open spec fn result_json_of(r: ToolResultModel) -> Seq<char> {
    "{\"algorithm_version\":"@ + decimal(r.algorithm_version as nat) + ",\"outcome\":"@
        + outcome_view_json_of(r.outcome) + ",\"source_event\":"@ + json_string(r.source_event)
        + "}"@
}

fn reference_json(r: &ContentReference) -> (text: String)
    ensures
        text@ == reference_json_of(r@),
{
    let mut text = "{\"scope\":{\"expires_at_ms\":".to_owned();
    text.push_str(decimal_text(r.scope.expires_at_ms).as_str());
    text.push_str(",\"session_id\":");
    text.push_str(quote(r.scope.session_id.as_str()).as_str());
    text.push_str(",\"task_id\":");
    text.push_str(quote(r.scope.task_id.as_str()).as_str());
    text.push_str("},\"source_event\":");
    text.push_str(quote(r.source_event.as_str()).as_str());
    text.push_str(",\"store_id\":");
    text.push_str(quote(r.store_id.as_str()).as_str());
    text.push_str(",\"total_bytes\":");
    text.push_str(decimal_text(r.total_bytes as u64).as_str());
    text.push_str("}");
    text
}

fn content_json(c: &ToolContentView) -> (text: String)
    ensures
        text@ == content_json_of(c@),
{
    let mut text = "{\"reference\":".to_owned();
    match &c.reference {
        Some(r) => {
            text.push_str(reference_json(r).as_str());
        },
        None => {
            text.push_str("null");
        },
    }
    text.push_str(",\"text\":");
    text.push_str(quote(c.text.as_str()).as_str());
    text.push_str(",\"total_bytes\":");
    text.push_str(decimal_text(c.total_bytes as u64).as_str());
    text.push_str(",\"truncated\":");
    text.push_str(bool_text(c.truncated));
    text.push_str("}");
    text
}

fn outcome_view_json(o: &ToolOutcomeView) -> (text: String)
    ensures
        text@ == outcome_view_json_of(o@),
{
    match o {
        ToolOutcomeView::Succeeded { output } => {
            let mut text = "{\"output\":".to_owned();
            text.push_str(content_json(output).as_str());
            text.push_str(",\"status\":\"succeeded\"}");
            text
        },
        ToolOutcomeView::Failed { category, code, message, retryable } => {
            let mut text = "{\"category\":\"".to_owned();
            text.push_str(category_name(*category));
            text.push_str("\",\"code\":");
            text.push_str(quote(code.as_str()).as_str());
            text.push_str(",\"message\":");
            text.push_str(content_json(message).as_str());
            text.push_str(",\"retryable\":");
            text.push_str(bool_text(*retryable));
            text.push_str(",\"status\":\"failed\"}");
            text
        },
    }
}

/// A result view as JSON.
pub fn result_json(r: &ToolResultView) -> (text: String)
    ensures
        text@ == result_json_of(r@),
{
    let mut text = "{\"algorithm_version\":".to_owned();
    text.push_str(decimal_text(r.algorithm_version as u64).as_str());
    text.push_str(",\"outcome\":");
    text.push_str(outcome_view_json(&r.outcome).as_str());
    text.push_str(",\"source_event\":");
    text.push_str(quote(r.source_event.as_str()).as_str());
    text.push_str("}");
    text
}

} // verus!
