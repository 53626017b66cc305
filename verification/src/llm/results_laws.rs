//! What a record says of a model call.

use crate::generation::{GenerationPartialView, GenerationResponse, ModelFailureCategory};
use crate::llm::failure::{LlmError, ModelGatewayError};
use crate::llm::results::{is_heard, item_resolves, recorded, Resolution, StreamItem};
use crate::session::model_record::ModelRecordedOutcomeView;
use vstd::prelude::*;

verus! {

/// The record of a failed call names what failed, each kind of failure by its own category
/// and no other, keeps the provider's status where there is one, keeps what had arrived,
/// and calls a failure retryable only where trying again can help; the caller hears the
/// same failure.
pub proof fn records_name_the_failure(
    call: Seq<char>,
    resolution: Resolution,
    output: Result<GenerationResponse, ModelGatewayError>,
    error: LlmError,
    partial: GenerationPartialView,
)
    requires
        is_heard(output, resolution),
        resolution matches Resolution::ModelFailed { error: e, partial: p } && e == error && p@
            == partial,
    ensures
        output == Err::<GenerationResponse, ModelGatewayError>(ModelGatewayError::Model(error)),
        recorded(call, resolution).call_id == call,
        ({
            &&& recorded(call, resolution).outcome matches ModelRecordedOutcomeView::Failed {
                category,
                retryable,
                upstream_status,
                partial: kept,
                ..
            }
            &&& kept == partial
            &&& category == ModelFailureCategory::Upstream <==> error is Upstream
            &&& category == ModelFailureCategory::Timeout <==> error is Timeout
            &&& category == ModelFailureCategory::StreamParse <==> error is StreamParse
            &&& category == ModelFailureCategory::Protocol <==> error is Protocol
            &&& category == ModelFailureCategory::Cancelled <==> error is Cancelled
            &&& category == ModelFailureCategory::Adapter <==> error is Adapter
            &&& upstream_status == match error {
                LlmError::Upstream { status, .. } => Some(status),
                _ => None,
            }
            &&& error is StreamParse || error is Protocol || error is Cancelled ==> !retryable
            &&& error is Timeout || error is Adapter ==> retryable
            &&& error matches LlmError::Upstream { status, .. } ==> (retryable <==> status == 408
                || status == 429 || status >= 500)
        }),
{
}

/// A stream ends in success only with a response that agrees with what was streamed and
/// stands up to the checks; a piece alone never ends it, and whatever else ends it keeps
/// what had arrived.
pub proof fn streams_end_honestly(
    item: StreamItem,
    partial: GenerationPartialView,
    resolution: Option<Resolution>,
)
    requires
        item_resolves(item, partial, resolution),
    ensures
        resolution is None <==> (item matches StreamItem::Delta { added } && added is Ok),
        resolution matches Some(Resolution::Succeeded(response)) <==> (item
            matches StreamItem::Finished { response: r, agrees, checked } && agrees is Ok && checked is Ok),
        resolution matches Some(Resolution::Succeeded(response)) ==> (item
            matches StreamItem::Finished { response: r, .. } && r == response),
        item is Cancelled ==> (resolution matches Some(Resolution::ModelFailed { error, partial: p })
            && error == LlmError::Cancelled && p@ == partial),
        item is TimedOut ==> (resolution matches Some(Resolution::ModelFailed { error, partial: p })
            && error == LlmError::Timeout && p@ == partial),
        item is ConsumerClosed ==> (resolution matches Some(Resolution::ConsumerDropped(p)) && p@
            == partial),
        item matches StreamItem::Failed(e) ==> (resolution matches Some(
            Resolution::ModelFailed { error, partial: p },
        ) && error == e && p@ == partial),
{
}

} // verus!
