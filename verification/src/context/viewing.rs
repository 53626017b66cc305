//! Vocabulary of views: content in stores, and what is shown of results and tools.

use crate::generation::{ModelToolDefinition, ModelToolDefinitionView};
use crate::id::{EventId, SessionId, TaskId};
use crate::record::Record;
use crate::session::tool_record::ToolFailureCategory;
use vstd::prelude::*;

verus! {

/// Why a view or a piece of content is refused.
#[derive(Clone, Copy, Debug, PartialEq, Eq, Structural)]
pub enum ViewError {
    /// Invalid configuration or identity.
    Invalid,
    /// A resource limit is exceeded.
    Limit,
    /// A selection names an unauthorized, duplicate or unknown tool or group.
    Unauthorized,
    /// The reference is missing, expired or outside the host's scope.
    Unavailable,
    /// The source already names other content.
    Conflict,
    /// Not the start of a character, or a page too small for one.
    Cursor,
    /// The lock around the store was poisoned.
    Poisoned,
}

impl DeepView for ViewError {
    type V = ViewError;

    open spec fn deep_view(&self) -> ViewError {
        *self
    }
}

impl Record for ViewError {
    fn is_same(&self, other: &Self) -> (answer: bool) {
        *self == *other
    }

    fn duplicate(&self) -> (copy: Self) {
        *self
    }
}

/// Who content belongs to, and how long.
#[derive(Debug, PartialEq, Eq)]
pub struct ContentScope {
    pub session_id: SessionId,
    pub task_id: TaskId,
    pub expires_at_ms: u64,
}

pub struct ContentScopeView {
    pub session_id: Seq<char>,
    pub task_id: Seq<char>,
    pub expires_at_ms: u64,
}

impl ContentScope {
    pub open spec fn view(&self) -> ContentScopeView {
        ContentScopeView {
            session_id: self.session_id@,
            task_id: self.task_id@,
            expires_at_ms: self.expires_at_ms,
        }
    }
}

impl DeepView for ContentScope {
    type V = ContentScopeView;

    open spec fn deep_view(&self) -> ContentScopeView {
        self@
    }
}

impl Record for ContentScope {
    fn is_same(&self, other: &Self) -> (answer: bool) {
        self.session_id.is_same(&other.session_id)
            && self.task_id.is_same(&other.task_id)
            && self.expires_at_ms == other.expires_at_ms
    }

    fn duplicate(&self) -> (copy: Self) {
        ContentScope {
            session_id: self.session_id.duplicate(),
            task_id: self.task_id.duplicate(),
            expires_at_ms: self.expires_at_ms,
        }
    }
}

/// A reference to content in a store.
#[derive(Debug, PartialEq, Eq)]
pub struct ContentReference {
    /// The host's name for the store, no path or address.
    pub store_id: String,
    pub source_event: EventId,
    pub scope: ContentScope,
    pub total_bytes: usize,
}

pub struct ContentReferenceView {
    pub store_id: Seq<char>,
    pub source_event: Seq<char>,
    pub scope: ContentScopeView,
    pub total_bytes: usize,
}

impl ContentReference {
    pub open spec fn view(&self) -> ContentReferenceView {
        ContentReferenceView {
            store_id: self.store_id@,
            source_event: self.source_event@,
            scope: self.scope.deep_view(),
            total_bytes: self.total_bytes,
        }
    }
}

impl DeepView for ContentReference {
    type V = ContentReferenceView;

    open spec fn deep_view(&self) -> ContentReferenceView {
        self@
    }
}

impl Record for ContentReference {
    fn is_same(&self, other: &Self) -> (answer: bool) {
        self.store_id.is_same(&other.store_id)
            && self.source_event.is_same(&other.source_event)
            && self.scope.is_same(&other.scope)
            && self.total_bytes == other.total_bytes
    }

    fn duplicate(&self) -> (copy: Self) {
        ContentReference {
            store_id: self.store_id.duplicate(),
            source_event: self.source_event.duplicate(),
            scope: self.scope.duplicate(),
            total_bytes: self.total_bytes,
        }
    }
}

/// A piece of content.
#[derive(Debug, PartialEq, Eq)]
pub struct ContentPage {
    pub text: String,
    pub next_offset: Option<usize>,
    pub total_bytes: usize,
}

pub struct ContentPageView {
    pub text: Seq<char>,
    pub next_offset: Option<usize>,
    pub total_bytes: usize,
}

impl ContentPage {
    pub open spec fn view(&self) -> ContentPageView {
        ContentPageView {
            text: self.text@,
            next_offset: self.next_offset.deep_view(),
            total_bytes: self.total_bytes,
        }
    }
}

impl DeepView for ContentPage {
    type V = ContentPageView;

    open spec fn deep_view(&self) -> ContentPageView {
        self@
    }
}

impl Record for ContentPage {
    fn is_same(&self, other: &Self) -> (answer: bool) {
        self.text.is_same(&other.text)
            && self.next_offset.is_same(&other.next_offset)
            && self.total_bytes == other.total_bytes
    }

    fn duplicate(&self) -> (copy: Self) {
        ContentPage {
            text: self.text.duplicate(),
            next_offset: self.next_offset.duplicate(),
            total_bytes: self.total_bytes,
        }
    }
}

/// Limits of a store.
#[derive(Debug, PartialEq, Eq)]
pub struct ContentStoreConfig {
    pub store_id: String,
    pub max_entries: usize,
    pub max_bytes: usize,
    pub max_content_bytes: usize,
    pub max_page_bytes: usize,
    pub max_ttl_ms: u64,
}

pub struct ContentStoreConfigView {
    pub store_id: Seq<char>,
    pub max_entries: usize,
    pub max_bytes: usize,
    pub max_content_bytes: usize,
    pub max_page_bytes: usize,
    pub max_ttl_ms: u64,
}

impl ContentStoreConfig {
    pub open spec fn view(&self) -> ContentStoreConfigView {
        ContentStoreConfigView {
            store_id: self.store_id@,
            max_entries: self.max_entries,
            max_bytes: self.max_bytes,
            max_content_bytes: self.max_content_bytes,
            max_page_bytes: self.max_page_bytes,
            max_ttl_ms: self.max_ttl_ms,
        }
    }
}

impl DeepView for ContentStoreConfig {
    type V = ContentStoreConfigView;

    open spec fn deep_view(&self) -> ContentStoreConfigView {
        self@
    }
}

impl Record for ContentStoreConfig {
    fn is_same(&self, other: &Self) -> (answer: bool) {
        self.store_id.is_same(&other.store_id)
            && self.max_entries == other.max_entries
            && self.max_bytes == other.max_bytes
            && self.max_content_bytes == other.max_content_bytes
            && self.max_page_bytes == other.max_page_bytes
            && self.max_ttl_ms == other.max_ttl_ms
    }

    fn duplicate(&self) -> (copy: Self) {
        ContentStoreConfig {
            store_id: self.store_id.duplicate(),
            max_entries: self.max_entries,
            max_bytes: self.max_bytes,
            max_content_bytes: self.max_content_bytes,
            max_page_bytes: self.max_page_bytes,
            max_ttl_ms: self.max_ttl_ms,
        }
    }
}

/// How much of a result is shown.
#[derive(Clone, Copy, Debug, PartialEq, Eq, Structural)]
pub enum ResultSelection {
    Inline,
    Prefix { bytes: usize },
}

/// What is shown of a text, and where the rest is.
#[derive(Debug, PartialEq, Eq)]
pub struct ToolContentView {
    pub text: String,
    pub total_bytes: usize,
    pub truncated: bool,
    pub reference: Option<ContentReference>,
}

pub struct ToolContentModel {
    pub text: Seq<char>,
    pub total_bytes: usize,
    pub truncated: bool,
    pub reference: Option<ContentReferenceView>,
}

impl ToolContentView {
    pub open spec fn view(&self) -> ToolContentModel {
        ToolContentModel {
            text: self.text@,
            total_bytes: self.total_bytes,
            truncated: self.truncated,
            reference: self.reference.deep_view(),
        }
    }
}

impl DeepView for ToolContentView {
    type V = ToolContentModel;

    open spec fn deep_view(&self) -> ToolContentModel {
        self@
    }
}

impl Record for ToolContentView {
    fn is_same(&self, other: &Self) -> (answer: bool) {
        self.text.is_same(&other.text)
            && self.total_bytes == other.total_bytes
            && self.truncated == other.truncated
            && self.reference.is_same(&other.reference)
    }

    fn duplicate(&self) -> (copy: Self) {
        ToolContentView {
            text: self.text.duplicate(),
            total_bytes: self.total_bytes,
            truncated: self.truncated,
            reference: self.reference.duplicate(),
        }
    }
}

/// A tool outcome with a bounded text.
#[allow(inconsistent_fields)]
#[derive(Debug, PartialEq, Eq)]
pub enum ToolOutcomeView {
    Succeeded { output: ToolContentView },
    Failed { category: ToolFailureCategory, code: String, message: ToolContentView, retryable: bool },
}

#[allow(inconsistent_fields)]
pub enum ToolOutcomeModel {
    Succeeded { output: ToolContentModel },
    Failed { category: ToolFailureCategory, code: Seq<char>, message: ToolContentModel, retryable: bool },
}

impl ToolOutcomeView {
    pub open spec fn view(&self) -> ToolOutcomeModel {
        match self {
            ToolOutcomeView::Succeeded { output } => ToolOutcomeModel::Succeeded {
                output: output.deep_view(),
            },
            ToolOutcomeView::Failed { category, code, message, retryable } => ToolOutcomeModel::Failed {
                category: *category,
                code: code@,
                message: message.deep_view(),
                retryable: *retryable,
            },
        }
    }
}

impl DeepView for ToolOutcomeView {
    type V = ToolOutcomeModel;

    open spec fn deep_view(&self) -> ToolOutcomeModel {
        self@
    }
}

impl Record for ToolOutcomeView {
    fn is_same(&self, other: &Self) -> (answer: bool) {
        match (self, other) {
            (ToolOutcomeView::Succeeded { output }, ToolOutcomeView::Succeeded { output: other_output }) => output.is_same(other_output),
            (ToolOutcomeView::Failed { category, code, message, retryable }, ToolOutcomeView::Failed { category: other_category, code: other_code, message: other_message, retryable: other_retryable }) => *category == *other_category && code.is_same(other_code) && message.is_same(other_message) && *retryable == *other_retryable,
            _ => false,
        }
    }

    fn duplicate(&self) -> (copy: Self) {
        match self {
            ToolOutcomeView::Succeeded { output } => ToolOutcomeView::Succeeded {
                output: output.duplicate(),
            },
            ToolOutcomeView::Failed { category, code, message, retryable } => ToolOutcomeView::Failed {
                category: *category,
                code: code.duplicate(),
                message: message.duplicate(),
                retryable: *retryable,
            },
        }
    }
}

/// What a model is shown of a tool result.
#[derive(Debug, PartialEq, Eq)]
pub struct ToolResultView {
    pub algorithm_version: u16,
    pub source_event: EventId,
    pub outcome: ToolOutcomeView,
}

pub struct ToolResultModel {
    pub algorithm_version: u16,
    pub source_event: Seq<char>,
    pub outcome: ToolOutcomeModel,
}

impl ToolResultView {
    pub open spec fn view(&self) -> ToolResultModel {
        ToolResultModel {
            algorithm_version: self.algorithm_version,
            source_event: self.source_event@,
            outcome: self.outcome.deep_view(),
        }
    }
}

impl DeepView for ToolResultView {
    type V = ToolResultModel;

    open spec fn deep_view(&self) -> ToolResultModel {
        self@
    }
}

impl Record for ToolResultView {
    fn is_same(&self, other: &Self) -> (answer: bool) {
        self.algorithm_version == other.algorithm_version
            && self.source_event.is_same(&other.source_event)
            && self.outcome.is_same(&other.outcome)
    }

    fn duplicate(&self) -> (copy: Self) {
        ToolResultView {
            algorithm_version: self.algorithm_version,
            source_event: self.source_event.duplicate(),
            outcome: self.outcome.duplicate(),
        }
    }
}

/// Limits of a view of tools.
#[derive(Clone, Copy, Debug, PartialEq, Eq, Structural)]
pub struct ToolViewLimits {
    pub max_catalog: usize,
    pub max_visible: usize,
    pub max_input_bytes: usize,
}

impl DeepView for ToolViewLimits {
    type V = ToolViewLimits;

    open spec fn deep_view(&self) -> ToolViewLimits {
        *self
    }
}

impl Record for ToolViewLimits {
    fn is_same(&self, other: &Self) -> (answer: bool) {
        *self == *other
    }

    fn duplicate(&self) -> (copy: Self) {
        *self
    }
}

impl Default for ToolViewLimits {
    fn default() -> (limits: Self)
        ensures
            limits == (ToolViewLimits {
                max_catalog: 1024,
                max_visible: 64,
                max_input_bytes: 4_194_304,
            }),
    {
        ToolViewLimits { max_catalog: 1024, max_visible: 64, max_input_bytes: 4_194_304 }
    }
}

/// The tools that a model sees, each as it was granted.
#[derive(Debug, PartialEq, Eq)]
pub struct ToolView {
    pub algorithm_version: u16,
    pub tools: Vec<ModelToolDefinition>,
    pub excluded: Vec<String>,
}

pub struct ToolViewModel {
    pub algorithm_version: u16,
    pub tools: Seq<ModelToolDefinitionView>,
    pub excluded: Seq<Seq<char>>,
}

impl ToolView {
    pub open spec fn view(&self) -> ToolViewModel {
        ToolViewModel {
            algorithm_version: self.algorithm_version,
            tools: self.tools.deep_view(),
            excluded: self.excluded.deep_view(),
        }
    }
}

impl DeepView for ToolView {
    type V = ToolViewModel;

    open spec fn deep_view(&self) -> ToolViewModel {
        self@
    }
}

impl Record for ToolView {
    fn is_same(&self, other: &Self) -> (answer: bool) {
        self.algorithm_version == other.algorithm_version
            && self.tools.is_same(&other.tools)
            && self.excluded.is_same(&other.excluded)
    }

    fn duplicate(&self) -> (copy: Self) {
        ToolView {
            algorithm_version: self.algorithm_version,
            tools: self.tools.duplicate(),
            excluded: self.excluded.duplicate(),
        }
    }
}

} // verus!
