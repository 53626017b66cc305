//! Identities are opaque texts chosen by the host.

use crate::record::Record;
use vstd::prelude::*;

verus! {

/// Identity of a session.
#[derive(Debug, PartialEq, Eq, Hash, PartialOrd, Ord)]
pub struct SessionId {
    text: String,
}

impl SessionId {
    pub closed spec fn view(&self) -> Seq<char> {
        self.text@
    }

    pub fn new(text: String) -> (id: SessionId)
        ensures
            id@ == text@,
    {
        SessionId { text }
    }

    pub fn as_str(&self) -> (text: &str)
        ensures
            text@ == self@,
    {
        self.text.as_str()
    }
}

impl Clone for SessionId {
    fn clone(&self) -> (copy: Self)
        ensures
            copy == *self,
    {
        SessionId { text: self.text.clone() }
    }
}

impl DeepView for SessionId {
    type V = Seq<char>;

    open spec fn deep_view(&self) -> Seq<char> {
        self@
    }
}

impl Record for SessionId {
    fn is_same(&self, other: &Self) -> (answer: bool) {
        self.text.is_same(&other.text)
    }

    fn duplicate(&self) -> (copy: Self) {
        self.clone()
    }
}

/// Identity of a task.
#[derive(Debug, PartialEq, Eq, Hash, PartialOrd, Ord)]
pub struct TaskId {
    text: String,
}

impl TaskId {
    pub closed spec fn view(&self) -> Seq<char> {
        self.text@
    }

    pub fn new(text: String) -> (id: TaskId)
        ensures
            id@ == text@,
    {
        TaskId { text }
    }

    pub fn as_str(&self) -> (text: &str)
        ensures
            text@ == self@,
    {
        self.text.as_str()
    }
}

impl Clone for TaskId {
    fn clone(&self) -> (copy: Self)
        ensures
            copy == *self,
    {
        TaskId { text: self.text.clone() }
    }
}

impl DeepView for TaskId {
    type V = Seq<char>;

    open spec fn deep_view(&self) -> Seq<char> {
        self@
    }
}

impl Record for TaskId {
    fn is_same(&self, other: &Self) -> (answer: bool) {
        self.text.is_same(&other.text)
    }

    fn duplicate(&self) -> (copy: Self) {
        self.clone()
    }
}

/// Identity of one turn of a session.
#[derive(Debug, PartialEq, Eq, Hash, PartialOrd, Ord)]
pub struct TurnId {
    text: String,
}

impl TurnId {
    pub closed spec fn view(&self) -> Seq<char> {
        self.text@
    }

    pub fn new(text: String) -> (id: TurnId)
        ensures
            id@ == text@,
    {
        TurnId { text }
    }

    pub fn as_str(&self) -> (text: &str)
        ensures
            text@ == self@,
    {
        self.text.as_str()
    }
}

impl Clone for TurnId {
    fn clone(&self) -> (copy: Self)
        ensures
            copy == *self,
    {
        TurnId { text: self.text.clone() }
    }
}

impl DeepView for TurnId {
    type V = Seq<char>;

    open spec fn deep_view(&self) -> Seq<char> {
        self@
    }
}

impl Record for TurnId {
    fn is_same(&self, other: &Self) -> (answer: bool) {
        self.text.is_same(&other.text)
    }

    fn duplicate(&self) -> (copy: Self) {
        self.clone()
    }
}

/// Identity of one decision of a task.
#[derive(Debug, PartialEq, Eq, Hash, PartialOrd, Ord)]
pub struct StepId {
    text: String,
}

impl StepId {
    pub closed spec fn view(&self) -> Seq<char> {
        self.text@
    }

    pub fn new(text: String) -> (id: StepId)
        ensures
            id@ == text@,
    {
        StepId { text }
    }

    pub fn as_str(&self) -> (text: &str)
        ensures
            text@ == self@,
    {
        self.text.as_str()
    }
}

impl Clone for StepId {
    fn clone(&self) -> (copy: Self)
        ensures
            copy == *self,
    {
        StepId { text: self.text.clone() }
    }
}

impl DeepView for StepId {
    type V = Seq<char>;

    open spec fn deep_view(&self) -> Seq<char> {
        self@
    }
}

impl Record for StepId {
    fn is_same(&self, other: &Self) -> (answer: bool) {
        self.text.is_same(&other.text)
    }

    fn duplicate(&self) -> (copy: Self) {
        self.clone()
    }
}

/// Identity of one recorded event.
#[derive(Debug, PartialEq, Eq, Hash, PartialOrd, Ord)]
pub struct EventId {
    text: String,
}

impl EventId {
    pub closed spec fn view(&self) -> Seq<char> {
        self.text@
    }

    pub fn new(text: String) -> (id: EventId)
        ensures
            id@ == text@,
    {
        EventId { text }
    }

    pub fn as_str(&self) -> (text: &str)
        ensures
            text@ == self@,
    {
        self.text.as_str()
    }
}

impl Clone for EventId {
    fn clone(&self) -> (copy: Self)
        ensures
            copy == *self,
    {
        EventId { text: self.text.clone() }
    }
}

impl DeepView for EventId {
    type V = Seq<char>;

    open spec fn deep_view(&self) -> Seq<char> {
        self@
    }
}

impl Record for EventId {
    fn is_same(&self, other: &Self) -> (answer: bool) {
        self.text.is_same(&other.text)
    }

    fn duplicate(&self) -> (copy: Self) {
        self.clone()
    }
}

/// Identity of one model call.
#[derive(Debug, PartialEq, Eq, Hash, PartialOrd, Ord)]
pub struct ModelCallId {
    text: String,
}

impl ModelCallId {
    pub closed spec fn view(&self) -> Seq<char> {
        self.text@
    }

    pub fn new(text: String) -> (id: ModelCallId)
        ensures
            id@ == text@,
    {
        ModelCallId { text }
    }

    pub fn as_str(&self) -> (text: &str)
        ensures
            text@ == self@,
    {
        self.text.as_str()
    }
}

impl Clone for ModelCallId {
    fn clone(&self) -> (copy: Self)
        ensures
            copy == *self,
    {
        ModelCallId { text: self.text.clone() }
    }
}

impl DeepView for ModelCallId {
    type V = Seq<char>;

    open spec fn deep_view(&self) -> Seq<char> {
        self@
    }
}

impl Record for ModelCallId {
    fn is_same(&self, other: &Self) -> (answer: bool) {
        self.text.is_same(&other.text)
    }

    fn duplicate(&self) -> (copy: Self) {
        self.clone()
    }
}

/// Identity of one audited budget operation.
#[derive(Debug, PartialEq, Eq, Hash, PartialOrd, Ord)]
pub struct BudgetOperationId {
    text: String,
}

impl BudgetOperationId {
    pub closed spec fn view(&self) -> Seq<char> {
        self.text@
    }

    pub fn new(text: String) -> (id: BudgetOperationId)
        ensures
            id@ == text@,
    {
        BudgetOperationId { text }
    }

    pub fn as_str(&self) -> (text: &str)
        ensures
            text@ == self@,
    {
        self.text.as_str()
    }
}

impl Clone for BudgetOperationId {
    fn clone(&self) -> (copy: Self)
        ensures
            copy == *self,
    {
        BudgetOperationId { text: self.text.clone() }
    }
}

impl DeepView for BudgetOperationId {
    type V = Seq<char>;

    open spec fn deep_view(&self) -> Seq<char> {
        self@
    }
}

impl Record for BudgetOperationId {
    fn is_same(&self, other: &Self) -> (answer: bool) {
        self.text.is_same(&other.text)
    }

    fn duplicate(&self) -> (copy: Self) {
        self.clone()
    }
}

/// Identity of one claimed execution.
#[derive(Debug, PartialEq, Eq, Hash, PartialOrd, Ord)]
pub struct BudgetExecutionId {
    text: String,
}

impl BudgetExecutionId {
    pub closed spec fn view(&self) -> Seq<char> {
        self.text@
    }

    pub fn new(text: String) -> (id: BudgetExecutionId)
        ensures
            id@ == text@,
    {
        BudgetExecutionId { text }
    }

    pub fn as_str(&self) -> (text: &str)
        ensures
            text@ == self@,
    {
        self.text.as_str()
    }
}

impl Clone for BudgetExecutionId {
    fn clone(&self) -> (copy: Self)
        ensures
            copy == *self,
    {
        BudgetExecutionId { text: self.text.clone() }
    }
}

impl DeepView for BudgetExecutionId {
    type V = Seq<char>;

    open spec fn deep_view(&self) -> Seq<char> {
        self@
    }
}

impl Record for BudgetExecutionId {
    fn is_same(&self, other: &Self) -> (answer: bool) {
        self.text.is_same(&other.text)
    }

    fn duplicate(&self) -> (copy: Self) {
        self.clone()
    }
}

/// Identity of one model generation.
#[derive(Debug, PartialEq, Eq, Hash, PartialOrd, Ord)]
pub struct GenerationId {
    text: String,
}

impl GenerationId {
    pub closed spec fn view(&self) -> Seq<char> {
        self.text@
    }

    pub fn new(text: String) -> (id: GenerationId)
        ensures
            id@ == text@,
    {
        GenerationId { text }
    }

    pub fn as_str(&self) -> (text: &str)
        ensures
            text@ == self@,
    {
        self.text.as_str()
    }
}

impl Clone for GenerationId {
    fn clone(&self) -> (copy: Self)
        ensures
            copy == *self,
    {
        GenerationId { text: self.text.clone() }
    }
}

impl DeepView for GenerationId {
    type V = Seq<char>;

    open spec fn deep_view(&self) -> Seq<char> {
        self@
    }
}

impl Record for GenerationId {
    fn is_same(&self, other: &Self) -> (answer: bool) {
        self.text.is_same(&other.text)
    }

    fn duplicate(&self) -> (copy: Self) {
        self.clone()
    }
}

/// Identity of one complete message.
#[derive(Debug, PartialEq, Eq, Hash, PartialOrd, Ord)]
pub struct MessageId {
    text: String,
}

impl MessageId {
    pub closed spec fn view(&self) -> Seq<char> {
        self.text@
    }

    pub fn new(text: String) -> (id: MessageId)
        ensures
            id@ == text@,
    {
        MessageId { text }
    }

    pub fn as_str(&self) -> (text: &str)
        ensures
            text@ == self@,
    {
        self.text.as_str()
    }
}

impl Clone for MessageId {
    fn clone(&self) -> (copy: Self)
        ensures
            copy == *self,
    {
        MessageId { text: self.text.clone() }
    }
}

impl DeepView for MessageId {
    type V = Seq<char>;

    open spec fn deep_view(&self) -> Seq<char> {
        self@
    }
}

impl Record for MessageId {
    fn is_same(&self, other: &Self) -> (answer: bool) {
        self.text.is_same(&other.text)
    }

    fn duplicate(&self) -> (copy: Self) {
        self.clone()
    }
}

/// Identity of a tool call as the model names it.
#[derive(Debug, PartialEq, Eq, Hash, PartialOrd, Ord)]
pub struct ProviderToolCallId {
    text: String,
}

impl ProviderToolCallId {
    pub closed spec fn view(&self) -> Seq<char> {
        self.text@
    }

    pub fn new(text: String) -> (id: ProviderToolCallId)
        ensures
            id@ == text@,
    {
        ProviderToolCallId { text }
    }

    pub fn as_str(&self) -> (text: &str)
        ensures
            text@ == self@,
    {
        self.text.as_str()
    }
}

impl Clone for ProviderToolCallId {
    fn clone(&self) -> (copy: Self)
        ensures
            copy == *self,
    {
        ProviderToolCallId { text: self.text.clone() }
    }
}

impl DeepView for ProviderToolCallId {
    type V = Seq<char>;

    open spec fn deep_view(&self) -> Seq<char> {
        self@
    }
}

impl Record for ProviderToolCallId {
    fn is_same(&self, other: &Self) -> (answer: bool) {
        self.text.is_same(&other.text)
    }

    fn duplicate(&self) -> (copy: Self) {
        self.clone()
    }
}

} // verus!
