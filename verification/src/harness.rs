//! What a host puts together before a runtime is built.

use vstd::prelude::*;

verus! {

/// A place that exactly one provider is selected for.
#[derive(Clone, Copy, Debug, PartialEq, Eq, Structural)]
pub enum ServiceSlot {
    AgentRuntime,
    LlmProvider,
    LlmRuntime,
    SessionPersistence,
    SessionRuntime,
    ToolRuntime,
}

/// The provider selected for one place.
#[derive(Debug, PartialEq, Eq)]
pub struct Selection {
    pub slot: ServiceSlot,
    pub key: String,
}

/// Collects what a runtime is to be built from. Nothing is built here.
#[derive(Debug, PartialEq, Eq)]
pub struct HarnessBuilder {
    required: Vec<ServiceSlot>,
    plugins: Vec<String>,
    selections: Vec<Selection>,
}

pub struct BuilderView {
    pub required: Seq<ServiceSlot>,
    pub plugins: Seq<Seq<char>>,
    pub selections: Seq<(ServiceSlot, Seq<char>)>,
}

impl HarnessBuilder {
    pub closed spec fn view(&self) -> BuilderView {
        BuilderView {
            required: self.required@,
            plugins: self.plugins.deep_view(),
            selections: self.selections@.map_values(|s: Selection| (s.slot, s.key@)),
        }
    }

    /// An agent runtime is required, and nothing is selected yet.
    pub fn new() -> (builder: Self)
        ensures
            builder@.required == seq![ServiceSlot::AgentRuntime],
            builder@.plugins.len() == 0,
            builder@.selections.len() == 0,
    {
        let mut required: Vec<ServiceSlot> = Vec::new();
        required.push(ServiceSlot::AgentRuntime);
        let builder = HarnessBuilder { required, plugins: Vec::new(), selections: Vec::new() };
        assert(builder@.required =~= seq![ServiceSlot::AgentRuntime]);
        builder
    }

    /// Adds a plugin, by its name.
    pub fn plugin(self, name: String) -> (builder: Self)
        ensures
            builder@ == (BuilderView { plugins: self@.plugins.push(name@), ..self@ }),
    {
        let mut builder = self;
        builder.plugins.push(name);
        assert(builder@.plugins =~= self@.plugins.push(name@));
        builder
    }

    fn select(self, slot: ServiceSlot, key: String) -> (builder: Self)
        ensures
            builder@ == (BuilderView { selections: self@.selections.push((slot, key@)), ..self@ }),
    {
        let mut builder = self;
        builder.selections.push(Selection { slot, key });
        assert(builder@.selections =~= self@.selections.push((slot, key@)));
        builder
    }

    pub fn select_agent_runtime(self, key: String) -> (builder: Self)
        ensures
            builder@ == (BuilderView {
                selections: self@.selections.push((ServiceSlot::AgentRuntime, key@)),
                ..self@
            }),
    {
        self.select(ServiceSlot::AgentRuntime, key)
    }

    pub fn select_llm(self, key: String) -> (builder: Self)
        ensures
            builder@ == (BuilderView {
                selections: self@.selections.push((ServiceSlot::LlmProvider, key@)),
                ..self@
            }),
    {
        self.select(ServiceSlot::LlmProvider, key)
    }

    pub fn select_llm_runtime(self, key: String) -> (builder: Self)
        ensures
            builder@ == (BuilderView {
                selections: self@.selections.push((ServiceSlot::LlmRuntime, key@)),
                ..self@
            }),
    {
        self.select(ServiceSlot::LlmRuntime, key)
    }

    pub fn select_persistence(self, key: String) -> (builder: Self)
        ensures
            builder@ == (BuilderView {
                selections: self@.selections.push((ServiceSlot::SessionPersistence, key@)),
                ..self@
            }),
    {
        self.select(ServiceSlot::SessionPersistence, key)
    }

    pub fn select_session_runtime(self, key: String) -> (builder: Self)
        ensures
            builder@ == (BuilderView {
                selections: self@.selections.push((ServiceSlot::SessionRuntime, key@)),
                ..self@
            }),
    {
        self.select(ServiceSlot::SessionRuntime, key)
    }

    pub fn select_tool_runtime(self, key: String) -> (builder: Self)
        ensures
            builder@ == (BuilderView {
                selections: self@.selections.push((ServiceSlot::ToolRuntime, key@)),
                ..self@
            }),
    {
        self.select(ServiceSlot::ToolRuntime, key)
    }

    pub fn selections(&self) -> (selections: &Vec<Selection>)
        ensures
            selections@.map_values(|s: Selection| (s.slot, s.key@)) == self@.selections,
    {
        &self.selections
    }

    pub fn plugins(&self) -> (plugins: &Vec<String>)
        ensures
            plugins.deep_view() == self@.plugins,
    {
        &self.plugins
    }

    pub fn required(&self) -> (required: &Vec<ServiceSlot>)
        ensures
            required@ == self@.required,
    {
        &self.required
    }
}

impl Default for HarnessBuilder {
    fn default() -> (builder: Self)
        ensures
            builder@.required == seq![ServiceSlot::AgentRuntime],
            builder@.plugins.len() == 0,
            builder@.selections.len() == 0,
    {
        Self::new()
    }
}

} // verus!
