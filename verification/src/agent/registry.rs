//! The agents of a runtime: one for each key, with what it may use.

use crate::harness::ServiceSlot;
use crate::record::Record;
use crate::text::same_text;
use vstd::prelude::*;

verus! {

/// An agent as a plugin offers it.
#[derive(Debug, PartialEq, Eq)]
pub struct AgentBinding {
    pub key: String,
    pub owner: String,
    /// What the agent's plugin depends on.
    pub requires_slots: Vec<ServiceSlot>,
}

/// An agent that a runtime can drive.
#[derive(Debug, PartialEq, Eq)]
pub struct AgentEntry {
    pub key: String,
    pub owner: String,
    pub model_allowed: bool,
    pub tools_allowed: bool,
}

pub struct EntryView {
    pub key: Seq<char>,
    pub owner: Seq<char>,
    pub model_allowed: bool,
    pub tools_allowed: bool,
}

impl AgentEntry {
    pub open spec fn view(&self) -> EntryView {
        EntryView {
            key: self.key@,
            owner: self.owner@,
            model_allowed: self.model_allowed,
            tools_allowed: self.tools_allowed,
        }
    }
}

/// What a binding gives: an agent may use a model, or tools, where its plugin depends on
/// the runtime for them.
pub open spec fn entry_of(binding: AgentBinding) -> EntryView {
    EntryView {
        key: binding.key@,
        owner: binding.owner@,
        model_allowed: binding.requires_slots@.contains(ServiceSlot::LlmRuntime),
        tools_allowed: binding.requires_slots@.contains(ServiceSlot::ToolRuntime),
    }
}

/// The last of the first `n` bindings with that key.
pub open spec fn bound(bindings: Seq<AgentBinding>, key: Seq<char>, n: int) -> Option<EntryView>
    decreases n,
{
    if n <= 0 {
        None
    } else if bindings[n - 1].key@ == key {
        Some(entry_of(bindings[n - 1]))
    } else {
        bound(bindings, key, n - 1)
    }
}

/// The entry at that key, from the `k`th on.
pub open spec fn entry_at(agents: Seq<AgentEntry>, key: Seq<char>, k: int) -> Option<int>
    decreases agents.len() - k,
{
    if k >= agents.len() {
        None
    } else if agents[k].key@ == key {
        Some(k)
    } else {
        entry_at(agents, key, k + 1)
    }
}

/// No key occurs twice, and each key leads to the last binding with it.
pub open spec fn is_frozen(agents: Seq<AgentEntry>, bindings: Seq<AgentBinding>, n: int) -> bool {
    &&& forall|i: int, j: int|
        0 <= i < j < agents.len() ==> (#[trigger] agents[i]).key@ != (#[trigger] agents[j]).key@
    &&& forall|i: int|
        0 <= i < agents.len() ==> bound(bindings, (#[trigger] agents[i]).key@, n) == Some(
            agents[i]@,
        )
    &&& forall|k: int|
        0 <= k < n ==> entry_at(agents, (#[trigger] bindings[k]).key@, 0) is Some
}

proof fn found(agents: Seq<AgentEntry>, key: Seq<char>, k: int)
    requires
        0 <= k,
    ensures
        match entry_at(agents, key, k) {
            Some(i) => k <= i < agents.len() && agents[i].key@ == key,
            None => forall|i: int| k <= i < agents.len() ==> (#[trigger] agents[i]).key@ != key,
        },
    decreases agents.len() - k,
{
    if k < agents.len() && agents[k].key@ != key {
        found(agents, key, k + 1);
    }
}

proof fn present(agents: Seq<AgentEntry>, key: Seq<char>, i: int)
    requires
        0 <= i < agents.len(),
        agents[i].key@ == key,
    ensures
        entry_at(agents, key, 0) is Some,
{
    found(agents, key, 0);
}

/// The agent of that key, if there is one.
pub fn find_agent(agents: &Vec<AgentEntry>, key: &str) -> (found: Option<usize>)
    ensures
        match found {
            Some(i) => entry_at(agents@, key@, 0) == Some(i as int),
            None => entry_at(agents@, key@, 0) is None,
        },
{
    let mut i: usize = 0;
    while i < agents.len()
        invariant
            i <= agents@.len(),
            entry_at(agents@, key@, 0) == entry_at(agents@, key@, i as int),
        decreases agents@.len() - i,
    {
        if same_text(agents[i].key.as_str(), key) {
            return Some(i);
        }
        i = i + 1;
    }
    None
}

fn depends_on(slots: &Vec<ServiceSlot>, slot: ServiceSlot) -> (answer: bool)
    ensures
        answer == slots@.contains(slot),
{
    let mut i: usize = 0;
    while i < slots.len()
        invariant
            i <= slots@.len(),
            forall|k: int| 0 <= k < i ==> slots@[k] != slot,
        decreases slots@.len() - i,
    {
        if slots[i] == slot {
            assert(slots@[i as int] == slot);
            return true;
        }
        i = i + 1;
    }
    false
}

/// The agents that were bound. Of two bindings with one key the later one counts.
pub fn freeze_agents(bindings: &Vec<AgentBinding>) -> (agents: Vec<AgentEntry>)
    ensures
        is_frozen(agents@, bindings@, bindings@.len() as int),
{
    let mut agents: Vec<AgentEntry> = Vec::new();
    let mut n: usize = 0;
    while n < bindings.len()
        invariant
            n <= bindings@.len(),
            is_frozen(agents@, bindings@, n as int),
        decreases bindings@.len() - n,
    {
        let binding = &bindings[n];
        let entry = AgentEntry {
            key: binding.key.duplicate(),
            owner: binding.owner.duplicate(),
            model_allowed: depends_on(&binding.requires_slots, ServiceSlot::LlmRuntime),
            tools_allowed: depends_on(&binding.requires_slots, ServiceSlot::ToolRuntime),
        };
        let ghost before = agents@;
        let ghost place = entry_at(before, binding.key@, 0);
        proof {
            found(before, binding.key@, 0);
        }
        match find_agent(&agents, binding.key.as_str()) {
            Some(i) => {
                agents.set(i, entry);
            },
            None => {
                agents.push(entry);
            },
        }
        proof {
            let at = match place {
                Some(i) => i,
                None => before.len() as int,
            };
            assert(agents@[at]@ == entry_of(bindings@[n as int]));
            assert(bound(bindings@, agents@[at].key@, n + 1) == Some(agents@[at]@));
            assert forall|i: int| 0 <= i < agents@.len() implies bound(
                bindings@,
                (#[trigger] agents@[i]).key@,
                n + 1,
            ) == Some(agents@[i]@) by {
                if i != at {
                    assert(agents@[i] == before[i]);
                }
            }
            assert forall|k: int| 0 <= k < n + 1 implies entry_at(
                agents@,
                (#[trigger] bindings@[k]).key@,
                0,
            ) is Some by {
                if bindings@[k].key@ == agents@[at].key@ {
                    present(agents@, bindings@[k].key@, at);
                } else {
                    found(before, bindings@[k].key@, 0);
                    let i = entry_at(before, bindings@[k].key@, 0)->0;
                    assert(agents@[i] == before[i]);
                    present(agents@, bindings@[k].key@, i);
                }
            }
        }
        n = n + 1;
    }
    agents
}

} // verus!
