//! Which tools there are, and who may use which.

use crate::record::Record;
use crate::text::{byte_len, same_text, size};
use crate::text_order::{comes_before, insert_name, is_ascending, text_before, text_before_is_transitive, texts_are_ordered};
use crate::time::Duration;
use crate::tool::schema::{
    builds_validator, compile_schema, is_usable_schema, obeys_meta_schema, validate_local_schema, SchemaFault,
};
use crate::tool::vocabulary::{ApprovalRequirement, ToolMetadata, ToolSchema, ToolSchemaView, MAX_TOOL_NAME_BYTES};
use vstd::prelude::*;

verus! {

/// The tools that one owner may use.
#[derive(Debug, PartialEq, Eq)]
pub enum GrantSpec {
    All,
    /// Names in ascending order.
    Named(Vec<String>),
}

pub enum GrantView {
    All,
    Named(Seq<Seq<char>>),
}

impl GrantSpec {
    pub open spec fn view(&self) -> GrantView {
        match self {
            GrantSpec::All => GrantView::All,
            GrantSpec::Named(names) => GrantView::Named(names.deep_view()),
        }
    }
}

#[derive(Debug, PartialEq, Eq)]
pub struct Grant {
    pub owner: String,
    pub spec: GrantSpec,
}

/// Owners in ascending order, each with what it may use.
pub open spec fn owners(grants: Seq<Grant>) -> Seq<Seq<char>> {
    grants.map_values(|g: Grant| g.owner@)
}

pub open spec fn grants_wf(grants: Seq<Grant>) -> bool {
    &&& is_ascending(owners(grants))
    &&& forall|i: int|
        0 <= i < grants.len() ==> match (#[trigger] grants[i]).spec@ {
            GrantView::All => true,
            GrantView::Named(names) => is_ascending(names),
        }
}

/// The owner's grant, if it has one.
pub open spec fn grant_at(grants: Seq<Grant>, owner: Seq<char>, i: int) -> bool {
    0 <= i < grants.len() && grants[i].owner@ == owner
}

/// The settings of a tool runtime.
#[derive(Debug, PartialEq, Eq)]
pub struct CanonicalToolRuntimePlugin {
    grants: Vec<Grant>,
    default_timeout: Duration,
    max_output_bytes: usize,
    max_in_flight: usize,
}

pub struct PluginView {
    pub grants: Seq<Grant>,
    pub default_timeout: Duration,
    pub max_output_bytes: usize,
    pub max_in_flight: usize,
}

impl CanonicalToolRuntimePlugin {
    pub closed spec fn view(&self) -> PluginView {
        PluginView {
            grants: self.grants@,
            default_timeout: self.default_timeout,
            max_output_bytes: self.max_output_bytes,
            max_in_flight: self.max_in_flight,
        }
    }

    /// Nobody may use any tool; thirty seconds, 64 KiB of output and 1024 calls at once.
    pub fn new() -> (plugin: Self)
        ensures
            plugin@.grants == Seq::<Grant>::empty(),
            grants_wf(plugin@.grants),
            plugin@.default_timeout.length() == 30_000_000_000,
            plugin@.max_output_bytes == 65_536,
            plugin@.max_in_flight == 1024,
    {
        CanonicalToolRuntimePlugin {
            grants: Vec::new(),
            default_timeout: Duration::from_secs(30),
            max_output_bytes: 64 * 1024,
            max_in_flight: 1024,
        }
    }

    /// Lets one owner use every tool there is.
    pub fn grant_all(self, owner: String) -> (plugin: Self)
        requires
            grants_wf(self@.grants),
        ensures
            grants_wf(plugin@.grants),
            plugin@ == (PluginView { grants: plugin@.grants, ..self@ }),
            exists|i: int| #[trigger]
                grant_at(plugin@.grants, owner@, i) && plugin@.grants[i].spec@ is All && only_changes(
                    self@.grants,
                    plugin@.grants,
                    i,
                ),
    {
        let mut plugin = self;
        let (i, found) = place(&plugin.grants, owner.as_str());
        let grant = Grant { owner, spec: GrantSpec::All };
        put(&mut plugin.grants, i, found, grant);
        assert(grant_at(plugin@.grants, owner@, i as int));
        plugin
    }

    /// Lets one owner use one tool by name.
    pub fn grant_tool(self, owner: String, tool: String) -> (plugin: Self)
        requires
            grants_wf(self@.grants),
        ensures
            grants_wf(plugin@.grants),
            plugin@ == (PluginView { grants: plugin@.grants, ..self@ }),
            exists|i: int| #[trigger]
                grant_at(plugin@.grants, owner@, i) && only_changes(self@.grants, plugin@.grants, i)
                    && adds_tool(
                    self@.grants,
                    owner@,
                    i,
                    tool@,
                    plugin@.grants[i].spec@,
                ),
    {
        let mut plugin = self;
        let ghost before = plugin.grants@;
        let (i, found) = place(&plugin.grants, owner.as_str());
        let spec = if found {
            assert(grant_at(before, owner@, i as int));
            assert(before[i as int].spec@ == plugin.grants@[i as int].spec@);
            match &plugin.grants[i].spec {
                GrantSpec::All => GrantSpec::All,
                GrantSpec::Named(names) => {
                    let mut names: Vec<String> = names.duplicate();
                    insert_name(&mut names, &tool);
                    GrantSpec::Named(names)
                },
            }
        } else {
            let mut names: Vec<String> = Vec::new();
            insert_name(&mut names, &tool);
            proof {
                let after = names.deep_view();
                assert(after.contains(tool@));
                if after.len() > 1 {
                    assert(after.contains(after[0]) && after.contains(after[1]));
                    texts_are_ordered(after[0], after[1]);
                }
                assert(after =~= seq![tool@]);
            }
            GrantSpec::Named(names)
        };
        let grant = Grant { owner, spec };
        put(&mut plugin.grants, i, found, grant);
        proof {
            assert(grant_at(plugin@.grants, owner@, i as int));
            if !found {
                assert forall|k: int| 0 <= k < before.len() implies (#[trigger] before[k]).owner@
                    != owner@ by {
                    texts_are_ordered(owners(before)[k], owner@);
                }
            }
        }
        plugin
    }

    pub fn with_default_timeout(self, timeout: Duration) -> (plugin: Self)
        ensures
            plugin@ == (PluginView { default_timeout: timeout, ..self@ }),
    {
        let mut plugin = self;
        plugin.default_timeout = timeout;
        plugin
    }

    pub fn with_max_output_bytes(self, max_output_bytes: usize) -> (plugin: Self)
        ensures
            plugin@ == (PluginView { max_output_bytes, ..self@ }),
    {
        let mut plugin = self;
        plugin.max_output_bytes = max_output_bytes;
        plugin
    }

    pub fn with_max_in_flight(self, max_in_flight: usize) -> (plugin: Self)
        ensures
            plugin@ == (PluginView { max_in_flight, ..self@ }),
    {
        let mut plugin = self;
        plugin.max_in_flight = max_in_flight;
        plugin
    }

    /// Whether a runtime can be made with these settings. The host says whether its
    /// clock reaches as far as the timeout.
    pub fn validate(&self, timeout_in_range: bool) -> (result: Result<(), &'static str>)
        ensures
            result == if self@.max_in_flight == 0 {
                Err::<(), &'static str>(
                    "canonical ToolRuntime max_in_flight must be greater than zero",
                )
            } else if !timeout_in_range {
                Err("canonical ToolRuntime default timeout exceeds the executor clock range")
            } else {
                Ok(())
            },
    {
        if self.max_in_flight == 0 {
            return Err("canonical ToolRuntime max_in_flight must be greater than zero");
        }
        if !timeout_in_range {
            return Err(
                "canonical ToolRuntime default timeout exceeds the executor clock range",
            );
        }
        Ok(())
    }

    pub fn grants(&self) -> (grants: &Vec<Grant>)
        ensures
            grants@ == self@.grants,
    {
        &self.grants
    }
}

impl Default for CanonicalToolRuntimePlugin {
    fn default() -> (plugin: Self)
        ensures
            plugin@.grants == Seq::<Grant>::empty(),
            plugin@.default_timeout.length() == 30_000_000_000,
            plugin@.max_output_bytes == 65_536,
            plugin@.max_in_flight == 1024,
    {
        Self::new()
    }
}

/// One grant is new or changed, and all others are as they were.
pub open spec fn only_changes(before: Seq<Grant>, after: Seq<Grant>, i: int) -> bool {
    ||| 0 <= i < before.len() && before[i].owner@ == after[i].owner@ && after == before.update(
        i,
        after[i],
    )
    ||| 0 <= i <= before.len() && after == before.insert(i, after[i])
}

/// The grant has one more tool. An owner that may use every tool gets no narrower.
pub open spec fn adds_tool(before: Seq<Grant>, owner: Seq<char>, i: int, tool: Seq<char>, after: GrantView) -> bool {
    if grant_at(before, owner, i) {
        match before[i].spec@ {
            GrantView::All => after is All,
            GrantView::Named(names) => after matches GrantView::Named(more) && is_ascending(more) && (
            forall|t: Seq<char>| #[trigger] more.contains(t) <==> names.contains(t) || t == tool),
        }
    } else {
        after == GrantView::Named(seq![tool]) && forall|k: int|
            0 <= k < before.len() ==> (#[trigger] before[k]).owner@ != owner
    }
}

/// Where an owner's grant is, or belongs.
fn place(grants: &Vec<Grant>, owner: &str) -> (place: (usize, bool))
    requires
        grants_wf(grants@),
    ensures
        place.0 <= grants@.len(),
        forall|k: int| 0 <= k < place.0 ==> text_before(#[trigger] owners(grants@)[k], owner@),
        if place.1 {
            grant_at(grants@, owner@, place.0 as int)
        } else {
            forall|k: int|
                place.0 <= k < grants@.len() ==> text_before(owner@, #[trigger] owners(grants@)[k])
        },
{
    let ghost names = owners(grants@);
    let mut i: usize = 0;
    while i < grants.len() && comes_before(grants[i].owner.as_str(), owner)
        invariant
            i <= grants@.len(),
            names == owners(grants@),
            forall|k: int| 0 <= k < i ==> text_before(#[trigger] names[k], owner@),
        decreases grants@.len() - i,
    {
        assert(names[i as int] == grants@[i as int].owner@);
        i = i + 1;
    }
    if i < grants.len() {
        assert(names[i as int] == grants@[i as int].owner@);
        if same_text(grants[i].owner.as_str(), owner) {
            return (i, true);
        }
        proof {
            texts_are_ordered(names[i as int], owner@);
            assert forall|k: int| i <= k < names.len() implies text_before(
                owner@,
                #[trigger] names[k],
            ) by {
                if k > i {
                    text_before_is_transitive(owner@, names[i as int], names[k]);
                }
            }
        }
    }
    (i, false)
}

fn put(grants: &mut Vec<Grant>, i: usize, found: bool, grant: Grant)
    requires
        grants_wf(old(grants)@),
        i <= old(grants)@.len(),
        found ==> grant_at(old(grants)@, grant.owner@, i as int),
        !found ==> (forall|k: int|
            0 <= k < i ==> text_before(#[trigger] owners(old(grants)@)[k], grant.owner@)) && (
        forall|k: int|
            i <= k < old(grants)@.len() ==> text_before(
                grant.owner@,
                #[trigger] owners(old(grants)@)[k],
            )),
        match grant.spec@ {
            GrantView::All => true,
            GrantView::Named(names) => is_ascending(names),
        },
    ensures
        grants_wf(final(grants)@),
        grant_at(final(grants)@, grant.owner@, i as int),
        final(grants)@[i as int] == grant,
        only_changes(old(grants)@, final(grants)@, i as int),
{
    let ghost before = grants@;
    let ghost names = owners(before);
    if found {
        grants.set(i, grant);
        proof {
            assert(owners(grants@) =~= names);
        }
    } else {
        grants.insert(i, grant);
        proof {
            let after = owners(grants@);
            assert(after =~= names.insert(i as int, grant.owner@));
            assert forall|a: int, b: int| 0 <= a < b < after.len() implies text_before(
                #[trigger] after[a],
                #[trigger] after[b],
            ) by {
                if b < i {
                    assert(after[a] == names[a] && after[b] == names[b]);
                } else if b == i {
                    assert(after[a] == names[a]);
                } else {
                    assert(after[b] == names[b - 1]);
                    if a < i {
                        assert(after[a] == names[a]);
                    } else if a > i {
                        assert(after[a] == names[a - 1]);
                    }
                }
            }
        }
    }
}

// ---- the tools ----

/// A tool as it was registered. Without metadata, the tool broke down when asked.
#[derive(Debug, PartialEq, Eq)]
pub struct ToolRegistration {
    pub key: String,
    pub owner: String,
    pub metadata: Option<ToolMetadata>,
}

/// A tool that can be called.
#[derive(Debug, PartialEq, Eq)]
pub struct ToolEntry {
    pub key: String,
    pub metadata: ToolMetadata,
}

/// Why a registration is refused.
#[derive(Debug, PartialEq, Eq)]
pub enum RegistrationFault {
    InvalidKey,
    MetadataPanicked,
    Schema(SchemaFault),
    MissingAuthorizer,
}

/// A refused registration.
#[derive(Debug, PartialEq, Eq)]
pub struct RefusedRegistration {
    /// Where the registration stood.
    pub index: usize,
    pub fault: RegistrationFault,
}

/// The registration can be used: a short name, a usable schema, and an authorizer where
/// approval is required.
pub open spec fn is_acceptable(registration: ToolRegistration, authorizers: Seq<Seq<char>>) -> bool {
    &&& registration.key@.len() > 0
    &&& byte_len(registration.key@) <= MAX_TOOL_NAME_BYTES
    &&& registration.metadata is Some
    &&& is_usable_schema(registration.metadata->0.input_schema@)
    &&& match registration.metadata->0.approval {
        ApprovalRequirement::Required(key) => authorizers.contains(key@),
        ApprovalRequirement::NotRequired => true,
    }
}

/// The fault is the one by which the registration is refused.
pub open spec fn refuses(registration: ToolRegistration, authorizers: Seq<Seq<char>>, fault: RegistrationFault) -> bool {
    let named = registration.key@.len() > 0 && byte_len(registration.key@) <= MAX_TOOL_NAME_BYTES;
    match fault {
        RegistrationFault::InvalidKey => !named,
        RegistrationFault::MetadataPanicked => named && registration.metadata is None,
        RegistrationFault::Schema(SchemaFault::NotDraft202012(_)) => named && registration.metadata
            is Some && !obeys_meta_schema(registration.metadata->0.input_schema@),
        RegistrationFault::MissingAuthorizer => named && registration.metadata is Some
            && obeys_meta_schema(registration.metadata->0.input_schema@)
            && match registration.metadata->0.approval {
            ApprovalRequirement::Required(key) => !authorizers.contains(key@),
            ApprovalRequirement::NotRequired => false,
        },
        RegistrationFault::Schema(SchemaFault::NotCompiled(_)) => named && registration.metadata
            is Some && obeys_meta_schema(registration.metadata->0.input_schema@)
            && !builds_validator(registration.metadata->0.input_schema@)
            && match registration.metadata->0.approval {
            ApprovalRequirement::Required(key) => authorizers.contains(key@),
            ApprovalRequirement::NotRequired => true,
        },
    }
}

/// Where a tool is.
pub open spec fn tool_at(tools: Seq<ToolEntry>, key: Seq<char>, k: int) -> Option<int>
    decreases tools.len() - k,
{
    if k < 0 || k >= tools.len() {
        None
    } else if tools[k].key@ == key {
        Some(k)
    } else {
        tool_at(tools, key, k + 1)
    }
}

/// The tools with one more; a tool of the same name is replaced.
pub open spec fn with_tool(tools: Seq<ToolEntry>, entry: ToolEntry) -> Seq<ToolEntry> {
    match tool_at(tools, entry.key@, 0) {
        Some(i) => tools.update(i, entry),
        None => tools.push(entry),
    }
}

/// The tools of the first `n` registrations.
pub open spec fn registered(registrations: Seq<ToolRegistration>, n: int) -> Seq<ToolEntry>
    decreases n,
{
    if n <= 0 {
        Seq::empty()
    } else {
        with_tool(
            registered(registrations, n - 1),
            ToolEntry {
                key: registrations[n - 1].key,
                metadata: registrations[n - 1].metadata->0,
            },
        )
    }
}

/// The index of a tool.
pub fn find_tool(tools: &Vec<ToolEntry>, key: &str) -> (found: Option<usize>)
    ensures
        match found {
            Some(i) => i < tools@.len() && tool_at(tools@, key@, 0) == Some(i as int)
                && tools@[i as int].key@ == key@,
            None => tool_at(tools@, key@, 0) is None,
        },
{
    let mut i: usize = 0;
    while i < tools.len()
        invariant
            i <= tools@.len(),
            tool_at(tools@, key@, 0) == tool_at(tools@, key@, i as int),
        decreases tools@.len() - i,
    {
        if same_text(tools[i].key.as_str(), key) {
            return Some(i);
        }
        i = i + 1;
    }
    None
}

fn contains_name(names: &Vec<String>, name: &str) -> (answer: bool)
    ensures
        answer == names.deep_view().contains(name@),
{
    let ghost views = names.deep_view();
    let mut i: usize = 0;
    while i < names.len()
        invariant
            i <= names@.len(),
            views == names.deep_view(),
            forall|k: int| 0 <= k < i ==> #[trigger] views[k] != name@,
        decreases names@.len() - i,
    {
        assert(views[i as int] == names@[i as int]@);
        if same_text(names[i].as_str(), name) {
            assert(views.contains(name@));
            return true;
        }
        i = i + 1;
    }
    false
}

fn check_registration(registration: &ToolRegistration, authorizers: &Vec<String>) -> (fault: Option<RegistrationFault>)
    ensures
        match fault {
            Some(fault) => refuses(*registration, authorizers.deep_view(), fault),
            None => is_acceptable(*registration, authorizers.deep_view()),
        },
{
    if registration.key.as_str().unicode_len() == 0 || size(registration.key.as_str())
        > MAX_TOOL_NAME_BYTES {
        return Some(RegistrationFault::InvalidKey);
    }
    match &registration.metadata {
        None => Some(RegistrationFault::MetadataPanicked),
        Some(metadata) => {
            match validate_local_schema(&metadata.input_schema) {
                Err(e) => {
                    return Some(RegistrationFault::Schema(e));
                },
                Ok(_) => {},
            }
            match &metadata.approval {
                ApprovalRequirement::Required(key) => {
                    if !contains_name(authorizers, key.as_str()) {
                        return Some(RegistrationFault::MissingAuthorizer);
                    }
                },
                ApprovalRequirement::NotRequired => {},
            }
            match compile_schema(&metadata.input_schema) {
                Err(e) => Some(RegistrationFault::Schema(e)),
                Ok(_) => None,
            }
        },
    }
}

/// The tools of all registrations, or the first registration that is refused.
pub fn freeze_tools(registrations: Vec<ToolRegistration>, authorizers: &Vec<String>) -> (result: Result<
    Vec<ToolEntry>,
    RefusedRegistration,
>)
    ensures
        match result {
            Ok(tools) => {
                &&& tools@ == registered(registrations@, registrations@.len() as int)
                &&& forall|i: int|
                    0 <= i < registrations@.len() ==> is_acceptable(
                        #[trigger] registrations@[i],
                        authorizers.deep_view(),
                    )
            },
            Err(refused) => {
                &&& refused.index < registrations@.len()
                &&& refuses(
                    registrations@[refused.index as int],
                    authorizers.deep_view(),
                    refused.fault,
                )
                &&& forall|i: int|
                    0 <= i < refused.index ==> is_acceptable(
                        #[trigger] registrations@[i],
                        authorizers.deep_view(),
                    )
            },
        },
{
    let ghost all = registrations@;
    let total: usize = registrations.len();
    let mut rest = registrations;
    let mut tools: Vec<ToolEntry> = Vec::new();
    let mut done: usize = 0;
    assert(all.skip(0) =~= all);
    while rest.len() > 0
        invariant
            done + rest@.len() == all.len(),
            all.len() == total,
            all == registrations@,
            rest@ == all.skip(done as int),
            tools@ == registered(all, done as int),
            forall|i: int|
                0 <= i < done ==> is_acceptable(#[trigger] all[i], authorizers.deep_view()),
        decreases rest@.len(),
    {
        let registration = rest.remove(0);
        assert(registration == all[done as int]);
        assert(rest@ =~= all.skip(done + 1));
        match check_registration(&registration, authorizers) {
            Some(fault) => {
                return Err(RefusedRegistration { index: done, fault });
            },
            None => {},
        }
        match registration.metadata {
            Some(metadata) => {
                let entry = ToolEntry { key: registration.key, metadata };
                match find_tool(&tools, entry.key.as_str()) {
                    Some(i) => {
                        tools.set(i, entry);
                    },
                    None => {
                        tools.push(entry);
                    },
                }
            },
            None => {},
        }
        done = done + 1;
    }
    Ok(tools)
}

/// The words for a refused registration.
pub open spec fn refusal_text_of(registration: ToolRegistration, fault: RegistrationFault) -> Seq<char> {
    let tool = "Tool `"@ + registration.key@ + "`"@;
    match fault {
        RegistrationFault::InvalidKey => tool + " from plugin `"@ + registration.owner@
            + "` has an invalid registration key"@,
        RegistrationFault::MetadataPanicked => tool + " from plugin `"@ + registration.owner@
            + "` panicked while providing metadata"@,
        RegistrationFault::Schema(SchemaFault::NotDraft202012(words)) => tool
            + " schema is not valid Draft 2020-12: "@ + words@,
        RegistrationFault::Schema(SchemaFault::NotCompiled(words)) => tool
            + " schema cannot be compiled: "@ + words@,
        RegistrationFault::MissingAuthorizer => match registration.metadata->0.approval {
            ApprovalRequirement::Required(key) => tool + " requires missing authorizer `"@ + key@
                + "`"@,
            ApprovalRequirement::NotRequired => tool,
        },
    }
}

/// The words for a refused registration.
pub fn refusal_text(registration: &ToolRegistration, fault: &RegistrationFault) -> (text: String)
    requires
        fault is MissingAuthorizer ==> registration.metadata is Some,
    ensures
        text@ == refusal_text_of(*registration, *fault),
{
    let mut text = "Tool `".to_owned();
    text.push_str(registration.key.as_str());
    text.push_str("`");
    match fault {
        RegistrationFault::InvalidKey => {
            text.push_str(" from plugin `");
            text.push_str(registration.owner.as_str());
            text.push_str("` has an invalid registration key");
        },
        RegistrationFault::MetadataPanicked => {
            text.push_str(" from plugin `");
            text.push_str(registration.owner.as_str());
            text.push_str("` panicked while providing metadata");
        },
        RegistrationFault::Schema(SchemaFault::NotDraft202012(words)) => {
            text.push_str(" schema is not valid Draft 2020-12: ");
            text.push_str(words.as_str());
        },
        RegistrationFault::Schema(SchemaFault::NotCompiled(words)) => {
            text.push_str(" schema cannot be compiled: ");
            text.push_str(words.as_str());
        },
        RegistrationFault::MissingAuthorizer => match &registration.metadata {
            Some(metadata) => match &metadata.approval {
                ApprovalRequirement::Required(key) => {
                    text.push_str(" requires missing authorizer `");
                    text.push_str(key.as_str());
                    text.push_str("`");
                },
                ApprovalRequirement::NotRequired => {},
            },
            None => {},
        },
    }
    text
}

/// No two tools have one name.
pub open spec fn has_unique_names(tools: Seq<ToolEntry>) -> bool {
    forall|i: int, j: int|
        0 <= i < j < tools.len() ==> (#[trigger] tools[i]).key@ != (#[trigger] tools[j]).key@
}

proof fn tool_is_there(tools: Seq<ToolEntry>, key: Seq<char>, k: int)
    requires
        0 <= k,
    ensures
        match tool_at(tools, key, k) {
            Some(i) => k <= i < tools.len() && tools[i].key@ == key,
            None => forall|i: int| k <= i < tools.len() ==> (#[trigger] tools[i]).key@ != key,
        },
    decreases tools.len() - k,
{
    if k < tools.len() {
        tool_is_there(tools, key, k + 1);
    }
}

/// No two frozen tools have one name, and each comes from a registration.
pub proof fn frozen_tools_are_distinct(registrations: Seq<ToolRegistration>, n: int)
    requires
        0 <= n <= registrations.len(),
    ensures
        has_unique_names(registered(registrations, n)),
    decreases n,
{
    if n > 0 {
        frozen_tools_are_distinct(registrations, n - 1);
        let tools = registered(registrations, n - 1);
        tool_is_there(tools, registrations[n - 1].key@, 0);
    }
}

// ---- who may use what ----

/// What an owner may use, name by name.
#[derive(Debug, PartialEq, Eq)]
pub struct ExpandedGrant {
    pub owner: String,
    pub tools: Vec<String>,
}

/// The first named tool that does not exist.
pub open spec fn missing_tool(names: Seq<Seq<char>>, tools: Seq<ToolEntry>, k: int) -> Option<int>
    decreases names.len() - k,
{
    if k < 0 || k >= names.len() {
        None
    } else if tool_at(tools, names[k], 0) is None {
        Some(k)
    } else {
        missing_tool(names, tools, k + 1)
    }
}

pub open spec fn grant_missing(grant: Grant, tools: Seq<ToolEntry>) -> Option<int> {
    match grant.spec@ {
        GrantView::All => None,
        GrantView::Named(names) => missing_tool(names, tools, 0),
    }
}

/// The names of all tools, in ascending order.
pub open spec fn is_all_names(names: Seq<Seq<char>>, tools: Seq<ToolEntry>) -> bool {
    &&& is_ascending(names)
    &&& forall|t: Seq<char>| #[trigger]
        names.contains(t) <==> exists|i: int| 0 <= i < tools.len() && (#[trigger] tools[i]).key@ == t
}

pub open spec fn expands(expanded: ExpandedGrant, grant: Grant, tools: Seq<ToolEntry>) -> bool {
    &&& expanded.owner@ == grant.owner@
    &&& match grant.spec@ {
        GrantView::All => is_all_names(expanded.tools.deep_view(), tools),
        GrantView::Named(names) => expanded.tools.deep_view() == names,
    }
}

fn all_names(tools: &Vec<ToolEntry>) -> (names: Vec<String>)
    ensures
        is_all_names(names.deep_view(), tools@),
{
    let mut names: Vec<String> = Vec::new();
    let mut i: usize = 0;
    while i < tools.len()
        invariant
            i <= tools@.len(),
            is_ascending(names.deep_view()),
            forall|t: Seq<char>| #[trigger]
                names.deep_view().contains(t) <==> exists|k: int|
                    0 <= k < i && (#[trigger] tools@[k]).key@ == t,
        decreases tools@.len() - i,
    {
        let ghost before = names.deep_view();
        insert_name(&mut names, &tools[i].key);
        proof {
            assert forall|t: Seq<char>| #[trigger] names.deep_view().contains(t) <==> exists|k: int|
                0 <= k < i + 1 && (#[trigger] tools@[k]).key@ == t by {
                if before.contains(t) {
                    let k = choose|k: int| 0 <= k < i && (#[trigger] tools@[k]).key@ == t;
                    assert(tools@[k].key@ == t);
                }
                if t == tools@[i as int].key@ {
                    assert(names.deep_view().contains(t));
                }
            }
        }
        i = i + 1;
    }
    names
}

fn find_missing(names: &Vec<String>, tools: &Vec<ToolEntry>) -> (missing: Option<usize>)
    ensures
        match missing {
            Some(k) => k < names@.len() && missing_tool(names.deep_view(), tools@, 0) == Some(k as int),
            None => missing_tool(names.deep_view(), tools@, 0) is None,
        },
{
    let ghost views = names.deep_view();
    let mut k: usize = 0;
    while k < names.len()
        invariant
            k <= names@.len(),
            views == names.deep_view(),
            missing_tool(views, tools@, 0) == missing_tool(views, tools@, k as int),
        decreases names@.len() - k,
    {
        assert(views[k as int] == names@[k as int]@);
        if find_tool(tools, names[k].as_str()).is_none() {
            return Some(k);
        }
        k = k + 1;
    }
    None
}

/// What every owner may use, or the words for the first grant of a tool that does not
/// exist.
pub fn expand_grants(configured: &Vec<Grant>, tools: &Vec<ToolEntry>) -> (result: Result<
    Vec<ExpandedGrant>,
    String,
>)
    ensures
        match result {
            Ok(grants) => {
                &&& grants@.len() == configured@.len()
                &&& forall|i: int|
                    0 <= i < configured@.len() ==> grant_missing(#[trigger] configured@[i], tools@)
                        is None && expands(grants@[i], configured@[i], tools@)
            },
            Err(text) => exists|i: int| #[trigger]
                is_missing_text(configured@, tools@, text@, i),
        },
{
    let mut grants: Vec<ExpandedGrant> = Vec::new();
    let mut i: usize = 0;
    while i < configured.len()
        invariant
            i <= configured@.len(),
            grants@.len() == i,
            forall|k: int|
                0 <= k < i ==> grant_missing(#[trigger] configured@[k], tools@) is None && expands(
                    grants@[k],
                    configured@[k],
                    tools@,
                ),
        decreases configured@.len() - i,
    {
        let grant = &configured[i];
        let names: Vec<String> = match &grant.spec {
            GrantSpec::All => all_names(tools),
            GrantSpec::Named(names) => {
                match find_missing(names, tools) {
                    Some(k) => {
                        let mut text = "ToolRuntime grant for owner `".to_owned();
                        text.push_str(grant.owner.as_str());
                        text.push_str("` references missing Tool `");
                        text.push_str(names[k].as_str());
                        text.push_str("`");
                        assert(names.deep_view()[k as int] == names@[k as int]@);
                        assert(is_missing_text(configured@, tools@, text@, i as int));
                        let refused: Result<Vec<ExpandedGrant>, String> = Err(text);
                        assert(refused->Err_0@ == text@);
                        return refused;
                    },
                    None => {},
                }
                names.duplicate()
            },
        };
        let expanded = ExpandedGrant { owner: grant.owner.clone(), tools: names };
        grants.push(expanded);
        i = i + 1;
    }
    Ok(grants)
}

/// The text names the first grant with a tool that does not exist, and that tool.
pub open spec fn is_missing_text(grants: Seq<Grant>, tools: Seq<ToolEntry>, text: Seq<char>, i: int) -> bool {
    &&& 0 <= i < grants.len()
    &&& forall|k: int| 0 <= k < i ==> grant_missing(#[trigger] grants[k], tools) is None
    &&& match (grants[i].spec@, grant_missing(grants[i], tools)) {
        (GrantView::Named(names), Some(k)) => text == "ToolRuntime grant for owner `"@
            + grants[i].owner@ + "` references missing Tool `"@ + names[k] + "`"@,
        _ => false,
    }
}

/// What a caller may use: nothing, unless it has a grant.
pub open spec fn granted_to(grants: Seq<ExpandedGrant>, caller: Seq<char>, k: int) -> Seq<Seq<char>>
    decreases grants.len() - k,
{
    if k < 0 || k >= grants.len() {
        Seq::empty()
    } else if grants[k].owner@ == caller {
        grants[k].tools.deep_view()
    } else {
        granted_to(grants, caller, k + 1)
    }
}

pub fn granted_tools(grants: &Vec<ExpandedGrant>, caller: &str) -> (tools: Vec<String>)
    ensures
        tools.deep_view() == granted_to(grants@, caller@, 0),
{
    let mut i: usize = 0;
    while i < grants.len()
        invariant
            i <= grants@.len(),
            granted_to(grants@, caller@, 0) == granted_to(grants@, caller@, i as int),
        decreases grants@.len() - i,
    {
        if same_text(grants[i].owner.as_str(), caller) {
            return grants[i].tools.duplicate();
        }
        i = i + 1;
    }
    let none: Vec<String> = Vec::new();
    assert(none.deep_view() =~= Seq::empty());
    none
}

/// Whether a caller may use a tool that exists.
pub fn is_available(granted: &Vec<String>, tools: &Vec<ToolEntry>, name: &str) -> (answer: bool)
    ensures
        answer == (granted.deep_view().contains(name@) && tool_at(tools@, name@, 0) is Some),
{
    contains_name(granted, name) && find_tool(tools, name).is_some()
}

/// How the tools that a caller may use are shown to it, in the order of their names.
pub open spec fn schemas_of(granted: Seq<Seq<char>>, tools: Seq<ToolEntry>) -> Seq<ToolSchemaView>
    decreases granted.len(),
{
    if granted.len() == 0 {
        Seq::empty()
    } else {
        let before = schemas_of(granted.drop_last(), tools);
        match tool_at(tools, granted.last(), 0) {
            Some(i) => before.push(
                ToolSchemaView {
                    name: granted.last(),
                    description: tools[i].metadata.description@,
                    parameters: tools[i].metadata.input_schema@,
                },
            ),
            None => before,
        }
    }
}

pub fn turn_schemas(granted: &Vec<String>, tools: &Vec<ToolEntry>) -> (schemas: Vec<ToolSchema>)
    ensures
        schemas.deep_view() == schemas_of(granted.deep_view(), tools@),
{
    let ghost names = granted.deep_view();
    let mut schemas: Vec<ToolSchema> = Vec::new();
    let mut i: usize = 0;
    proof {
        assert(names.take(0) =~= Seq::empty());
        assert(schemas.deep_view() =~= Seq::empty());
    }
    while i < granted.len()
        invariant
            i <= granted@.len(),
            names == granted.deep_view(),
            schemas.deep_view() == schemas_of(names.take(i as int), tools@),
        decreases granted@.len() - i,
    {
        let ghost before = schemas.deep_view();
        proof {
            assert(names[i as int] == granted@[i as int]@);
            assert(names.take(i + 1).drop_last() =~= names.take(i as int));
            assert(names.take(i + 1).last() == names[i as int]);
        }
        match find_tool(tools, granted[i].as_str()) {
            Some(k) => {
                let entry = &tools[k];
                let schema = ToolSchema {
                    name: granted[i].clone(),
                    description: entry.metadata.description.clone(),
                    parameters: entry.metadata.input_schema.duplicate(),
                };
                schemas.push(schema);
                assert(schemas.deep_view() =~= before.push(schema@));
            },
            None => {},
        }
        i = i + 1;
    }
    assert(names.take(names.len() as int) =~= names);
    schemas
}

/// One guard is asked before another: by its ordinal, and where those are the same by
/// who was bound first.
pub open spec fn asked_before(ordinals: Seq<usize>, i: usize, j: usize) -> bool {
    ordinals[i as int] < ordinals[j as int] || (ordinals[i as int] == ordinals[j as int] && i < j)
}

/// The order in which the first `n` guards are asked: each once.
pub open spec fn is_asking_order(order: Seq<usize>, ordinals: Seq<usize>, n: int) -> bool {
    &&& order.len() == n
    &&& forall|k: int| 0 <= k < n ==> 0 <= #[trigger] order[k] < n
    &&& forall|a: int, b: int|
        0 <= a < b < n ==> asked_before(ordinals, #[trigger] order[a], #[trigger] order[b])
    &&& forall|g: usize| g < n ==> #[trigger] order.contains(g)
}

/// The order in which guards are asked, given the ordinals that they were bound with.
pub fn freeze_guards(ordinals: &Vec<usize>) -> (order: Vec<usize>)
    ensures
        is_asking_order(order@, ordinals@, ordinals@.len() as int),
{
    let mut order: Vec<usize> = Vec::new();
    let mut n: usize = 0;
    while n < ordinals.len()
        invariant
            n <= ordinals@.len(),
            is_asking_order(order@, ordinals@, n as int),
        decreases ordinals@.len() - n,
    {
        let mut at: usize = order.len();
        while at > 0 && ordinals[order[at - 1]] > ordinals[n]
            invariant
                n < ordinals@.len(),
                at <= order@.len(),
                is_asking_order(order@, ordinals@, n as int),
                forall|k: int|
                    at <= k < n ==> ordinals@[#[trigger] order@[k] as int] > ordinals@[n as int],
            decreases at,
        {
            at = at - 1;
        }
        let ghost before = order@;
        order.insert(at, n);
        proof {
            assert(order@ =~= before.insert(at as int, n));
            assert forall|a: int, b: int| 0 <= a < b < n + 1 implies asked_before(
                ordinals@,
                #[trigger] order@[a],
                #[trigger] order@[b],
            ) by {
                if b == at {
                    assert(order@[a] == before[a]);
                    if at > 0 && a < at - 1 {
                        assert(asked_before(ordinals@, before[a], before[at - 1]));
                    }
                } else if a == at {
                    assert(order@[b] == before[b - 1]);
                } else {
                    let c = if a < at {
                        a
                    } else {
                        a - 1
                    };
                    let d = if b < at {
                        b
                    } else {
                        b - 1
                    };
                    assert(order@[a] == before[c] && order@[b] == before[d]);
                    assert(asked_before(ordinals@, before[c], before[d]));
                }
            }
            assert forall|g: usize| g < n + 1 implies #[trigger] order@.contains(g) by {
                if g == n {
                    assert(order@[at as int] == n);
                } else {
                    assert(before.contains(g));
                    let k = before.index_of(g);
                    if k < at {
                        assert(order@[k] == g);
                    } else {
                        assert(order@[k + 1] == g);
                    }
                }
            }
            assert forall|k: int| 0 <= k < n + 1 implies 0 <= #[trigger] order@[k] < n + 1 by {
                if k < at {
                    assert(order@[k] == before[k]);
                } else if k > at {
                    assert(order@[k] == before[k - 1]);
                }
            }
        }
        n = n + 1;
    }
    order
}

} // verus!
