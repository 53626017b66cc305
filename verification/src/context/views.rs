//! Views of tools: a host's strategy names tools, it never replaces what they are.

use crate::context::viewing::{ToolView, ToolViewLimits, ToolViewModel, ViewError};
use crate::generation::{
    GenerationConstraint, GenerationRequest, ModelMessage, ModelToolDefinition,
    ModelToolDefinitionView, ToolChoice,
};
use crate::generation_shape::{has_tool, messages_fault, names_tool, tools_clash};
use crate::record::{holds, Record};
use crate::text_order::{
    comes_before, insert_name, is_ascending, text_before, text_before_is_transitive, texts_are_ordered,
};
use vstd::prelude::*;

verus! {

/// A host's choice of tools, by name.
pub trait ToolSelector {
    /// Shown this catalog, the selector can give this answer. A selector that says no more
    /// of itself may answer anything.
    open spec fn selects(
        &self,
        authorized: Seq<ModelToolDefinitionView>,
        answer: Result<Seq<Seq<char>>, ViewError>,
    ) -> bool {
        true
    }

    fn select(&self, authorized: &Vec<ModelToolDefinition>) -> (result: Result<
        Vec<String>,
        ViewError,
    >)
        ensures
            self.selects(authorized.deep_view(), names_view(result)),
    ;
}

/// A named group of tools. Membership is the host's bookkeeping, not a grant.
#[derive(Debug, PartialEq, Eq)]
pub struct ToolGroup {
    pub name: String,
    pub members: Vec<String>,
}

/// The explicit names and the members of the active groups. Without either, every tool.
/// The lists are sets of names: neither order nor repetition in them matters, and of two
/// groups of one name the first counts.
#[derive(Debug, PartialEq, Eq)]
pub struct GroupedToolSelector {
    pub names: Option<Vec<String>>,
    pub groups: Vec<ToolGroup>,
    pub active_groups: Vec<String>,
}

/// Where the first group with this name stands.
pub open spec fn group_at(groups: Seq<ToolGroup>, name: Seq<char>, k: int) -> Option<int>
    decreases groups.len() - k,
{
    if k < 0 || k >= groups.len() {
        None
    } else if groups[k].name@ == name {
        Some(k)
    } else {
        group_at(groups, name, k + 1)
    }
}

impl GroupedToolSelector {
    /// The name is chosen by one of the first `n` active groups.
    pub open spec fn grouped(&self, n: int, name: Seq<char>) -> bool {
        exists|i: int| #[trigger]
            self.in_group(i, name) && 0 <= i < n
    }

    /// The `i`th active group has this member.
    pub open spec fn in_group(&self, i: int, name: Seq<char>) -> bool {
        match group_at(self.groups@, self.active_groups@[i]@, 0) {
            Some(k) => self.groups@[k].members.deep_view().contains(name),
            None => false,
        }
    }

    pub open spec fn named(&self, name: Seq<char>) -> bool {
        self.names matches Some(names) && names.deep_view().contains(name)
    }

    /// An active group that does not exist.
    pub open spec fn has_unknown_group(&self) -> bool {
        exists|i: int|
            0 <= i < self.active_groups@.len() && group_at(
                self.groups@,
                (#[trigger] self.active_groups@[i])@,
                0,
            ) is None
    }

    fn find_group(&self, name: &String) -> (index: Option<usize>)
        ensures
            match index {
                Some(k) => k < self.groups@.len() && group_at(self.groups@, name@, 0) == Some(
                    k as int,
                ),
                None => group_at(self.groups@, name@, 0) is None,
            },
    {
        let mut k: usize = 0;
        while k < self.groups.len()
            invariant
                k <= self.groups@.len(),
                group_at(self.groups@, name@, 0) == group_at(self.groups@, name@, k as int),
            decreases self.groups@.len() - k,
        {
            if self.groups[k].name.is_same(name) {
                return Some(k);
            }
            k = k + 1;
        }
        None
    }
}

/// Adds names to an ascending list.
fn insert_all(names: &mut Vec<String>, more: &Vec<String>)
    requires
        is_ascending(old(names).deep_view()),
    ensures
        is_ascending(final(names).deep_view()),
        forall|t: Seq<char>| #[trigger]
            final(names).deep_view().contains(t) <==> old(names).deep_view().contains(t)
                || more.deep_view().contains(t),
{
    let ghost before = names.deep_view();
    let ghost views = more.deep_view();
    let mut i: usize = 0;
    while i < more.len()
        invariant
            i <= more@.len(),
            views == more.deep_view(),
            is_ascending(names.deep_view()),
            forall|t: Seq<char>| #[trigger]
                names.deep_view().contains(t) <==> before.contains(t) || views.take(
                    i as int,
                ).contains(t),
        decreases more@.len() - i,
    {
        let ghost prior = names.deep_view();
        insert_name(names, &more[i]);
        proof {
            assert(views[i as int] == more@[i as int]@);
            assert forall|t: Seq<char>| #[trigger] names.deep_view().contains(t)
                <==> before.contains(t) || views.take(i + 1).contains(t) by {
                assert(prior.contains(t) <==> before.contains(t) || views.take(i as int).contains(
                    t,
                ));
                if views.take(i as int).contains(t) {
                    let k = views.take(i as int).index_of(t);
                    assert(views.take(i + 1)[k] == t);
                }
                if views.take(i + 1).contains(t) {
                    let k = views.take(i + 1).index_of(t);
                    if k < i {
                        assert(views.take(i as int)[k] == t);
                    }
                }
                assert(views.take(i + 1)[i as int] == more@[i as int]@);
            }
        }
        i = i + 1;
    }
    assert(views.take(views.len() as int) =~= views);
}

impl ToolSelector for GroupedToolSelector {
    open spec fn selects(
        &self,
        authorized: Seq<ModelToolDefinitionView>,
        answer: Result<Seq<Seq<char>>, ViewError>,
    ) -> bool {
        if self.names is None && self.active_groups@.len() == 0 {
            answer == Ok::<Seq<Seq<char>>, ViewError>(
                authorized.map_values(|tool: ModelToolDefinitionView| tool.name),
            )
        } else if self.has_unknown_group() {
            answer == Err::<Seq<Seq<char>>, ViewError>(ViewError::Unauthorized)
        } else {
            &&& answer matches Ok(names)
            &&& is_ascending(names)
            &&& forall|t: Seq<char>| #[trigger]
                names.contains(t) <==> self.named(t) || self.grouped(
                    self.active_groups@.len() as int,
                    t,
                )
        }
    }

    fn select(&self, authorized: &Vec<ModelToolDefinition>) -> (result: Result<
        Vec<String>,
        ViewError,
    >) {
        if self.names.is_none() && self.active_groups.len() == 0 {
            return Ok(names_of(authorized));
        }
        let mut selected: Vec<String> = Vec::new();
        assert(selected.deep_view() =~= Seq::empty());
        match &self.names {
            Some(names) => {
                insert_all(&mut selected, names);
            },
            None => {},
        }
        let mut i: usize = 0;
        while i < self.active_groups.len()
            invariant
                i <= self.active_groups@.len(),
                self.names is Some || self.active_groups@.len() > 0,
                is_ascending(selected.deep_view()),
                forall|t: Seq<char>| #[trigger]
                    selected.deep_view().contains(t) <==> self.named(t) || self.grouped(
                        i as int,
                        t,
                    ),
                forall|k: int|
                    0 <= k < i ==> group_at(self.groups@, (#[trigger] self.active_groups@[k])@, 0)
                        is Some,
            decreases self.active_groups@.len() - i,
        {
            let k: usize = match self.find_group(&self.active_groups[i]) {
                Some(k) => k,
                None => {
                    return Err(ViewError::Unauthorized);
                },
            };
            let ghost prior = selected.deep_view();
            insert_all(&mut selected, &self.groups[k].members);
            proof {
                assert forall|t: Seq<char>| #[trigger] selected.deep_view().contains(t)
                    <==> self.named(t) || self.grouped(i + 1, t) by {
                    assert(prior.contains(t) <==> self.named(t) || self.grouped(i as int, t));
                    assert(self.in_group(i as int, t)
                        == self.groups@[k as int].members.deep_view().contains(t));
                    if self.grouped(i + 1, t) && !self.grouped(i as int, t) {
                        let w = choose|w: int| #[trigger] self.in_group(w, t) && 0 <= w < i + 1;
                        assert(w == i);
                    }
                }
            }
            i = i + 1;
        }
        Ok(selected)
    }
}

fn names_of(tools: &Vec<ModelToolDefinition>) -> (names: Vec<String>)
    ensures
        names.deep_view() == tools.deep_view().map_values(
            |tool: ModelToolDefinitionView| tool.name,
        ),
{
    let ghost wanted = tools.deep_view().map_values(|tool: ModelToolDefinitionView| tool.name);
    let mut names: Vec<String> = Vec::new();
    let mut i: usize = 0;
    while i < tools.len()
        invariant
            i <= tools@.len(),
            wanted == tools.deep_view().map_values(|tool: ModelToolDefinitionView| tool.name),
            names@.len() == i,
            forall|k: int| 0 <= k < i ==> (#[trigger] names@[k])@ == wanted[k],
        decreases tools@.len() - i,
    {
        assert(tools.deep_view()[i as int] == tools@[i as int]@);
        names.push(tools[i].name.clone());
        i = i + 1;
    }
    assert(names.deep_view() =~= wanted);
    names
}

/// The tools stand in the order of their names.
pub open spec fn is_sorted(tools: Seq<ModelToolDefinitionView>) -> bool {
    forall|i: int, j: int|
        0 <= i < j < tools.len() ==> text_before(
            (#[trigger] tools[i]).name,
            (#[trigger] tools[j]).name,
        )
}

/// Why a catalog gives no view, before a selection is made.
pub open spec fn catalog_fault(
    tools: Seq<ModelToolDefinitionView>,
    bytes: usize,
    limits: ToolViewLimits,
) -> Option<ViewError> {
    if limits.max_catalog == 0 || limits.max_visible == 0 || limits.max_input_bytes == 0 {
        Some(ViewError::Invalid)
    } else if tools.len() > limits.max_catalog {
        Some(ViewError::Limit)
    } else if bytes > limits.max_input_bytes {
        Some(ViewError::Limit)
    } else if tools_clash(tools) {
        Some(ViewError::Invalid)
    } else {
        None
    }
}

/// Why a selection gives no view: too many names, a name twice, or one that is not
/// in the catalog.
pub open spec fn selection_fault(
    tools: Seq<ModelToolDefinitionView>,
    selected: Seq<Seq<char>>,
    limits: ToolViewLimits,
) -> Option<ViewError> {
    if selected.len() > limits.max_visible {
        Some(ViewError::Limit)
    } else if !selected.no_duplicates() || exists|i: int|
        0 <= i < selected.len() && !has_tool(tools, #[trigger] selected[i]) {
        Some(ViewError::Unauthorized)
    } else {
        None
    }
}

/// The tools that are named, each as it is.
pub open spec fn visible(tools: Seq<ModelToolDefinitionView>, selected: Seq<Seq<char>>) -> Seq<
    ModelToolDefinitionView,
>
    decreases tools.len(),
{
    if tools.len() == 0 {
        Seq::empty()
    } else {
        let before = visible(tools.drop_last(), selected);
        if selected.contains(tools.last().name) {
            before.push(tools.last())
        } else {
            before
        }
    }
}

/// The names of the other tools.
pub open spec fn hidden(tools: Seq<ModelToolDefinitionView>, selected: Seq<Seq<char>>) -> Seq<Seq<char>>
    decreases tools.len(),
{
    if tools.len() == 0 {
        Seq::empty()
    } else {
        let before = hidden(tools.drop_last(), selected);
        if selected.contains(tools.last().name) {
            before
        } else {
            before.push(tools.last().name)
        }
    }
}

/// The same tools in the order of their names.
pub open spec fn is_sorting(sorted: Seq<ModelToolDefinitionView>, tools: Seq<ModelToolDefinitionView>) -> bool {
    is_sorted(sorted) && sorted.to_multiset() == tools.to_multiset()
}

/// What a selection gives.
pub open spec fn is_view(
    view: Result<ToolViewModel, ViewError>,
    sorted: Seq<ModelToolDefinitionView>,
    selected: Result<Seq<Seq<char>>, ViewError>,
    limits: ToolViewLimits,
) -> bool {
    match selected {
        Err(e) => view == Err::<ToolViewModel, ViewError>(e),
        Ok(names) => match selection_fault(sorted, names, limits) {
            Some(fault) => view == Err::<ToolViewModel, ViewError>(fault),
            None => view == Ok::<ToolViewModel, ViewError>(
                ToolViewModel {
                    algorithm_version: 1,
                    tools: visible(sorted, names),
                    excluded: hidden(sorted, names),
                },
            ),
        },
    }
}

pub open spec fn view_of(result: Result<ToolView, ViewError>) -> Result<ToolViewModel, ViewError> {
    match result {
        Ok(view) => Ok(view@),
        Err(e) => Err(e),
    }
}

pub open spec fn names_view(result: Result<Vec<String>, ViewError>) -> Result<Seq<Seq<char>>, ViewError> {
    match result {
        Ok(names) => Ok(names.deep_view()),
        Err(e) => Err(e),
    }
}

proof fn insert_into_multiset(tools: Seq<ModelToolDefinitionView>, i: int, tool: ModelToolDefinitionView)
    requires
        0 <= i <= tools.len(),
    ensures
        tools.insert(i, tool).to_multiset() == tools.to_multiset().insert(tool),
{
    vstd::seq_lib::to_multiset_insert(tools, i, tool);
}

/// The catalog in the order of names, if it can be viewed at all. `bytes` is its
/// serialized size.
pub fn sort_catalog(authorized: &Vec<ModelToolDefinition>, bytes: usize, limits: ToolViewLimits) -> (result: Result<
    Vec<ModelToolDefinition>,
    ViewError,
>)
    ensures
        match result {
            Ok(sorted) => catalog_fault(authorized.deep_view(), bytes, limits) is None
                && is_sorting(sorted.deep_view(), authorized.deep_view()),
            Err(e) => catalog_fault(authorized.deep_view(), bytes, limits) == Some(e),
        },
{
    if limits.max_catalog == 0 || limits.max_visible == 0 || limits.max_input_bytes == 0 {
        return Err(ViewError::Invalid);
    }
    if authorized.len() > limits.max_catalog {
        return Err(ViewError::Limit);
    }
    if bytes > limits.max_input_bytes {
        return Err(ViewError::Limit);
    }
    let ghost views = authorized.deep_view();
    if authorized.len() > 0 {
        let mut messages = Vec::new();
        let hello = ModelMessage::User { content: String::new() };
        messages.push(hello);
        let request = GenerationRequest {
            messages,
            constraint: GenerationConstraint::NativeTools {
                tools: authorized.duplicate(),
                choice: ToolChoice::Auto,
            },
        };
        proof {
            assert(request@.messages =~= seq![hello@]);
            reveal_with_fuel(messages_fault, 3);
            assert(messages_fault(request@.messages, 0, Seq::empty()) is None);
        }
        if request.validate_shape().is_err() {
            return Err(ViewError::Invalid);
        }
    }
    assert(!tools_clash(views));
    let mut sorted: Vec<ModelToolDefinition> = Vec::new();
    let mut n: usize = 0;
    assert(sorted.deep_view() =~= Seq::empty());
    assert(views.take(0) =~= Seq::empty());
    while n < authorized.len()
        invariant
            n <= authorized@.len(),
            views == authorized.deep_view(),
            !tools_clash(views),
            catalog_fault(views, bytes, limits) is None,
            sorted@.len() == n,
            is_sorted(sorted.deep_view()),
            sorted.deep_view().to_multiset() == views.take(n as int).to_multiset(),
        decreases authorized@.len() - n,
    {
        let tool = authorized[n].duplicate();
        assert(views[n as int] == authorized@[n as int]@);
        let ghost before = sorted.deep_view();
        let mut i: usize = 0;
        while i < sorted.len() && comes_before(sorted[i].name.as_str(), tool.name.as_str())
            invariant
                i <= sorted@.len(),
                before == sorted.deep_view(),
                forall|k: int| 0 <= k < i ==> text_before((#[trigger] before[k]).name, tool@.name),
            decreases sorted@.len() - i,
        {
            assert(before[i as int] == sorted@[i as int]@);
            i = i + 1;
        }
        assert(i < sorted@.len() ==> before[i as int] == sorted@[i as int]@);
        let ghost held = sorted@;
        sorted.insert(i, tool);
        proof {
            let after = sorted.deep_view();
            assert(after =~= before.insert(i as int, tool@)) by {
                assert forall|k: int| 0 <= k < after.len() implies after[k] == before.insert(
                    i as int,
                    tool@,
                )[k] by {
                    if k < i {
                        assert(sorted@[k] == held[k]);
                    } else if k > i {
                        assert(sorted@[k] == held[k - 1]);
                    }
                }
            }
            insert_into_multiset(before, i as int, tool@);
            assert(views.take(n + 1) =~= views.take(n as int).push(tool@));
            vstd::seq_lib::to_multiset_build(views.take(n as int), tool@);
            if i < before.len() {
                names_differ(views, n as int, before, i as int);
                texts_are_ordered(before[i as int].name, tool@.name);
            }
            assert forall|a: int, b: int| 0 <= a < b < after.len() implies text_before(
                (#[trigger] after[a]).name,
                (#[trigger] after[b]).name,
            ) by {
                if b < i {
                    assert(after[a] == before[a] && after[b] == before[b]);
                } else if b == i {
                    assert(after[a] == before[a]);
                } else {
                    assert(after[b] == before[b - 1]);
                    if a < i {
                        assert(after[a] == before[a]);
                    } else if a == i {
                        if b - 1 > i {
                            text_before_is_transitive(
                                tool@.name,
                                before[i as int].name,
                                before[b - 1].name,
                            );
                        }
                    } else {
                        assert(after[a] == before[a - 1]);
                    }
                }
            }
        }
        n = n + 1;
    }
    assert(views.take(views.len() as int) =~= views);
    Ok(sorted)
}

/// A tool that is already in place has another name than the next one.
proof fn names_differ(
    tools: Seq<ModelToolDefinitionView>,
    n: int,
    placed: Seq<ModelToolDefinitionView>,
    i: int,
)
    requires
        0 <= n < tools.len(),
        !tools_clash(tools),
        placed.to_multiset() == tools.take(n).to_multiset(),
        0 <= i < placed.len(),
    ensures
        placed[i].name != tools[n].name,
{
    vstd::seq_lib::to_multiset_contains(placed, placed[i]);
    vstd::seq_lib::to_multiset_contains(tools.take(n), placed[i]);
    assert(placed.contains(placed[i]));
    assert(tools.take(n).contains(placed[i]));
    let k = tools.take(n).index_of(placed[i]);
    assert(tools[k] == placed[i]);
}

fn has_repeats(names: &Vec<String>) -> (answer: bool)
    ensures
        answer == !names.deep_view().no_duplicates(),
{
    let ghost views = names.deep_view();
    let mut i: usize = 0;
    while i < names.len()
        invariant
            i <= names@.len(),
            views == names.deep_view(),
            forall|a: int, b: int| 0 <= a < b < i ==> views[a] != views[b],
        decreases names@.len() - i,
    {
        let mut j: usize = 0;
        while j < i
            invariant
                j <= i < names@.len(),
                views == names.deep_view(),
                forall|k: int| 0 <= k < j ==> (#[trigger] views[k]) != views[i as int],
            decreases i - j,
        {
            assert(views[i as int] == names@[i as int]@);
            assert(views[j as int] == names@[j as int]@);
            if names[j].is_same(&names[i]) {
                return true;
            }
            j = j + 1;
        }
        i = i + 1;
    }
    false
}

fn has_unknown(tools: &Vec<ModelToolDefinition>, names: &Vec<String>) -> (answer: bool)
    ensures
        answer == exists|i: int|
            0 <= i < names.deep_view().len() && !has_tool(
                tools.deep_view(),
                #[trigger] names.deep_view()[i],
            ),
{
    let ghost views = names.deep_view();
    let mut i: usize = 0;
    while i < names.len()
        invariant
            i <= names@.len(),
            views == names.deep_view(),
            forall|k: int| 0 <= k < i ==> has_tool(tools.deep_view(), #[trigger] views[k]),
        decreases names@.len() - i,
    {
        assert(views[i as int] == names@[i as int]@);
        if !names_tool(tools, &names[i]) {
            return true;
        }
        i = i + 1;
    }
    false
}

/// The view that a selection gives of a sorted catalog.
pub fn view_selection(
    sorted: &Vec<ModelToolDefinition>,
    selected: &Result<Vec<String>, ViewError>,
    limits: ToolViewLimits,
) -> (result: Result<ToolView, ViewError>)
    ensures
        is_view(view_of(result), sorted.deep_view(), names_view(*selected), limits),
{
    let names = match selected {
        Ok(names) => names,
        Err(e) => {
            return Err(*e);
        },
    };
    if names.len() > limits.max_visible {
        return Err(ViewError::Limit);
    }
    if has_repeats(names) || has_unknown(sorted, names) {
        return Err(ViewError::Unauthorized);
    }
    let ghost views = sorted.deep_view();
    let ghost chosen = names.deep_view();
    let mut tools: Vec<ModelToolDefinition> = Vec::new();
    let mut excluded: Vec<String> = Vec::new();
    let mut i: usize = 0;
    proof {
        assert(views.take(0) =~= Seq::empty());
        assert(tools.deep_view() =~= Seq::empty());
        assert(excluded.deep_view() =~= Seq::empty());
    }
    while i < sorted.len()
        invariant
            i <= sorted@.len(),
            views == sorted.deep_view(),
            chosen == names.deep_view(),
            tools.deep_view() == visible(views.take(i as int), chosen),
            excluded.deep_view() == hidden(views.take(i as int), chosen),
        decreases sorted@.len() - i,
    {
        proof {
            assert(views[i as int] == sorted@[i as int]@);
            assert(views.take(i + 1).drop_last() =~= views.take(i as int));
            assert(views.take(i + 1).last() == views[i as int]);
        }
        if holds(names, &sorted[i].name) {
            let tool = sorted[i].duplicate();
            let ghost before = tools.deep_view();
            tools.push(tool);
            assert(tools.deep_view() =~= before.push(tool@));
        } else {
            let name = sorted[i].name.clone();
            let ghost before = excluded.deep_view();
            excluded.push(name);
            assert(excluded.deep_view() =~= before.push(name@));
        }
        i = i + 1;
    }
    assert(views.take(views.len() as int) =~= views);
    Ok(ToolView { algorithm_version: 1, tools, excluded })
}

/// The tools that a model sees, as the selector chooses from the sorted catalog. The
/// granted catalog is the authority: every definition stays as it is.
pub fn select_tool_view<S: ToolSelector>(
    authorized: &Vec<ModelToolDefinition>,
    bytes: usize,
    selector: &S,
    limits: ToolViewLimits,
) -> (result: Result<ToolView, ViewError>)
    ensures
        match catalog_fault(authorized.deep_view(), bytes, limits) {
            Some(fault) => result == Err::<ToolView, ViewError>(fault),
            None => exists|
                sorted: Seq<ModelToolDefinitionView>,
                selected: Result<Seq<Seq<char>>, ViewError>,
            |
                is_sorting(sorted, authorized.deep_view()) && selector.selects(sorted, selected)
                    && #[trigger] is_view(view_of(result), sorted, selected, limits),
        },
{
    let sorted = match sort_catalog(authorized, bytes, limits) {
        Ok(sorted) => sorted,
        Err(e) => {
            return Err(e);
        },
    };
    let selected = selector.select(&sorted);
    let result = view_selection(&sorted, &selected, limits);
    assert(is_view(view_of(result), sorted.deep_view(), names_view(selected), limits));
    result
}

/// A view shows only tools of the catalog, each exactly as it was granted, and only
/// tools that the selection names; every other tool is listed by name.
pub proof fn views_never_widen(sorted: Seq<ModelToolDefinitionView>, selected: Seq<Seq<char>>)
    ensures
        forall|i: int|
            0 <= i < visible(sorted, selected).len() ==> sorted.contains(
                #[trigger] visible(sorted, selected)[i],
            ) && selected.contains(visible(sorted, selected)[i].name),
        visible(sorted, selected).len() + hidden(sorted, selected).len() == sorted.len(),
        forall|i: int|
            0 <= i < hidden(sorted, selected).len() ==> !selected.contains(
                #[trigger] hidden(sorted, selected)[i],
            ) && has_tool(sorted, hidden(sorted, selected)[i]),
    decreases sorted.len(),
{
    if sorted.len() > 0 {
        let rest = sorted.drop_last();
        views_never_widen(rest, selected);
        assert(sorted.contains(sorted.last()));
        assert forall|t: ModelToolDefinitionView| rest.contains(t) implies sorted.contains(t) by {
            let k = rest.index_of(t);
            assert(sorted[k] == t);
        }
        assert forall|name: Seq<char>| #[trigger] has_tool(rest, name) implies has_tool(sorted, name) by {
            let k = choose|k: int| 0 <= k < rest.len() && (#[trigger] rest[k]).name == name;
            assert(sorted[k].name == name);
        }
        assert(sorted[sorted.len() - 1].name == sorted.last().name);
    }
}

/// With groups, a granted tool is shown exactly where nothing narrows the choice, or
/// where it is named or a member of an active group.
pub proof fn chosen_tools_are_shown(
    selector: GroupedToolSelector,
    sorted: Seq<ModelToolDefinitionView>,
    names: Seq<Seq<char>>,
    tool: ModelToolDefinitionView,
)
    requires
        selector.selects(sorted, Ok(names)),
        sorted.contains(tool),
    ensures
        visible(sorted, names).contains(tool) <==> {
            ||| selector.names is None && selector.active_groups@.len() == 0
            ||| selector.named(tool.name)
            ||| selector.grouped(selector.active_groups@.len() as int, tool.name)
        },
{
    visible_tools_are_named(sorted, names, tool);
    if selector.names is None && selector.active_groups@.len() == 0 {
        let k = sorted.index_of(tool);
        assert(names[k] == tool.name);
    } else {
        assert(names.contains(tool.name) <==> selector.named(tool.name) || selector.grouped(
            selector.active_groups@.len() as int,
            tool.name,
        ));
    }
}

proof fn visible_tools_are_named(
    tools: Seq<ModelToolDefinitionView>,
    names: Seq<Seq<char>>,
    tool: ModelToolDefinitionView,
)
    ensures
        visible(tools, names).contains(tool) <==> tools.contains(tool) && names.contains(tool.name),
    decreases tools.len(),
{
    if tools.len() > 0 {
        let rest = tools.drop_last();
        let before = visible(rest, names);
        let shown = visible(tools, names);
        visible_tools_are_named(rest, names, tool);
        assert(tools =~= rest.push(tools.last()));
        if tools.contains(tool) {
            let k = tools.index_of(tool);
            if k < rest.len() {
                assert(rest[k] == tool);
            }
        }
        if rest.contains(tool) {
            let k = rest.index_of(tool);
            assert(tools[k] == tool);
        }
        if before.contains(tool) {
            let k = before.index_of(tool);
            assert(shown[k] == tool);
        }
        if names.contains(tools.last().name) {
            assert(shown[before.len() as int] == tools.last());
            assert(tools[tools.len() - 1] == tools.last());
            if shown.contains(tool) {
                let k = shown.index_of(tool);
                if k < before.len() {
                    assert(before[k] == tool);
                }
            }
        }
    }
}

} // verus!
