//! Who may use which tool, and which tool a name stands for.

use crate::tool::registry::{
    granted_to, registered, schemas_of, tool_at, with_tool, ExpandedGrant, ToolEntry, ToolRegistration,
};
use vstd::prelude::*;

verus! {

proof fn grant_is_first(grants: Seq<ExpandedGrant>, caller: Seq<char>, k: int, i: int)
    requires
        0 <= k <= i <= grants.len(),
        forall|j: int| 0 <= j < i ==> (#[trigger] grants[j]).owner@ != caller,
        i < grants.len() ==> grants[i].owner@ == caller,
    ensures
        granted_to(grants, caller, k) == if i < grants.len() {
            grants[i].tools.deep_view()
        } else {
            Seq::empty()
        },
    decreases i - k,
{
    if k < i {
        assert(grants[k].owner@ != caller);
        grant_is_first(grants, caller, k + 1, i);
    }
}

/// A caller may use what was granted to it, and nothing where nothing was; what others
/// were granted is of no use to it.
pub proof fn grants_are_the_callers_own(grants: Seq<ExpandedGrant>, caller: Seq<char>, i: int)
    requires
        0 <= i <= grants.len(),
        forall|j: int| 0 <= j < i ==> (#[trigger] grants[j]).owner@ != caller,
        i < grants.len() ==> grants[i].owner@ == caller,
    ensures
        granted_to(grants, caller, 0) == if i < grants.len() {
            grants[i].tools.deep_view()
        } else {
            Seq::empty()
        },
{
    grant_is_first(grants, caller, 0, i);
}

proof fn tool_is_found(tools: Seq<ToolEntry>, key: Seq<char>, k: int)
    requires
        0 <= k,
    ensures
        match tool_at(tools, key, k) {
            Some(i) => k <= i < tools.len() && tools[i].key@ == key && forall|j: int|
                k <= j < i ==> (#[trigger] tools[j]).key@ != key,
            None => forall|j: int| k <= j < tools.len() ==> (#[trigger] tools[j]).key@ != key,
        },
    decreases tools.len() - k,
{
    if k < tools.len() {
        tool_is_found(tools, key, k + 1);
    }
}

/// What is shown of the tools that a caller was granted: each is there under its own name,
/// with its own description and schema, and nothing is shown that was not granted.
pub proof fn shown_tools_are_granted(granted: Seq<Seq<char>>, tools: Seq<ToolEntry>)
    ensures
        forall|n: int|
            0 <= n < schemas_of(granted, tools).len() ==> granted.contains(
                (#[trigger] schemas_of(granted, tools)[n]).name,
            ) && exists|i: int|
                0 <= i < tools.len() && (#[trigger] tools[i]).key@ == schemas_of(granted, tools)[n].name
                    && tools[i].metadata.description@ == schemas_of(granted, tools)[n].description
                    && tools[i].metadata.input_schema@ == schemas_of(granted, tools)[n].parameters,
        forall|g: int, i: int|
            0 <= g < granted.len() && 0 <= i < tools.len() && #[trigger] granted[g] == (
            #[trigger] tools[i]).key@ ==> exists|n: int|
                0 <= n < schemas_of(granted, tools).len() && (#[trigger] schemas_of(granted, tools)[n]).name
                    == granted[g],
    decreases granted.len(),
{
    if granted.len() > 0 {
        let rest = granted.drop_last();
        let last = granted.last();
        let before = schemas_of(rest, tools);
        let all = schemas_of(granted, tools);
        shown_tools_are_granted(rest, tools);
        tool_is_found(tools, last, 0);
        assert forall|n: int| 0 <= n < all.len() implies granted.contains((#[trigger] all[n]).name)
            && exists|i: int|
            0 <= i < tools.len() && (#[trigger] tools[i]).key@ == all[n].name
                && tools[i].metadata.description@ == all[n].description
                && tools[i].metadata.input_schema@ == all[n].parameters by {
            if n < before.len() {
                assert(all[n] == before[n]);
                let g = rest.index_of(before[n].name);
                assert(granted[g] == all[n].name);
            } else {
                assert(granted[granted.len() - 1] == last);
                let i = tool_at(tools, last, 0)->0;
                assert(tools[i].key@ == all[n].name);
            }
        }
        assert forall|g: int, i: int|
            0 <= g < granted.len() && 0 <= i < tools.len() && #[trigger] granted[g] == (
            #[trigger] tools[i]).key@ implies exists|n: int|
            0 <= n < all.len() && (#[trigger] all[n]).name == granted[g] by {
            if g < rest.len() {
                assert(rest[g] == granted[g]);
                let n = choose|n: int| 0 <= n < before.len() && (#[trigger] before[n]).name == rest[g];
                assert(all[n] == before[n]);
            } else {
                assert(tool_at(tools, last, 0) is Some);
                assert(all[all.len() - 1].name == last);
            }
        }
    }
}

/// A name stands for the tool that was registered under it last, and for none where none
/// was registered under it.
pub proof fn the_last_registration_holds(registrations: Seq<ToolRegistration>, n: int, key: Seq<char>)
    requires
        0 <= n <= registrations.len(),
    ensures
        match tool_at(registered(registrations, n), key, 0) {
            Some(i) => exists|r: int|
                0 <= r < n && (#[trigger] registrations[r]).key@ == key && registered(
                    registrations,
                    n,
                )[i].metadata == registrations[r].metadata->0 && forall|later: int|
                    r < later < n ==> (#[trigger] registrations[later]).key@ != key,
            None => forall|r: int| 0 <= r < n ==> (#[trigger] registrations[r]).key@ != key,
        },
    decreases n,
{
    if n > 0 {
        the_last_registration_holds(registrations, n - 1, key);
        let before = registered(registrations, n - 1);
        let own = registrations[n - 1];
        let entry = ToolEntry { key: own.key, metadata: own.metadata->0 };
        let all = registered(registrations, n);
        assert(all == with_tool(before, entry));
        tool_is_found(before, key, 0);
        tool_is_found(before, own.key@, 0);
        tool_is_found(all, key, 0);
        match tool_at(before, own.key@, 0) {
            Some(p) => {
                assert(all == before.update(p, entry));
                if own.key@ == key {
                    assert(all[p].key@ == key);
                    assert forall|j: int| 0 <= j < p implies (#[trigger] all[j]).key@ != key by {
                        assert(all[j] == before[j]);
                    }
                    assert(tool_at(all, key, 0) == Some(p));
                    assert(registrations[n - 1].key@ == key);
                } else {
                    match tool_at(before, key, 0) {
                        Some(i) => {
                            assert(all[i] == before[i]);
                            assert forall|j: int| 0 <= j < i implies (#[trigger] all[j]).key@ != key by {
                                if j != p {
                                    assert(all[j] == before[j]);
                                }
                            }
                            assert(tool_at(all, key, 0) == Some(i));
                            let r = choose|r: int|
                                0 <= r < n - 1 && (#[trigger] registrations[r]).key@ == key
                                    && before[i].metadata == registrations[r].metadata->0 && forall|later: int|
                                    r < later < n - 1 ==> (#[trigger] registrations[later]).key@ != key;
                            assert(registrations[r].key@ == key);
                        },
                        None => {
                            assert forall|j: int| 0 <= j < all.len() implies (#[trigger] all[j]).key@ != key by {
                                if j != p {
                                    assert(all[j] == before[j]);
                                }
                            }
                        },
                    }
                }
            },
            None => {
                assert(all == before.push(entry));
                if own.key@ == key {
                    assert forall|j: int| 0 <= j < before.len() implies (#[trigger] all[j]).key@ != key by {
                        assert(all[j] == before[j]);
                    }
                    assert(all[before.len() as int].key@ == key);
                    assert(tool_at(all, key, 0) == Some(before.len() as int));
                    assert(registrations[n - 1].key@ == key);
                } else {
                    match tool_at(before, key, 0) {
                        Some(i) => {
                            assert(all[i] == before[i]);
                            assert forall|j: int| 0 <= j < i implies (#[trigger] all[j]).key@ != key by {
                                assert(all[j] == before[j]);
                            }
                            assert(tool_at(all, key, 0) == Some(i));
                            let r = choose|r: int|
                                0 <= r < n - 1 && (#[trigger] registrations[r]).key@ == key
                                    && before[i].metadata == registrations[r].metadata->0 && forall|later: int|
                                    r < later < n - 1 ==> (#[trigger] registrations[later]).key@ != key;
                            assert(registrations[r].key@ == key);
                        },
                        None => {
                            assert forall|j: int| 0 <= j < all.len() implies (#[trigger] all[j]).key@ != key by {
                                if j < before.len() {
                                    assert(all[j] == before[j]);
                                }
                            }
                        },
                    }
                }
            },
        }
    }
}

} // verus!
