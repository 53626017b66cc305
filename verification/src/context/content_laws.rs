//! What a content store keeps, and to whom it gives it back.

use crate::context::content::{boundaries_are_boundaries, bytes_kept, entry_at, least, EntryView, StoreView};
use crate::context::viewing::{ContentReferenceView, ContentScopeView};
use crate::text::byte_len;
use vstd::prelude::*;
use vstd::utf8::*;

verus! {

/// The store keeps no more than it may: in number, in all and in each text.
pub open spec fn is_within_limits(store: StoreView) -> bool {
    &&& store.entries.len() <= store.config.max_entries
    &&& bytes_kept(store.entries) <= store.config.max_bytes
    &&& forall|i: int|
        0 <= i < store.entries.len() ==> byte_len((#[trigger] store.entries[i]).text)
            <= store.config.max_content_bytes
}

proof fn fewer_take_less(entries: Seq<EntryView>, keeps: spec_fn(EntryView) -> bool)
    ensures
        entries.filter(keeps).len() <= entries.len(),
        bytes_kept(entries.filter(keeps)) <= bytes_kept(entries),
        forall|i: int|
            0 <= i < entries.filter(keeps).len() ==> entries.contains(#[trigger] entries.filter(keeps)[i])
                && keeps(entries.filter(keeps)[i]),
    decreases entries.len(),
{
    reveal(Seq::filter);
    if entries.len() > 0 {
        let front = entries.drop_last();
        let kept = front.filter(keeps);
        let all = entries.filter(keeps);
        fewer_take_less(front, keeps);
        if keeps(entries.last()) {
            assert(all.drop_last() =~= kept);
            assert(all.last() == entries.last());
        }
        assert forall|i: int| 0 <= i < all.len() implies entries.contains(#[trigger] all[i]) && keeps(all[i]) by {
            if i < kept.len() {
                assert(all[i] == kept[i]);
                let j = front.index_of(kept[i]);
                assert(entries[j] == all[i]);
            } else {
                assert(entries[entries.len() - 1] == all[i]);
            }
        }
    }
}

/// Whatever is put or purged, a store stays within its limits; nothing that has expired
/// outlives a put, and what was put does not live longer than the store allows.
pub proof fn stores_stay_within_limits(
    store: StoreView,
    scope: ContentScopeView,
    source: Seq<char>,
    text: Seq<char>,
    now: u64,
)
    requires
        is_within_limits(store),
    ensures
        is_within_limits(store.purged(now)),
        is_within_limits(store.put(scope, source, text, now).1),
        store.put(scope, source, text, now).0 is Ok ==> {
            let after = store.put(scope, source, text, now).1;
            &&& scope.expires_at_ms > now
            &&& scope.expires_at_ms - now <= store.config.max_ttl_ms
            &&& byte_len(text) <= store.config.max_content_bytes
            &&& forall|i: int|
                0 <= i < after.entries.len() ==> (#[trigger] after.entries[i]).reference.scope.expires_at_ms > now
        },
{
    let keeps = |e: EntryView| e.reference.scope.expires_at_ms > now;
    fewer_take_less(store.entries, keeps);
    let rest = store.purged(now);
    assert(rest.entries == store.entries.filter(keeps));
    assert forall|i: int| 0 <= i < rest.entries.len() implies byte_len((#[trigger] rest.entries[i]).text)
        <= rest.config.max_content_bytes by {
        let j = store.entries.index_of(rest.entries[i]);
        assert(store.entries[j] == rest.entries[i]);
    }
    let entry = EntryView { reference: store.reference(scope, source, text), text };
    let more = rest.entries.push(entry);
    assert(more.drop_last() =~= rest.entries);
    assert(bytes_kept(more) == bytes_kept(rest.entries) + byte_len(text));
    let after = store.put(scope, source, text, now).1;
    if store.put(scope, source, text, now).0 is Ok {
        assert forall|i: int| 0 <= i < after.entries.len() implies (
        #[trigger] after.entries[i]).reference.scope.expires_at_ms > now by {
            if i < rest.entries.len() {
                assert(after.entries[i] == rest.entries[i]);
                assert(keeps(rest.entries[i]));
            } else {
                assert(after.entries[i] == entry);
            }
        }
    }
}

proof fn entry_is_there(entries: Seq<EntryView>, source: Seq<char>, k: int)
    requires
        0 <= k,
    ensures
        entry_at(entries, source, k) matches Some(i) ==> k <= i < entries.len()
            && entries[i].reference.source_event == source,
    decreases entries.len() - k,
{
    if k < entries.len() {
        entry_is_there(entries, source, k + 1);
    }
}

/// Content is given back only to the session and task that it was kept for, only until it
/// expires, only under the reference that was handed out for it, and never more of it at
/// once than was asked for or than the store allows.
pub proof fn content_stays_in_its_scope(
    store: StoreView,
    reference: ContentReferenceView,
    scope: ContentScopeView,
    now: u64,
    offset: usize,
    max_bytes: usize,
)
    ensures
        store.read(reference, scope, now, offset, max_bytes) matches Ok((text, end)) ==> {
            &&& scope.expires_at_ms > now
            &&& reference.scope == scope
            &&& reference.store_id == store.config.store_id
            &&& exists|k: int|
                0 <= k < store.entries.len() && (#[trigger] store.entries[k]).reference == reference
                    && store.entries[k].text == text
            &&& 0 < max_bytes <= store.config.max_page_bytes
            &&& offset <= byte_len(text)
            &&& end <= offset + max_bytes
            &&& end <= byte_len(text)
        },
{
    entry_is_there(store.entries, reference.source_event, 0);
    if let Ok((text, end)) = store.read(reference, scope, now, offset, max_bytes) {
        let k = entry_at(store.entries, reference.source_event, 0)->0;
        assert(store.entries[k].reference == reference);
        let bytes = encode_utf8(text);
        encode_utf8_valid_utf8(text);
        boundaries_are_boundaries(bytes, least(offset + max_bytes, bytes.len() as int));
    }
}

} // verus!
