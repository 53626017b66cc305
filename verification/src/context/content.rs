//! Content kept for a task and handed out page by page, and what is shown of a result.

use crate::context::viewing::{
    ContentPage, ContentPageView, ContentReference, ContentReferenceView, ContentScope, ContentScopeView,
    ContentStoreConfig, ContentStoreConfigView, ResultSelection, ToolContentModel, ToolContentView, ToolOutcomeModel,
    ToolOutcomeView, ToolResultModel, ToolResultView, ViewError,
};
use crate::id::EventId;
use crate::record::Record;
use crate::session::tool_record::{ToolRecordedOutcome, ToolRecordedOutcomeView};
use crate::text::{blank, byte_len, is_blank, same_text, size};
use vstd::prelude::*;
use vstd::utf8::*;

verus! {

/// The largest place up to `n` where a character starts or the text ends.
pub open spec fn boundary_of(bytes: Seq<u8>, n: int) -> int
    decreases n,
{
    if n <= 0 {
        0
    } else if is_char_boundary(bytes, n) {
        n
    } else {
        boundary_of(bytes, n - 1)
    }
}

pub open spec fn least(a: int, b: int) -> int {
    if a <= b {
        a
    } else {
        b
    }
}

pub proof fn boundaries_are_boundaries(bytes: Seq<u8>, n: int)
    requires
        valid_utf8(bytes),
        0 <= n <= bytes.len(),
    ensures
        0 <= boundary_of(bytes, n) <= n,
        is_char_boundary(bytes, boundary_of(bytes, n)),
        forall|k: int| boundary_of(bytes, n) < k <= n ==> !is_char_boundary(bytes, k),
    decreases n,
{
    is_char_boundary_start_end_of_seq(bytes);
    if n > 0 && !is_char_boundary(bytes, n) {
        boundaries_are_boundaries(bytes, n - 1);
    }
}

/// The largest place up to `bytes` where `text` can be cut.
pub fn boundary(text: &str, bytes: usize) -> (end: usize)
    ensures
        end == boundary_of(encode_utf8(text@), least(bytes as int, byte_len(text@) as int)),
        end <= byte_len(text@),
        is_char_boundary(encode_utf8(text@), end as int),
{
    let n: usize = size(text);
    let first: usize = if bytes <= n {
        bytes
    } else {
        n
    };
    proof {
        encode_utf8_valid_utf8(text@);
        is_char_boundary_start_end_of_seq(encode_utf8(text@));
    }
    let mut end: usize = first;
    while !text.is_char_boundary(end)
        invariant
            end <= first <= byte_len(text@),
            valid_utf8(encode_utf8(text@)),
            is_char_boundary(encode_utf8(text@), 0),
            boundary_of(encode_utf8(text@), first as int) == boundary_of(
                encode_utf8(text@),
                end as int,
            ),
        decreases end,
    {
        assert(end > 0);
        end = end - 1;
    }
    end
}

/// The text of the bytes from `a` up to `b`.
pub open spec fn is_piece(piece: Seq<char>, text: Seq<char>, a: int, b: int) -> bool {
    encode_utf8(piece) == encode_utf8(text).subrange(a, b)
}

/// Cuts a piece out of a text.
pub(crate) fn cut(text: &str, a: usize, b: usize) -> (piece: String)
    requires
        a <= b <= byte_len(text@),
        is_char_boundary(encode_utf8(text@), a as int),
        is_char_boundary(encode_utf8(text@), b as int),
    ensures
        is_piece(piece@, text@, a as int, b as int),
{
    let ghost bytes = encode_utf8(text@);
    let (head, _tail) = text.split_at(b);
    proof {
        encode_utf8_valid_utf8(text@);
        encode_utf8_valid_utf8(head@);
        boundary_in_prefix(bytes, a as int, b as int);
        assert(encode_utf8(head@) == bytes.subrange(0, b as int));
    }
    let (_front, piece) = head.split_at(a);
    assert(encode_utf8(piece@) =~= bytes.subrange(a as int, b as int));
    piece.to_owned()
}

proof fn boundary_in_prefix(bytes: Seq<u8>, a: int, b: int)
    requires
        valid_utf8(bytes),
        0 <= a <= b <= bytes.len(),
        is_char_boundary(bytes, a),
        is_char_boundary(bytes, b),
    ensures
        valid_utf8(bytes.subrange(0, b)),
        is_char_boundary(bytes.subrange(0, b), a),
{
    let head = bytes.subrange(0, b);
    valid_utf8_split(bytes, b);
    is_char_boundary_start_end_of_seq(head);
    if a < b {
        is_char_boundary_iff_not_is_continuation_byte(bytes, a);
        is_char_boundary_iff_not_is_continuation_byte(head, a);
        assert(head[a] == bytes[a]);
    }
}

/// A scope with identities of reasonable size that has not expired.
pub open spec fn is_valid_scope(scope: ContentScopeView, now: u64) -> bool {
    &&& !is_blank(scope.session_id)
    &&& !is_blank(scope.task_id)
    &&& byte_len(scope.session_id) <= 1024
    &&& byte_len(scope.task_id) <= 1024
    &&& scope.expires_at_ms > now
}

pub fn valid_scope(scope: &ContentScope, now: u64) -> (answer: bool)
    ensures
        answer == is_valid_scope(scope@, now),
{
    !blank(scope.session_id.as_str()) && !blank(scope.task_id.as_str()) && size(
        scope.session_id.as_str(),
    ) <= 1024 && size(scope.task_id.as_str()) <= 1024 && scope.expires_at_ms > now
}

/// Where a host keeps content. Scope and time come from the host, never from a model.
/// A store binds each source to one content, lets it expire and bounds what is read.
pub trait ContentStore: Sized {
    /// Putting this text into this store can give this answer and leave `after`. A store
    /// that says no more of itself may answer anything.
    open spec fn puts(
        &self,
        scope: ContentScopeView,
        source: Seq<char>,
        text: Seq<char>,
        now: u64,
        answer: Result<ContentReferenceView, ViewError>,
        after: &Self,
    ) -> bool {
        true
    }

    fn put(&mut self, scope: &ContentScope, source: &EventId, text: &String, now_ms: u64) -> (result: Result<
        ContentReference,
        ViewError,
    >)
        ensures
            old(self).puts(scope@, source@, text@, now_ms, stored_view(result), final(self)),
    ;

    fn read(
        &self,
        reference: &ContentReference,
        scope: &ContentScope,
        now_ms: u64,
        offset: usize,
        max_bytes: usize,
    ) -> (result: Result<ContentPage, ViewError>);
}

#[derive(Debug, PartialEq, Eq)]
struct Entry {
    reference: ContentReference,
    text: String,
}

pub struct EntryView {
    pub reference: ContentReferenceView,
    pub text: Seq<char>,
}

impl DeepView for Entry {
    type V = EntryView;

    closed spec fn deep_view(&self) -> EntryView {
        EntryView { reference: self.reference@, text: self.text@ }
    }
}

pub struct StoreView {
    pub config: ContentStoreConfigView,
    pub entries: Seq<EntryView>,
}

/// A letter, a digit, a hyphen or an underscore, each one byte.
pub open spec fn is_name_byte(b: u8) -> bool {
    (48 <= b <= 57) || (65 <= b <= 90) || (97 <= b <= 122) || b == 45 || b == 95
}

/// A store can be made with this configuration.
pub open spec fn is_valid_config(config: ContentStoreConfigView) -> bool {
    let id = encode_utf8(config.store_id);
    &&& 0 < id.len() <= 64
    &&& forall|i: int| 0 <= i < id.len() ==> is_name_byte(#[trigger] id[i])
    &&& config.max_entries > 0
    &&& config.max_bytes > 0
    &&& config.max_content_bytes > 0
    &&& config.max_page_bytes > 0
    &&& config.max_ttl_ms > 0
}

/// Where the entry of a source stands.
pub open spec fn entry_at(entries: Seq<EntryView>, source: Seq<char>, k: int) -> Option<int>
    decreases entries.len() - k,
{
    if k < 0 || k >= entries.len() {
        None
    } else if entries[k].reference.source_event == source {
        Some(k)
    } else {
        entry_at(entries, source, k + 1)
    }
}

/// Bytes that the entries take together.
pub open spec fn bytes_kept(entries: Seq<EntryView>) -> nat
    decreases entries.len(),
{
    if entries.len() == 0 {
        0
    } else {
        bytes_kept(entries.drop_last()) + byte_len(entries.last().text)
    }
}

impl StoreView {
    /// What has not expired.
    pub open spec fn purged(self, now: u64) -> StoreView {
        StoreView {
            entries: self.entries.filter(
                |e: EntryView| e.reference.scope.expires_at_ms > now,
            ),
            ..self
        }
    }

    pub open spec fn reference(self, scope: ContentScopeView, source: Seq<char>, text: Seq<char>) -> ContentReferenceView {
        ContentReferenceView {
            store_id: self.config.store_id,
            source_event: source,
            scope,
            total_bytes: byte_len(text) as usize,
        }
    }

    /// What putting a text gives, and the store after it.
    pub open spec fn put(self, scope: ContentScopeView, source: Seq<char>, text: Seq<char>, now: u64) -> (
        Result<ContentReferenceView, ViewError>,
        StoreView,
    ) {
        let reference = self.reference(scope, source, text);
        let rest = self.purged(now);
        if !is_valid_scope(scope, now) || scope.expires_at_ms - now > self.config.max_ttl_ms
            || is_blank(source) || byte_len(source) > 1024 {
            (Err(ViewError::Invalid), self)
        } else if byte_len(text) > self.config.max_content_bytes {
            (Err(ViewError::Limit), self)
        } else {
            match entry_at(rest.entries, source, 0) {
                Some(k) => if rest.entries[k] == (EntryView { reference, text }) {
                    (Ok(reference), rest)
                } else {
                    (Err(ViewError::Conflict), rest)
                },
                None => if rest.entries.len() >= self.config.max_entries || bytes_kept(rest.entries)
                    + byte_len(text) > self.config.max_bytes {
                    (Err(ViewError::Limit), rest)
                } else {
                    (
                        Ok(reference),
                        StoreView {
                            entries: rest.entries.push(EntryView { reference, text }),
                            ..rest
                        },
                    )
                },
            }
        }
    }

    /// What reading gives: a refusal, or the text and how far the page goes.
    pub open spec fn read(
        self,
        reference: ContentReferenceView,
        scope: ContentScopeView,
        now: u64,
        offset: usize,
        max_bytes: usize,
    ) -> Result<(Seq<char>, int), ViewError> {
        if !is_valid_scope(scope, now) || reference.scope != scope || reference.store_id
            != self.config.store_id {
            Err(ViewError::Unavailable)
        } else if max_bytes == 0 || max_bytes > self.config.max_page_bytes {
            Err(ViewError::Limit)
        } else {
            match entry_at(self.entries, reference.source_event, 0) {
                None => Err(ViewError::Unavailable),
                Some(k) => {
                    let text = self.entries[k].text;
                    let bytes = encode_utf8(text);
                    let end = boundary_of(bytes, least(offset + max_bytes, bytes.len() as int));
                    if self.entries[k].reference != reference {
                        Err(ViewError::Unavailable)
                    } else if offset > bytes.len() || !is_char_boundary(bytes, offset as int) || (
                    end == offset && offset < bytes.len()) {
                        Err(ViewError::Cursor)
                    } else {
                        Ok((text, end))
                    }
                },
            }
        }
    }
}

/// The page from `offset` up to `end`.
pub open spec fn is_page(page: ContentPageView, text: Seq<char>, offset: int, end: int) -> bool {
    &&& is_piece(page.text, text, offset, end)
    &&& page.total_bytes == byte_len(text)
    &&& page.next_offset == if end < byte_len(text) {
        Some(end as usize)
    } else {
        None
    }
}

/// A store in memory, made by the host. No store is global, and none grants a tool.
#[derive(Debug, PartialEq, Eq)]
pub struct MemoryContentStore {
    config: ContentStoreConfig,
    entries: Vec<Entry>,
}

proof fn bytes_kept_grow(entries: Seq<EntryView>, i: int)
    requires
        0 <= i <= entries.len(),
    ensures
        bytes_kept(entries.take(i)) <= bytes_kept(entries),
    decreases entries.len() - i,
{
    if i == entries.len() {
        assert(entries.take(i) =~= entries);
    } else {
        assert(entries.take(i + 1).drop_last() =~= entries.take(i));
        bytes_kept_grow(entries, i + 1);
    }
}

fn is_name(text: &str) -> (answer: bool)
    ensures
        answer == (forall|i: int|
            0 <= i < byte_len(text@) ==> is_name_byte(#[trigger] encode_utf8(text@)[i])),
{
    let bytes = text.as_bytes();
    let mut i: usize = 0;
    while i < bytes.len()
        invariant
            i <= bytes@.len(),
            bytes@ == encode_utf8(text@),
            forall|k: int| 0 <= k < i ==> is_name_byte(#[trigger] encode_utf8(text@)[k]),
        decreases bytes@.len() - i,
    {
        let b: u8 = bytes[i];
        if !((48 <= b && b <= 57) || (65 <= b && b <= 90) || (97 <= b && b <= 122) || b == 45 || b
            == 95) {
            assert(!is_name_byte(encode_utf8(text@)[i as int]));
            return false;
        }
        i = i + 1;
    }
    true
}

impl MemoryContentStore {
    pub closed spec fn view(&self) -> StoreView {
        StoreView { config: self.config@, entries: self.entries.deep_view() }
    }

    pub fn new(config: ContentStoreConfig) -> (result: Result<Self, ViewError>)
        ensures
            match result {
                Ok(store) => is_valid_config(config@) && store@ == (StoreView {
                    config: config@,
                    entries: Seq::empty(),
                }),
                Err(e) => !is_valid_config(config@) && e == ViewError::Invalid,
            },
    {
        let n: usize = size(config.store_id.as_str());
        if n == 0 || n > 64 || !is_name(config.store_id.as_str()) || config.max_entries == 0
            || config.max_bytes == 0 || config.max_content_bytes == 0 || config.max_page_bytes == 0
            || config.max_ttl_ms == 0 {
            return Err(ViewError::Invalid);
        }
        let store = MemoryContentStore { config, entries: Vec::new() };
        assert(store@.entries =~= Seq::empty());
        Ok(store)
    }

    /// Removes what has expired. Putting does so too.
    pub fn purge_expired(&mut self, now_ms: u64)
        ensures
            final(self)@ == old(self)@.purged(now_ms),
    {
        let ghost before = self@;
        let ghost keeps = |e: EntryView| e.reference.scope.expires_at_ms > now_ms;
        let mut rest: Vec<Entry> = Vec::new();
        let mut entries: Vec<Entry> = Vec::new();
        std::mem::swap(&mut entries, &mut self.entries);
        proof {
            assert(entries.deep_view() == before.entries);
            assert(before.entries.take(0) =~= Seq::empty());
            reveal(Seq::filter);
            assert(rest.deep_view() =~= Seq::empty());
            assert(before.entries.skip(0) =~= before.entries);
        }
        let ghost mut done: int = 0;
        while entries.len() > 0
            invariant
                0 <= done <= before.entries.len(),
                keeps == (|e: EntryView| e.reference.scope.expires_at_ms > now_ms),
                entries.deep_view() == before.entries.skip(done),
                rest.deep_view() == before.entries.take(done).filter(keeps),
            decreases entries@.len(),
        {
            let ghost left = entries.deep_view();
            let ghost held = entries@;
            assert(left.len() == entries@.len());
            let entry = entries.remove(0);
            proof {
                reveal(Seq::filter);
                assert(left[0] == entry.deep_view());
                assert(before.entries[done] == entry.deep_view());
                assert(before.entries.take(done + 1).drop_last() =~= before.entries.take(done));
                assert forall|i: int| 0 <= i < entries@.len() implies #[trigger] entries.deep_view()[i]
                    == left[i + 1] by {
                    assert(entries@[i] == held[i + 1]);
                    assert(left[i + 1] == held[i + 1].deep_view());
                }
                assert(entries.deep_view() =~= before.entries.skip(done + 1));
            }
            if entry.reference.scope.expires_at_ms > now_ms {
                let ghost prior = rest.deep_view();
                rest.push(entry);
                assert(rest.deep_view() =~= prior.push(entry.deep_view()));
            }
            proof {
                done = done + 1;
            }
        }
        assert(before.entries.take(done) =~= before.entries);
        self.entries = rest;
    }

    fn find(&self, source: &EventId) -> (index: Option<usize>)
        ensures
            match index {
                Some(k) => k < self.entries@.len() && entry_at(self@.entries, source@, 0) == Some(
                    k as int,
                ),
                None => entry_at(self@.entries, source@, 0) is None,
            },
    {
        let ghost views = self@.entries;
        let mut k: usize = 0;
        while k < self.entries.len()
            invariant
                k <= self.entries@.len(),
                views == self.entries.deep_view(),
                entry_at(views, source@, 0) == entry_at(views, source@, k as int),
            decreases self.entries@.len() - k,
        {
            assert(views[k as int] == self.entries@[k as int].deep_view());
            if self.entries[k].reference.source_event.is_same(source) {
                return Some(k);
            }
            k = k + 1;
        }
        None
    }

    /// Bytes taken with `more` added, if that is a number.
    fn total_with(&self, more: usize) -> (total: Option<usize>)
        ensures
            match total {
                Some(n) => n == bytes_kept(self@.entries) + more,
                None => bytes_kept(self@.entries) + more > usize::MAX,
            },
    {
        let ghost views = self@.entries;
        let mut total: usize = more;
        let mut i: usize = 0;
        assert(views.take(0) =~= Seq::empty());
        while i < self.entries.len()
            invariant
                i <= self.entries@.len(),
                views == self.entries.deep_view(),
                total == bytes_kept(views.take(i as int)) + more,
            decreases self.entries@.len() - i,
        {
            proof {
                assert(views[i as int] == self.entries@[i as int].deep_view());
                assert(views.take(i + 1).drop_last() =~= views.take(i as int));
                bytes_kept_grow(views, i + 1);
            }
            match total.checked_add(size(self.entries[i].text.as_str())) {
                Some(sum) => {
                    total = sum;
                },
                None => {
                    return None;
                },
            }
            i = i + 1;
        }
        assert(views.take(views.len() as int) =~= views);
        Some(total)
    }
}

impl ContentStore for MemoryContentStore {
    open spec fn puts(
        &self,
        scope: ContentScopeView,
        source: Seq<char>,
        text: Seq<char>,
        now: u64,
        answer: Result<ContentReferenceView, ViewError>,
        after: &Self,
    ) -> bool {
        self@.put(scope, source, text, now) == (answer, after@)
    }

    fn put(&mut self, scope: &ContentScope, source: &EventId, text: &String, now_ms: u64) -> (result: Result<
        ContentReference,
        ViewError,
    >) {
        if !valid_scope(scope, now_ms) || scope.expires_at_ms - now_ms > self.config.max_ttl_ms
            || blank(source.as_str()) || size(source.as_str()) > 1024 {
            return Err(ViewError::Invalid);
        }
        let n: usize = size(text.as_str());
        if n > self.config.max_content_bytes {
            return Err(ViewError::Limit);
        }
        let reference = ContentReference {
            store_id: self.config.store_id.clone(),
            source_event: source.duplicate(),
            scope: scope.duplicate(),
            total_bytes: n,
        };
        self.purge_expired(now_ms);
        let ghost rest = self@;
        match self.find(source) {
            Some(k) => {
                assert(rest.entries[k as int] == self.entries@[k as int].deep_view());
                let entry = &self.entries[k];
                if entry.reference.is_same(&reference) && entry.text.is_same(text) {
                    return Ok(reference);
                }
                return Err(ViewError::Conflict);
            },
            None => {},
        }
        match self.total_with(n) {
            None => {
                return Err(ViewError::Limit);
            },
            Some(total) => {
                if self.entries.len() >= self.config.max_entries || total > self.config.max_bytes {
                    return Err(ViewError::Limit);
                }
            },
        }
        let entry = Entry { reference: reference.duplicate(), text: text.clone() };
        self.entries.push(entry);
        assert(self@.entries =~= rest.entries.push(entry.deep_view()));
        Ok(reference)
    }

    fn read(
        &self,
        reference: &ContentReference,
        scope: &ContentScope,
        now_ms: u64,
        offset: usize,
        max_bytes: usize,
    ) -> (result: Result<ContentPage, ViewError>)
        ensures
            match self@.read(reference@, scope@, now_ms, offset, max_bytes) {
                Ok((text, end)) => result is Ok && is_page(
                    result->Ok_0@,
                    text,
                    offset as int,
                    end,
                ),
                Err(e) => result == Err::<ContentPage, ViewError>(e),
            },
    {
        if !valid_scope(scope, now_ms) || !reference.scope.is_same(scope)
            || !reference.store_id.is_same(&self.config.store_id) {
            return Err(ViewError::Unavailable);
        }
        if max_bytes == 0 || max_bytes > self.config.max_page_bytes {
            return Err(ViewError::Limit);
        }
        let k: usize = match self.find(&reference.source_event) {
            Some(k) => k,
            None => {
                return Err(ViewError::Unavailable);
            },
        };
        assert(self@.entries[k as int] == self.entries@[k as int].deep_view());
        let entry = &self.entries[k];
        if !entry.reference.is_same(reference) {
            return Err(ViewError::Unavailable);
        }
        let text = entry.text.as_str();
        let n: usize = size(text);
        if offset > n || !text.is_char_boundary(offset) {
            return Err(ViewError::Cursor);
        }
        let limit: usize = if max_bytes <= n - offset {
            offset + max_bytes
        } else {
            n
        };
        let end: usize = boundary(text, limit);
        proof {
            encode_utf8_valid_utf8(text@);
            boundaries_are_boundaries(encode_utf8(text@), limit as int);
        }
        if end == offset && offset < n {
            return Err(ViewError::Cursor);
        }
        assert(end >= offset);
        Ok(
            ContentPage {
                text: cut(text, offset, end),
                next_offset: if end < n {
                    Some(end)
                } else {
                    None
                },
                total_bytes: n,
            },
        )
    }
}

/// How a host chooses what is shown of a result: how much, never what it says.
pub trait ToolResultPolicy {
    /// Asked about this text, the policy can give this answer. A policy that says no more
    /// of itself may answer anything.
    open spec fn selects(&self, text: Seq<char>, answer: Result<ResultSelection, ViewError>) -> bool {
        true
    }

    fn select(&self, text: &String) -> (result: Result<ResultSelection, ViewError>)
        ensures
            self.selects(text@, result),
    ;
}

/// Short texts are shown whole, others by their beginning.
#[derive(Clone, Copy, Debug, PartialEq, Eq, Structural)]
pub struct BoundedResultPolicy {
    pub inline_bytes: usize,
    pub preview_bytes: usize,
}

impl Default for BoundedResultPolicy {
    fn default() -> (policy: Self)
        ensures
            policy == (BoundedResultPolicy { inline_bytes: 4096, preview_bytes: 512 }),
    {
        BoundedResultPolicy { inline_bytes: 4096, preview_bytes: 512 }
    }
}

impl ToolResultPolicy for BoundedResultPolicy {
    open spec fn selects(&self, text: Seq<char>, answer: Result<ResultSelection, ViewError>) -> bool {
        answer == if self.inline_bytes == 0 || self.preview_bytes > self.inline_bytes {
            Err::<ResultSelection, ViewError>(ViewError::Invalid)
        } else if byte_len(text) <= self.inline_bytes {
            Ok::<ResultSelection, ViewError>(ResultSelection::Inline)
        } else {
            Ok::<ResultSelection, ViewError>(ResultSelection::Prefix { bytes: self.preview_bytes })
        }
    }

    fn select(&self, text: &String) -> (result: Result<ResultSelection, ViewError>) {
        if self.inline_bytes == 0 || self.preview_bytes > self.inline_bytes {
            return Err(ViewError::Invalid);
        }
        Ok(
            if size(text.as_str()) <= self.inline_bytes {
                ResultSelection::Inline
            } else {
                ResultSelection::Prefix { bytes: self.preview_bytes }
            },
        )
    }
}

/// The text of an outcome.
pub open spec fn outcome_text(outcome: ToolRecordedOutcomeView) -> Seq<char> {
    match outcome {
        ToolRecordedOutcomeView::Succeeded { output } => output,
        ToolRecordedOutcomeView::Failed { message, .. } => message,
    }
}

/// Where the shown beginning ends, or why nothing is shown.
pub open spec fn preview_end(text: Seq<char>, chosen: Result<ResultSelection, ViewError>, max: usize) -> Result<
    int,
    ViewError,
> {
    match chosen {
        Err(e) => Err(e),
        Ok(selection) => {
            let n = byte_len(text) as int;
            let bytes = match selection {
                ResultSelection::Inline => n,
                ResultSelection::Prefix { bytes } => least(bytes as int, n),
            };
            if bytes > max {
                Err(ViewError::Limit)
            } else {
                Ok(boundary_of(encode_utf8(text), bytes))
            }
        },
    }
}

/// The store answered with a reference to exactly this content.
pub open spec fn is_faithful(
    reference: ContentReferenceView,
    scope: ContentScopeView,
    source: Seq<char>,
    text: Seq<char>,
) -> bool {
    &&& reference.scope == scope
    &&& reference.source_event == source
    &&& reference.total_bytes == byte_len(text)
    &&& reference.store_id.len() > 0
}

/// What is shown of a text that goes on after `end`, given the store's answer.
pub open spec fn shows(
    shown: ToolContentModel,
    text: Seq<char>,
    end: int,
    reference: Option<ContentReferenceView>,
) -> bool {
    &&& is_piece(shown.text, text, 0, end)
    &&& shown.total_bytes == byte_len(text)
    &&& shown.truncated == (end < byte_len(text))
    &&& shown.reference == reference
}

/// The outcome keeps its status and the facts of a failure; only its text is bounded.
pub open spec fn shows_outcome(
    shown: ToolOutcomeModel,
    outcome: ToolRecordedOutcomeView,
    end: int,
    reference: Option<ContentReferenceView>,
) -> bool {
    match (shown, outcome) {
        (
            ToolOutcomeModel::Succeeded { output },
            ToolRecordedOutcomeView::Succeeded { output: text },
        ) => shows(output, text, end, reference),
        (
            ToolOutcomeModel::Failed { category, code, message, retryable },
            ToolRecordedOutcomeView::Failed {
                category: c,
                code: recorded,
                message: text,
                retryable: r,
            },
        ) => category == c && code == recorded && retryable == r && shows(
            message,
            text,
            end,
            reference,
        ),
        _ => false,
    }
}

/// What projecting a result gives, for each choice of the policy and each answer of the
/// store. `stored` is the answer where the text is cut.
pub open spec fn projects(
    result: Result<ToolResultModel, ViewError>,
    outcome: ToolRecordedOutcomeView,
    source: Seq<char>,
    scope: ContentScopeView,
    now: u64,
    max: usize,
    chosen: Result<ResultSelection, ViewError>,
    stored: Result<ContentReferenceView, ViewError>,
) -> bool {
    let text = outcome_text(outcome);
    if max == 0 || !is_valid_scope(scope, now) || is_blank(source) {
        result == Err::<ToolResultModel, ViewError>(ViewError::Invalid)
    } else {
        match preview_end(text, chosen, max) {
            Err(e) => result == Err::<ToolResultModel, ViewError>(e),
            Ok(end) => if end >= byte_len(text) {
                &&& result matches Ok(shown)
                &&& shown.algorithm_version == 1
                &&& shown.source_event == source
                &&& shows_outcome(shown.outcome, outcome, end, None)
            } else {
                match stored {
                    Err(e) => result == Err::<ToolResultModel, ViewError>(e),
                    Ok(reference) => if !is_faithful(reference, scope, source, text) {
                        result == Err::<ToolResultModel, ViewError>(ViewError::Conflict)
                    } else {
                        &&& result matches Ok(shown)
                        &&& shown.algorithm_version == 1
                        &&& shown.source_event == source
                        &&& shows_outcome(shown.outcome, outcome, end, Some(reference))
                    },
                }
            },
        }
    }
}

/// A result can be projected at all under these bounds.
pub open spec fn is_projectable(source: Seq<char>, scope: ContentScopeView, now: u64, max: usize) -> bool {
    max > 0 && is_valid_scope(scope, now) && !is_blank(source)
}

/// Less than the whole text is shown.
pub open spec fn is_cut(text: Seq<char>, chosen: Result<ResultSelection, ViewError>, max: usize) -> bool {
    preview_end(text, chosen, max) matches Ok(end) && end < byte_len(text)
}

/// What the policy and the store are asked. The policy sees the whole text. The store
/// gets the whole text once where it is cut, and is left alone everywhere else.
pub open spec fn is_asked<P: ToolResultPolicy, S: ContentStore>(
    outcome: ToolRecordedOutcomeView,
    source: Seq<char>,
    scope: ContentScopeView,
    now: u64,
    max: usize,
    policy: P,
    before: S,
    after: S,
    chosen: Result<ResultSelection, ViewError>,
    stored: Result<ContentReferenceView, ViewError>,
) -> bool {
    let text = outcome_text(outcome);
    if !is_projectable(source, scope, now, max) {
        after == before
    } else {
        &&& policy.selects(text, chosen)
        &&& if is_cut(text, chosen, max) {
            before.puts(scope, source, text, now, stored, &after)
        } else {
            after == before
        }
    }
}

/// What projecting a result gives under a policy, and what it makes of a store.
pub open spec fn is_projection<P: ToolResultPolicy, S: ContentStore>(
    result: Result<ToolResultModel, ViewError>,
    outcome: ToolRecordedOutcomeView,
    source: Seq<char>,
    scope: ContentScopeView,
    now: u64,
    max: usize,
    policy: P,
    before: S,
    after: S,
) -> bool {
    exists|chosen: Result<ResultSelection, ViewError>, stored: Result<
        ContentReferenceView,
        ViewError,
    >| #[trigger]
        projects(result, outcome, source, scope, now, max, chosen, stored) && is_asked(
            outcome,
            source,
            scope,
            now,
            max,
            policy,
            before,
            after,
            chosen,
            stored,
        )
}

pub open spec fn result_view(result: Result<ToolResultView, ViewError>) -> Result<
    ToolResultModel,
    ViewError,
> {
    match result {
        Ok(shown) => Ok(shown@),
        Err(e) => Err(e),
    }
}

pub open spec fn stored_view(stored: Result<ContentReference, ViewError>) -> Result<
    ContentReferenceView,
    ViewError,
> {
    match stored {
        Ok(reference) => Ok(reference@),
        Err(e) => Err(e),
    }
}

/// How far a result is shown.
#[derive(Clone, Copy, Debug, PartialEq, Eq, Structural)]
pub struct ResultPlan {
    pub end: usize,
    /// The text is cut, and a store has to keep it.
    pub truncated: bool,
}

/// How far a result is shown under the policy's choice.
pub fn plan_result(
    outcome: &ToolRecordedOutcome,
    source: &EventId,
    scope: &ContentScope,
    now_ms: u64,
    chosen: Result<ResultSelection, ViewError>,
    max_preview_bytes: usize,
) -> (result: Result<ResultPlan, ViewError>)
    ensures
        if max_preview_bytes == 0 || !is_valid_scope(scope@, now_ms) || is_blank(source@) {
            result == Err::<ResultPlan, ViewError>(ViewError::Invalid)
        } else {
            let text = outcome_text(outcome@);
            match preview_end(text, chosen, max_preview_bytes) {
                Err(e) => result == Err::<ResultPlan, ViewError>(e),
                Ok(end) => {
                    &&& result matches Ok(plan)
                    &&& plan.end == end
                    &&& plan.truncated == (end < byte_len(text))
                    &&& 0 <= end <= byte_len(text)
                    &&& is_char_boundary(encode_utf8(text), end)
                },
            }
        },
{
    if max_preview_bytes == 0 || !valid_scope(scope, now_ms) || blank(source.as_str()) {
        return Err(ViewError::Invalid);
    }
    let text = match outcome {
        ToolRecordedOutcome::Succeeded { output } => output.as_str(),
        ToolRecordedOutcome::Failed { message, .. } => message.as_str(),
    };
    let n: usize = size(text);
    let bytes: usize = match chosen {
        Err(e) => {
            return Err(e);
        },
        Ok(ResultSelection::Inline) => n,
        Ok(ResultSelection::Prefix { bytes }) => if bytes <= n {
            bytes
        } else {
            n
        },
    };
    if bytes > max_preview_bytes {
        return Err(ViewError::Limit);
    }
    let end: usize = boundary(text, bytes);
    Ok(ResultPlan { end, truncated: end < n })
}

/// The view of a result that is shown as planned. `stored` is the store's answer where
/// the text is cut.
pub fn place_result(
    outcome: &ToolRecordedOutcome,
    source: &EventId,
    scope: &ContentScope,
    plan: ResultPlan,
    stored: Option<Result<ContentReference, ViewError>>,
) -> (result: Result<ToolResultView, ViewError>)
    requires
        plan.end <= byte_len(outcome_text(outcome@)),
        is_char_boundary(encode_utf8(outcome_text(outcome@)), plan.end as int),
        plan.truncated == (plan.end < byte_len(outcome_text(outcome@))),
        plan.truncated == stored is Some,
    ensures
        match stored {
            None => result is Ok && result->Ok_0@.algorithm_version == 1
                && result->Ok_0@.source_event == source@ && shows_outcome(
                result->Ok_0@.outcome,
                outcome@,
                plan.end as int,
                None,
            ),
            Some(Err(e)) => result == Err::<ToolResultView, ViewError>(e),
            Some(Ok(reference)) => if !is_faithful(
                reference@,
                scope@,
                source@,
                outcome_text(outcome@),
            ) {
                result == Err::<ToolResultView, ViewError>(ViewError::Conflict)
            } else {
                result is Ok && result->Ok_0@.algorithm_version == 1 && result->Ok_0@.source_event
                    == source@ && shows_outcome(
                    result->Ok_0@.outcome,
                    outcome@,
                    plan.end as int,
                    Some(reference@),
                )
            },
        },
{
    let text = match outcome {
        ToolRecordedOutcome::Succeeded { output } => output.as_str(),
        ToolRecordedOutcome::Failed { message, .. } => message.as_str(),
    };
    let n: usize = size(text);
    let reference = match stored {
        None => None,
        Some(Err(e)) => {
            return Err(e);
        },
        Some(Ok(reference)) => {
            if !reference.scope.is_same(scope) || !reference.source_event.is_same(source)
                || reference.total_bytes != n || is_empty(&reference.store_id) {
                return Err(ViewError::Conflict);
            }
            Some(reference)
        },
    };
    proof {
        encode_utf8_valid_utf8(text@);
        is_char_boundary_start_end_of_seq(encode_utf8(text@));
    }
    let content = ToolContentView {
        text: cut(text, 0, plan.end),
        total_bytes: n,
        truncated: plan.truncated,
        reference,
    };
    let shown = match outcome {
        ToolRecordedOutcome::Succeeded { .. } => ToolOutcomeView::Succeeded { output: content },
        ToolRecordedOutcome::Failed { category, code, message: _, retryable } =>
            ToolOutcomeView::Failed {
            category: *category,
            code: code.clone(),
            message: content,
            retryable: *retryable,
        },
    };
    Ok(ToolResultView { algorithm_version: 1, source_event: source.duplicate(), outcome: shown })
}

fn is_empty(text: &String) -> (answer: bool)
    ensures
        answer == (text@.len() == 0),
{
    let answer: bool = same_text(text.as_str(), "");
    proof {
        reveal_strlit("");
        assert(text@.len() == 0 ==> text@ =~= ""@);
    }
    answer
}

/// What a model is shown of a tool result, as the policy chooses. Where that is less
/// than the whole, the store keeps the whole. The referenced content stays untrusted
/// tool data.
pub fn project_tool_result<P: ToolResultPolicy, S: ContentStore>(
    outcome: &ToolRecordedOutcome,
    source: &EventId,
    scope: &ContentScope,
    now_ms: u64,
    policy: &P,
    store: &mut S,
    max_preview_bytes: usize,
) -> (result: Result<ToolResultView, ViewError>)
    ensures
        is_projection(
            result_view(result),
            outcome@,
            source@,
            scope@,
            now_ms,
            max_preview_bytes,
            *policy,
            *old(store),
            *final(store),
        ),
{
    let ghost before = *store;
    let ghost refused: Result<ContentReferenceView, ViewError> = Err(ViewError::Unavailable);
    if max_preview_bytes == 0 || !valid_scope(scope, now_ms) || blank(source.as_str()) {
        let result = Err(ViewError::Invalid);
        assert(projects(
            result_view(result),
            outcome@,
            source@,
            scope@,
            now_ms,
            max_preview_bytes,
            Err(ViewError::Invalid),
            refused,
        ));
        return result;
    }
    let text = match outcome {
        ToolRecordedOutcome::Succeeded { output } => output,
        ToolRecordedOutcome::Failed { message, .. } => message,
    };
    let chosen = policy.select(text);
    let plan = match plan_result(outcome, source, scope, now_ms, chosen, max_preview_bytes) {
        Ok(plan) => plan,
        Err(e) => {
            let result = Err(e);
            assert(projects(
                result_view(result),
                outcome@,
                source@,
                scope@,
                now_ms,
                max_preview_bytes,
                chosen,
                refused,
            ));
            return result;
        },
    };
    if plan.truncated {
        let stored = store.put(scope, source, text, now_ms);
        let ghost answered = stored_view(stored);
        let result = place_result(outcome, source, scope, plan, Some(stored));
        assert(projects(
            result_view(result),
            outcome@,
            source@,
            scope@,
            now_ms,
            max_preview_bytes,
            chosen,
            answered,
        ));
        assert(is_asked(
            outcome@,
            source@,
            scope@,
            now_ms,
            max_preview_bytes,
            *policy,
            before,
            *store,
            chosen,
            answered,
        ));
        result
    } else {
        let result = place_result(outcome, source, scope, plan, None);
        assert(projects(
            result_view(result),
            outcome@,
            source@,
            scope@,
            now_ms,
            max_preview_bytes,
            chosen,
            refused,
        ));
        result
    }
}

/// The bounded text of a shown outcome.
pub open spec fn shown_content(outcome: ToolOutcomeModel) -> ToolContentModel {
    match outcome {
        ToolOutcomeModel::Succeeded { output } => output,
        ToolOutcomeModel::Failed { message, .. } => message,
    }
}

/// What is shown of a result is a beginning of its text within the bound, and says how
/// long the text is. A text that is cut carries a reference; one that is not cut is
/// shown whole, and leaves the store as it was.
pub proof fn previews_are_honest<P: ToolResultPolicy, S: ContentStore>(
    shown: ToolResultModel,
    outcome: ToolRecordedOutcomeView,
    source: Seq<char>,
    scope: ContentScopeView,
    now: u64,
    max: usize,
    policy: P,
    before: S,
    after: S,
)
    requires
        is_projection(
            Ok::<ToolResultModel, ViewError>(shown),
            outcome,
            source,
            scope,
            now,
            max,
            policy,
            before,
            after,
        ),
    ensures
        ({
            let text = outcome_text(outcome);
            let content = shown_content(shown.outcome);
            &&& shown.source_event == source
            &&& encode_utf8(content.text).is_prefix_of(encode_utf8(text))
            &&& byte_len(content.text) <= max
            &&& content.total_bytes == byte_len(text)
            &&& content.truncated == (byte_len(content.text) < byte_len(text))
            &&& content.truncated == content.reference is Some
            &&& content.truncated ==> before.puts(
                scope,
                source,
                text,
                now,
                Ok(content.reference->0),
                &after,
            )
            &&& !content.truncated ==> after == before && encode_utf8(content.text) == encode_utf8(
                text,
            )
        }),
{
    let (chosen, stored) = choose|chosen: Result<ResultSelection, ViewError>, stored: Result<
        ContentReferenceView,
        ViewError,
    >| #[trigger]
        projects(
            Ok::<ToolResultModel, ViewError>(shown),
            outcome,
            source,
            scope,
            now,
            max,
            chosen,
            stored,
        ) && is_asked(outcome, source, scope, now, max, policy, before, after, chosen, stored);
    let text = outcome_text(outcome);
    let bytes = encode_utf8(text);
    let end = preview_end(text, chosen, max)->Ok_0;
    let wanted = match chosen->Ok_0 {
        ResultSelection::Inline => bytes.len() as int,
        ResultSelection::Prefix { bytes: n } => least(n as int, bytes.len() as int),
    };
    encode_utf8_valid_utf8(text);
    boundaries_are_boundaries(bytes, wanted);
    let content = shown_content(shown.outcome);
    assert(encode_utf8(content.text) == bytes.subrange(0, end));
    if end == bytes.len() {
        assert(bytes.subrange(0, end) =~= bytes);
    }
}

/// With a store in memory, a result that was cut can be read back whole: from any place
/// where a character starts, its reference gives the page of the recorded text, as long
/// as the content has not expired.
pub proof fn cut_results_can_be_read<P: ToolResultPolicy>(
    shown: ToolResultModel,
    outcome: ToolRecordedOutcomeView,
    source: Seq<char>,
    scope: ContentScopeView,
    now: u64,
    max: usize,
    policy: P,
    before: MemoryContentStore,
    after: MemoryContentStore,
    later: u64,
    offset: usize,
    max_bytes: usize,
)
    requires
        is_projection(
            Ok::<ToolResultModel, ViewError>(shown),
            outcome,
            source,
            scope,
            now,
            max,
            policy,
            before,
            after,
        ),
        shown_content(shown.outcome).truncated,
        is_valid_scope(scope, later),
        4 <= max_bytes <= before@.config.max_page_bytes,
        offset <= byte_len(outcome_text(outcome)),
        is_char_boundary(encode_utf8(outcome_text(outcome)), offset as int),
    ensures
        ({
            let text = outcome_text(outcome);
            let end = boundary_of(
                encode_utf8(text),
                least(offset + max_bytes, byte_len(text) as int),
            );
            &&& after@.read(
                shown_content(shown.outcome).reference->0,
                scope,
                later,
                offset,
                max_bytes,
            ) == Ok::<(Seq<char>, int), ViewError>((text, end))
            &&& paged(encode_utf8(text), 0, max_bytes as int) == encode_utf8(text)
        }),
{
    let text = outcome_text(outcome);
    previews_are_honest(shown, outcome, source, scope, now, max, policy, before, after);
    what_was_put_is_found(before@, scope, source, text, now, later, offset, max_bytes);
    encode_utf8_valid_utf8(text);
    is_char_boundary_start_end_of_seq(encode_utf8(text));
    pages_give_the_text_back(text, 0, max_bytes as int);
    assert(encode_utf8(text).subrange(0, byte_len(text) as int) =~= encode_utf8(text));
}

/// What was put can be read back, under the reference that was handed out and from any
/// place where a character starts, as long as it has not expired.
pub proof fn what_was_put_is_found(
    store: StoreView,
    scope: ContentScopeView,
    source: Seq<char>,
    text: Seq<char>,
    now: u64,
    later: u64,
    offset: usize,
    max_bytes: usize,
)
    requires
        store.put(scope, source, text, now).0 is Ok,
        is_valid_scope(scope, later),
        4 <= max_bytes <= store.config.max_page_bytes,
        offset <= byte_len(text),
        is_char_boundary(encode_utf8(text), offset as int),
    ensures
        store.put(scope, source, text, now).1.read(
            store.put(scope, source, text, now).0->Ok_0,
            scope,
            later,
            offset,
            max_bytes,
        ) == Ok::<(Seq<char>, int), ViewError>(
            (
                text,
                boundary_of(
                    encode_utf8(text),
                    least(offset + max_bytes, encode_utf8(text).len() as int),
                ),
            ),
        ),
{
    let rest = store.purged(now);
    let after = store.put(scope, source, text, now).1;
    let reference = store.reference(scope, source, text);
    if entry_at(rest.entries, source, 0) is None {
        entry_of_push(
            rest.entries,
            EntryView { reference, text },
            0,
        );
    } else {
        entry_is_inside(rest.entries, source, 0);
    }
    encode_utf8_valid_utf8(text);
    if offset < encode_utf8(text).len() {
        next_character_is_near(encode_utf8(text), offset as int);
    }
    boundaries_are_boundaries(
        encode_utf8(text),
        least(offset + max_bytes, encode_utf8(text).len() as int),
    );
}

/// Something done to a store that may remove what has expired.
#[allow(inconsistent_fields)]
pub enum StoreStep {
    Put { scope: ContentScopeView, source: Seq<char>, text: Seq<char>, now: u64 },
    Purge { now: u64 },
}

impl StoreStep {
    pub open spec fn time(self) -> u64 {
        match self {
            StoreStep::Put { now, .. } => now,
            StoreStep::Purge { now } => now,
        }
    }
}

impl StoreView {
    /// The store after some puts and purges.
    pub open spec fn after_all(self, steps: Seq<StoreStep>) -> StoreView
        decreases steps.len(),
    {
        if steps.len() == 0 {
            self
        } else {
            let before = self.after_all(steps.drop_last());
            match steps.last() {
                StoreStep::Put { scope, source, text, now } => before.put(scope, source, text, now).1,
                StoreStep::Purge { now } => before.purged(now),
            }
        }
    }
}

/// What was put stays readable through anything that is put or purged later, until it
/// expires.
pub proof fn what_was_put_stays(
    store: StoreView,
    scope: ContentScopeView,
    source: Seq<char>,
    text: Seq<char>,
    now: u64,
    steps: Seq<StoreStep>,
    later: u64,
    offset: usize,
    max_bytes: usize,
)
    requires
        store.put(scope, source, text, now).0 is Ok,
        forall|i: int| 0 <= i < steps.len() ==> (#[trigger] steps[i]).time() < scope.expires_at_ms,
        is_valid_scope(scope, later),
        4 <= max_bytes <= store.config.max_page_bytes,
        offset <= byte_len(text),
        is_char_boundary(encode_utf8(text), offset as int),
    ensures
        store.put(scope, source, text, now).1.after_all(steps).read(
            store.put(scope, source, text, now).0->Ok_0,
            scope,
            later,
            offset,
            max_bytes,
        ) == Ok::<(Seq<char>, int), ViewError>(
            (
                text,
                boundary_of(
                    encode_utf8(text),
                    least(offset + max_bytes, encode_utf8(text).len() as int),
                ),
            ),
        ),
{
    let after = store.put(scope, source, text, now).1;
    let reference = store.reference(scope, source, text);
    let entry = EntryView { reference, text };
    what_was_put_is_found(store, scope, source, text, now, later, offset, max_bytes);
    let rest = store.purged(now);
    if entry_at(rest.entries, source, 0) is None {
        entry_of_push(rest.entries, entry, 0);
    } else {
        entry_is_inside(rest.entries, source, 0);
    }
    entry_stays(after, entry, steps);
    entry_is_inside(after.after_all(steps).entries, source, 0);
}

/// The store finds this entry under its source.
spec fn finds(store: StoreView, entry: EntryView) -> bool {
    entry_at(store.entries, entry.reference.source_event, 0) matches Some(k) && 0 <= k < store.entries.len()
        && store.entries[k] == entry
}

proof fn entry_stays(store: StoreView, entry: EntryView, steps: Seq<StoreStep>)
    requires
        finds(store, entry),
        forall|i: int|
            0 <= i < steps.len() ==> (#[trigger] steps[i]).time()
                < entry.reference.scope.expires_at_ms,
    ensures
        finds(store.after_all(steps), entry),
        store.after_all(steps).config == store.config,
    decreases steps.len(),
{
    if steps.len() > 0 {
        let before = store.after_all(steps.drop_last());
        assert forall|i: int| 0 <= i < steps.drop_last().len() implies (
        #[trigger] steps.drop_last()[i]).time() < entry.reference.scope.expires_at_ms by {
            assert(steps.drop_last()[i] == steps[i]);
        }
        entry_stays(store, entry, steps.drop_last());
        let now = steps.last().time();
        assert(steps.last() == steps[steps.len() - 1]);
        let keeps = |e: EntryView| e.reference.scope.expires_at_ms > now;
        entry_passes(before.entries, entry, keeps);
        let rest = before.purged(now);
        assert(rest.entries == before.entries.filter(keeps));
        match steps.last() {
            StoreStep::Put { scope, source, text, now: at } => {
                let other = EntryView { reference: before.reference(scope, source, text), text };
                entry_before_push(rest.entries, entry.reference.source_event, other, 0);
                entry_is_inside(rest.entries, entry.reference.source_event, 0);
            },
            StoreStep::Purge { .. } => {},
        }
    }
}

/// Leaving other entries out keeps an entry that is found.
proof fn entry_passes(entries: Seq<EntryView>, entry: EntryView, keeps: spec_fn(EntryView) -> bool)
    requires
        keeps(entry),
        entry_at(entries, entry.reference.source_event, 0) matches Some(k) && 0 <= k < entries.len()
            && entries[k] == entry,
    ensures
        entry_at(entries.filter(keeps), entry.reference.source_event, 0) matches Some(k) && 0 <= k
            < entries.filter(keeps).len() && entries.filter(keeps)[k] == entry,
    decreases entries.len(),
{
    let source = entry.reference.source_event;
    reveal(Seq::filter);
    let front = entries.drop_last();
    let last = entries.last();
    assert(entries =~= front.push(last));
    entry_is_inside(entries, source, 0);
    entry_is_inside(front, source, 0);
    if entry_at(front, source, 0) is Some {
        entry_before_push(front, source, last, 0);
        entry_passes(front, entry, keeps);
        entry_is_inside(front.filter(keeps), source, 0);
        entry_before_push(front.filter(keeps), source, last, 0);
    } else {
        if last.reference.source_event != source {
            other_sources_are_passed(front, source, last, 0);
        } else {
            entry_of_push(front, last, 0);
        }
        assert(last == entry);
        nothing_found_among_fewer(front, source, keeps);
        entry_of_push(front.filter(keeps), entry, 0);
    }
}

proof fn nothing_found_among_fewer(
    entries: Seq<EntryView>,
    source: Seq<char>,
    keeps: spec_fn(EntryView) -> bool,
)
    requires
        entry_at(entries, source, 0) is None,
    ensures
        entry_at(entries.filter(keeps), source, 0) is None,
    decreases entries.len(),
{
    reveal(Seq::filter);
    if entries.len() > 0 {
        let front = entries.drop_last();
        let last = entries.last();
        assert(entries =~= front.push(last));
        if entry_at(front, source, 0) is Some {
            entry_before_push(front, source, last, 0);
        }
        nothing_found_among_fewer(front, source, keeps);
        if last.reference.source_event == source {
            entry_of_push(front, last, 0);
        }
        other_sources_are_passed(front.filter(keeps), source, last, 0);
    }
}

proof fn entry_before_push(entries: Seq<EntryView>, source: Seq<char>, entry: EntryView, k: int)
    requires
        0 <= k,
        entry_at(entries, source, k) is Some,
    ensures
        entry_at(entries.push(entry), source, k) == entry_at(entries, source, k),
    decreases entries.len() - k,
{
    if k < entries.len() && entries[k].reference.source_event != source {
        entry_before_push(entries, source, entry, k + 1);
    }
}

proof fn other_sources_are_passed(entries: Seq<EntryView>, source: Seq<char>, entry: EntryView, k: int)
    requires
        0 <= k <= entries.len(),
        entry_at(entries, source, k) is None,
        entry.reference.source_event != source,
    ensures
        entry_at(entries.push(entry), source, k) is None,
    decreases entries.len() - k,
{
    if k < entries.len() {
        other_sources_are_passed(entries, source, entry, k + 1);
    } else {
        assert(entry_at(entries.push(entry), source, k + 1) is None);
    }
}

proof fn entry_is_inside(entries: Seq<EntryView>, source: Seq<char>, k: int)
    requires
        0 <= k,
    ensures
        entry_at(entries, source, k) matches Some(i) ==> k <= i < entries.len()
            && entries[i].reference.source_event == source,
    decreases entries.len() - k,
{
    if k < entries.len() {
        entry_is_inside(entries, source, k + 1);
    }
}

proof fn entry_of_push(entries: Seq<EntryView>, entry: EntryView, k: int)
    requires
        0 <= k <= entries.len(),
        entry_at(entries, entry.reference.source_event, k) is None,
    ensures
        entry_at(entries.push(entry), entry.reference.source_event, k) == Some(
            entries.len() as int,
        ),
    decreases entries.len() - k,
{
    if k < entries.len() {
        entry_of_push(entries, entry, k + 1);
    }
}

/// From the start of a character the next one is at most four bytes away.
proof fn next_character_is_near(bytes: Seq<u8>, offset: int)
    requires
        valid_utf8(bytes),
        0 <= offset < bytes.len(),
        is_char_boundary(bytes, offset),
    ensures
        exists|k: int| offset < k <= offset + 4 && k <= bytes.len() && is_char_boundary(bytes, k),
{
    let rest = bytes.subrange(offset, bytes.len() as int);
    valid_utf8_split(bytes, offset);
    let step = length_of_first_scalar(rest);
    assert(valid_first_scalar(rest));
    assert(1 <= step <= 4 && step <= rest.len());
    reveal_with_fuel(is_char_boundary, 2);
    assert(is_char_boundary(rest, step));
    if offset + step < bytes.len() {
        is_char_boundary_iff_not_is_continuation_byte(rest, step);
        is_char_boundary_iff_not_is_continuation_byte(bytes, offset + step);
        assert(rest[step] == bytes[offset + step]);
    } else {
        is_char_boundary_start_end_of_seq(bytes);
    }
    assert(is_char_boundary(bytes, offset + step));
}

/// Everything from `offset` on, read in pages of at most `max` bytes.
pub open spec fn paged(bytes: Seq<u8>, offset: int, max: int) -> Seq<u8>
    decreases bytes.len() - offset,
{
    let end = boundary_of(bytes, least(offset + max, bytes.len() as int));
    if offset >= bytes.len() || end <= offset || end > bytes.len() {
        Seq::empty()
    } else {
        bytes.subrange(offset, end) + paged(bytes, end, max)
    }
}

/// Pages of four bytes or more, each read where the last one ended, give back the whole
/// text, and every page gets further.
pub proof fn pages_give_the_text_back(text: Seq<char>, offset: int, max: int)
    requires
        4 <= max,
        0 <= offset <= byte_len(text),
        is_char_boundary(encode_utf8(text), offset),
    ensures
        paged(encode_utf8(text), offset, max) == encode_utf8(text).subrange(
            offset,
            byte_len(text) as int,
        ),
        offset < byte_len(text) ==> boundary_of(
            encode_utf8(text),
            least(offset + max, byte_len(text) as int),
        ) > offset,
    decreases byte_len(text) - offset,
{
    let bytes = encode_utf8(text);
    encode_utf8_valid_utf8(text);
    if offset < bytes.len() {
        let n = least(offset + max, bytes.len() as int);
        boundaries_are_boundaries(bytes, n);
        next_character_is_near(bytes, offset);
        let k = choose|k: int|
            offset < k <= offset + 4 && k <= bytes.len() && is_char_boundary(bytes, k);
        let end = boundary_of(bytes, n);
        assert(end >= k);
        pages_give_the_text_back(text, end, max);
        assert(bytes.subrange(offset, end) + bytes.subrange(end, bytes.len() as int)
            =~= bytes.subrange(offset, bytes.len() as int));
    } else {
        assert(bytes.subrange(offset, bytes.len() as int) =~= Seq::empty());
    }
}

} // verus!
