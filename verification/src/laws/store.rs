//! The store in memory: what it finds, changes and keeps.
use crate::backend::{BackendMutation, BackendResult, ClipboardBackend, EntryTarget, HistoryQuery};
use crate::fake;
use crate::fake::FakeBackend;
use crate::model::{EntryDetails, EntrySummary, HistoryPage, OperationResult, ReplacementResult};
use crate::text;
use vstd::prelude::*;
use vstd::string::*;
use vstd::utf8::*;

verus! {

proof fn the_first_entry_is_found(entries: Seq<EntryDetails>, id: Seq<char>)
    ensures
        0 <= fake::entry_index(entries, id) <= entries.len(),
        fake::entry_index(entries, id) < entries.len() ==> entries[fake::entry_index(
            entries,
            id,
        )].entry.id@ == id,
        forall|i: int|
            0 <= i < fake::entry_index(entries, id) ==> (#[trigger] entries[i]).entry.id@ != id,
    decreases entries.len(),
{
    if entries.len() > 0 && entries[0].entry.id@ != id {
        let rest = entries.drop_first();
        the_first_entry_is_found(rest, id);
        assert forall|i: int| 0 <= i < fake::entry_index(entries, id) implies (
        #[trigger] entries[i]).entry.id@ != id by {
            if i > 0 {
                assert(rest[i - 1] == entries[i]);
            }
        }
    }
}

/// Removing an entry takes it out and leaves the others; marking it changes the mark
/// alone; wiping leaves nothing; putting an entry on the clipboard changes nothing. A
/// change of another state than the one that is there is refused, and changes nothing.
pub proof fn changes_change_what_they_say(
    before: FakeBackend,
    id: &str,
    at: int,
    revision: Option<u64>,
    mutation: BackendMutation,
    after: FakeBackend,
    result: BackendResult<OperationResult>,
)
    requires
        0 <= at < before.entries@.len(),
        before.entries@[at].entry.id@ == id@,
        forall|i: int| 0 <= i < at ==> (#[trigger] before.entries@[i]).entry.id@ != id@,
        exists|asked: &mut FakeBackend|
            *asked == before && *final(asked) == after && #[trigger] call_ensures(
                FakeBackend::mutate,
                (asked, id, revision, mutation),
                result,
            ),
    ensures
        ({
            let entry = before.entries@[at];
            let right = revision == Some(entry.entry.revision);
            &&& !(mutation is Wipe || mutation is Cleanup) ==> (result is Ok <==> right)
            &&& result is Err ==> after.entries@ == before.entries@
            &&& right && mutation is Remove ==> after.entries@ == before.entries@.remove(at)
            &&& right && mutation is SetFavorite ==> after.entries@ == before.entries@.update(
                at,
                EntryDetails {
                    entry: EntrySummary { favorite: mutation->SetFavorite_0, ..entry.entry },
                    ..entry
                },
            )
            &&& mutation is Wipe ==> after.entries@.len() == 0
            &&& right && (mutation is Restore || mutation is ImageAsFile || mutation is Annotate)
                ==> after.entries@ == before.entries@
            &&& mutation is Cleanup ==> after.entries@ == before.entries@
            &&& right && mutation is Remove ==> result->Ok_0.action@ == "delete"@
            &&& right && mutation is Restore ==> result->Ok_0.action@ == "copy"@
            &&& right && mutation == BackendMutation::SetFavorite(true) ==> result->Ok_0.action@
                == "favorite"@
            &&& right && mutation == BackendMutation::SetFavorite(false) ==> result->Ok_0.action@
                == "unfavorite"@
        }),
{
    the_first_entry_is_found(before.entries@, id@);
    let found = fake::entry_index(before.entries@, id@);
    if found < at {
        assert(before.entries@[found].entry.id@ != id@);
    }
    assert(found == at);
}

/// Entries are deleted together or not at all: where each is in the state that was
/// named, those that were named are gone and the others stay.
pub proof fn entries_are_deleted_together(
    before: FakeBackend,
    targets: &[EntryTarget],
    after: FakeBackend,
    result: BackendResult<OperationResult>,
    i: int,
    k: int,
)
    requires
        exists|asked: &mut FakeBackend|
            *asked == before && *final(asked) == after && #[trigger] call_ensures(
                FakeBackend::remove_many,
                (asked, targets),
                result,
            ),
    ensures
        result is Err ==> after.entries@ == before.entries@,
        result is Ok && 0 <= i < before.entries@.len() && (forall|t: int|
            0 <= t < targets@.len() ==> (#[trigger] targets@[t]).opaque_id@
                != before.entries@[i].entry.id@) ==> after.entries@.contains(before.entries@[i]),
        result is Ok && 0 <= k < after.entries@.len() ==> forall|t: int|
            0 <= t < targets@.len() ==> (#[trigger] targets@[t]).opaque_id@
                != after.entries@[k].entry.id@,
        result is Ok ==> result->Ok_0.action@ == "delete-many"@,
{
    let keep = |d: EntryDetails| !fake::targeted(targets@, d.entry.id@);
    if result is Ok {
        assert(after.entries@ == before.entries@.filter(keep));
        if 0 <= i < before.entries@.len() && (forall|t: int|
            0 <= t < targets@.len() ==> (#[trigger] targets@[t]).opaque_id@
                != before.entries@[i].entry.id@) {
            assert(keep(before.entries@[i]));
            before.entries@.lemma_filter_contains(keep, i);
        }
        if 0 <= k < after.entries@.len() {
            before.entries@.lemma_filter_pred(keep, k);
            assert(!fake::targeted(targets@, after.entries@[k].entry.id@));
        }
    }
}

/// An edit replaces the content of the entry, under the same identifier and in the next
/// revision; its mark stays, and so do the other entries.
pub proof fn edits_replace_the_content(
    before: FakeBackend,
    id: &str,
    at: int,
    revision: u64,
    mime: &str,
    content: &[u8],
    after: FakeBackend,
    result: BackendResult<ReplacementResult>,
    i: int,
)
    requires
        0 <= at < before.entries@.len(),
        before.entries@[at].entry.id@ == id@,
        forall|k: int| 0 <= k < at ==> (#[trigger] before.entries@[k]).entry.id@ != id@,
        before.entries@[at].entry.revision < u64::MAX,
        exists|asked: &mut FakeBackend|
            *asked == before && *final(asked) == after && #[trigger] call_ensures(
                FakeBackend::replace,
                (asked, id, revision, mime, content),
                result,
            ),
        0 <= i < before.entries@.len(),
    ensures
        result is Ok <==> revision == before.entries@[at].entry.revision,
        result is Err ==> after.entries@ == before.entries@,
        result is Ok ==> {
            let entry = after.entries@[at];
            &&& after.entries@.len() == before.entries@.len()
            &&& i != at ==> after.entries@[i] == before.entries@[i]
            &&& entry.entry.id@ == id@
            &&& entry.entry.revision == revision + 1
            &&& entry.entry.mime@ == mime@
            &&& entry.entry.byte_size == content@.len()
            &&& entry.entry.favorite == before.entries@[at].entry.favorite
            &&& entry.text is Some <==> valid_utf8(content@)
            &&& entry.text is Some ==> entry.text->0@ == decode_utf8(content@)
            &&& result->Ok_0.selection_published
            &&& result->Ok_0.entry.entry == entry.entry
            &&& result->Ok_0.entry.text == entry.text
        },
{
    the_first_entry_is_found(before.entries@, id@);
    let found = fake::entry_index(before.entries@, id@);
    if found < at {
        assert(before.entries@[found].entry.id@ != id@);
    }
    assert(found == at);
}

proof fn all_are_kept<T>(s: Seq<T>, keep: spec_fn(T) -> bool)
    requires
        forall|i: int| 0 <= i < s.len() ==> keep(#[trigger] s[i]),
    ensures
        s.filter(keep) == s,
    decreases s.len(),
{
    reveal(Seq::filter);
    if s.len() > 0 {
        assert forall|i: int| 0 <= i < s.drop_last().len() implies keep(
            #[trigger] s.drop_last()[i],
        ) by {
            assert(s.drop_last()[i] == s[i]);
        }
        all_are_kept(s.drop_last(), keep);
        assert(s.drop_last().push(s.last()) =~= s);
    }
}

/// A query shows the entries that hold what is looked for, in order, from its offset on
/// and as many as were asked for, and says where to go on; looking for nothing shows
/// them all.
pub proof fn queries_show_stretches(
    before: FakeBackend,
    query: HistoryQuery,
    after: FakeBackend,
    page: BackendResult<HistoryPage>,
    i: int,
)
    requires
        text::lowercase_text(query.query@).len() == 0,
        query.offset + before.entries@.len() <= usize::MAX,
        exists|asked: &mut FakeBackend|
            *asked == before && *final(asked) == after && #[trigger] call_ensures(
                FakeBackend::query,
                (asked, query),
                page,
            ),
    ensures
        after.entries@ == before.entries@,
        page is Ok,
        ({
            let page = page->Ok_0;
            let left: int = if query.offset < before.entries@.len() {
                before.entries@.len() - query.offset
            } else {
                0
            };
            &&& page.entries@.len() == if query.limit < left {
                query.limit as int
            } else {
                left
            }
            &&& 0 <= i < page.entries@.len() ==> page.entries@[i] == before.entries@[query.offset
                + i].entry
            &&& page.has_more <==> query.offset + page.entries@.len() < before.entries@.len()
            &&& page.revision == 1
            &&& page.generation == query.generation
            &&& page.has_more ==> page.next_offset is Some && page.next_offset->0 == query.offset
                + page.entries@.len()
            &&& !page.has_more ==> page.next_offset is None
        }),
{
    all_are_kept(before.entries@, fake::hit(text::lowercase_text(query.query@)));
    let found = fake::hits(before.entries@, text::lowercase_text(query.query@));
    assert(found.len() == before.entries@.len());
}

} // verus!
