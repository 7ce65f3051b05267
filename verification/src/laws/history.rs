//! What a query shows of the history, and what can then be acted on.
use crate::backend::{BackendError, BackendResult, HistoryQuery};
use crate::bytes;
use crate::model::{BackendStatus, EntryDetails, EntrySummary, HistoryPage, ReplacementResult};
use crate::ringboard;
use crate::ringboard::content::{FileProbe, ResolvedContent};
use crate::ringboard::details;
use crate::ringboard::details::{Glance, GlanceAction, GlanceEvent, GlanceJob, GlanceStage, Seen};
use crate::ringboard::identity;
use crate::ringboard::mutation::Loaded;
use crate::ringboard::projection;
use crate::ringboard::projection::{
    CachedProjection, IdentityBinding, QueryCandidate, QueryProjection, ResolvedEntry,
};
use crate::ringboard::{
    EntryRead, LocalFile, RevisionState, RingboardBackend, StoredEntry, SummaryCache,
};
use crate::text;
use vstd::bytes::*;
use vstd::hash_set::StringHashSet;
use vstd::prelude::*;
use vstd::string::*;
use vstd::utf8::*;

verus! {

/// What an entry shows holds what a query is looked for as, somewhere.
pub open spec fn shows_it(summary: EntrySummary, looked_for: Seq<char>) -> bool {
    ||| looked_for.len() == 0
    ||| exists|at: int|
        0 <= at <= text::lowercase_text(summary.preview@).len() - looked_for.len()
            && #[trigger] text::lowercase_text(summary.preview@).subrange(
            at,
            at + looked_for.len(),
        ) == looked_for
    ||| exists|at: int|
        0 <= at <= text::lowercase_text(summary.mime@).len() - looked_for.len()
            && #[trigger] text::lowercase_text(summary.mime@).subrange(at, at + looked_for.len())
            == looked_for
}

proof fn holding_is_standing_somewhere(whole: Seq<char>, part: Seq<char>)
    ensures
        text::holds(whole, part) <==> exists|at: int|
            0 <= at <= whole.len() - part.len() && #[trigger] whole.subrange(at, at + part.len())
                == part,
{
    if text::holds(whole, part) {
        let at = choose|at: int| text::begins_at(whole, part, at);
        assert(whole.skip(at).take(part.len() as int) =~= whole.subrange(at, at + part.len()));
    }
    if exists|at: int|
        0 <= at <= whole.len() - part.len() && #[trigger] whole.subrange(at, at + part.len())
            == part {
        let at = choose|at: int|
            0 <= at <= whole.len() - part.len() && #[trigger] whole.subrange(at, at + part.len())
                == part;
        assert(whole.skip(at).take(part.len() as int) =~= whole.subrange(at, at + part.len()));
        assert(text::begins_at(whole, part, at));
    }
}

proof fn matching_is_showing(summary: EntrySummary, looked_for: Seq<char>)
    ensures
        projection::matches(summary, looked_for) <==> shows_it(summary, looked_for),
{
    holding_is_standing_somewhere(text::lowercase_text(summary.preview@), looked_for);
    holding_is_standing_somewhere(text::lowercase_text(summary.mime@), looked_for);
}

/// An entry matches what is looked for exactly where its preview or its MIME type
/// shows it.
pub proof fn matching_goes_by_what_is_shown(summary: EntrySummary, looked_for: &str, result: bool)
    requires
        call_ensures(projection::matches_query, (&summary, looked_for), result),
    ensures
        result <==> shows_it(summary, looked_for@),
{
    matching_is_showing(summary, looked_for@);
}

/// A page is as large as was asked for, from 1 to 200 entries, unless the matches
/// end before; it shows only entries of the history that match.
pub proof fn pages_show_only_matches(
    history: CachedProjection,
    query: HistoryQuery,
    texts: StringHashSet,
    looked: &str,
    looked_for: String,
    shown: QueryProjection,
    k: int,
)
    requires
        call_ensures(CachedProjection::project_found, (&history, &query, &texts), shown),
        looked@ == query.query@,
        call_ensures(projection::needle, (looked,), looked_for),
    ensures
        ({
            let size: int = if query.limit < 1 {
                1
            } else if query.limit > 200 {
                200
            } else {
                query.limit as int
            };
            let left: int = if shown.matched > query.offset {
                shown.matched - query.offset
            } else {
                0
            };
            shown.entries@.len() == if left < size {
                left
            } else {
                size
            }
        }),
        0 <= k < shown.entries@.len() ==> exists|i: int|
            0 <= i < history.candidates@.len() && shown.entries@[k] == (EntrySummary {
                current: shown.entries@[k].current,
                ..(#[trigger] history.candidates@[i]).resolved.summary
            }) && (shows_it(history.candidates@[i].resolved.summary, looked_for@)
                || texts@.contains(history.candidates@[i].resolved.summary.id@)) && (
            query.collapse_self_echoes ==> (match history.candidates@[i].resolved.echo_source_id {
                Some(source) => forall|j: int|
                    0 <= j < history.candidates@.len() ==> (
                    #[trigger] history.candidates@[j]).resolved.summary.id@ != source@,
                None => true,
            })),
        0 <= k < shown.entries@.len() ==> (shown.entries@[k].current <==> (shown.current matches Some(
            current,
        ) && current.id@ == shown.entries@[k].id@)),
        shown.complete == history.complete,
{
    let all = history.candidates@;
    let ids = projection::ids_of(all);
    let found = history.found(query, texts@);
    let listed = projection::visible(all, query.collapse_self_echoes);
    if 0 <= k < shown.entries@.len() {
        let at = query.offset + k;
        let keep = |c: QueryCandidate|
            projection::matches(c.resolved.summary, projection::needle_of(query.query@))
                || texts@.contains(c.id());
        projection::filter_within(listed, keep, at);
        let j = choose|j: int| 0 <= j < listed.len() && listed[j] == found[at];
        let alone = |c: QueryCandidate| c.source(query.collapse_self_echoes, ids) is None;
        projection::filter_within(all, alone, j);
        let i = choose|i: int| 0 <= i < all.len() && all[i] == listed[j];
        matching_is_showing(all[i].resolved.summary, looked_for@);
        assert(keep(found[at]));
        assert(alone(listed[j]));
        current_is_listed(listed, history.current_for(query.collapse_self_echoes));
        if query.collapse_self_echoes {
            if let Some(source) = all[i].resolved.echo_source_id {
                assert(!ids.contains(source@));
                assert forall|j: int| 0 <= j < all.len() implies (
                #[trigger] all[j]).resolved.summary.id@ != source@ by {
                    if all[j].id() == source@ {
                        assert(ids.contains(source@));
                    }
                }
            }
        }
        assert(shown.entries@[k] == (EntrySummary {
            current: shown.entries@[k].current,
            ..all[i].resolved.summary
        }));
    }
}

proof fn current_is_listed(listed: Seq<QueryCandidate>, id: Option<Seq<char>>)
    ensures
        match projection::current_among(listed, id) {
            Some(current) => id == Some(current.id@) && current.current && exists|i: int|
                0 <= i < listed.len() && current == (EntrySummary {
                    current: true,
                    ..(#[trigger] listed[i]).resolved.summary
                }),
            None => forall|i: int| 0 <= i < listed.len() ==> id != Some((#[trigger] listed[i]).id()),
        },
    decreases listed.len(),
{
    if listed.len() > 0 && id != Some(listed.last().id()) {
        let front = listed.drop_last();
        current_is_listed(front, id);
        match projection::current_among(front, id) {
            Some(current) => {
                let i = choose|i: int|
                    0 <= i < front.len() && current == (EntrySummary {
                        current: true,
                        ..(#[trigger] front[i]).resolved.summary
                    });
                assert(listed[i] == front[i]);
            },
            None => {
                assert forall|i: int| 0 <= i < listed.len() implies id != Some(
                    (#[trigger] listed[i]).id(),
                ) by {
                    if i < front.len() {
                        assert(front[i] == listed[i]);
                    }
                }
            },
        }
    } else if listed.len() > 0 {
        assert(listed[listed.len() - 1] == listed.last());
    }
}

/// Where nothing is looked for and no echoes are collapsed, a page shows the
/// entries of the history from its offset on, in their order, and all are counted.
pub proof fn without_a_query_everything_is_shown(
    history: CachedProjection,
    query: HistoryQuery,
    looked: &str,
    looked_for: String,
    shown: QueryProjection,
    k: int,
)
    requires
        call_ensures(CachedProjection::project, (&history, &query), shown),
        looked@ == query.query@,
        call_ensures(projection::needle, (looked,), looked_for),
        looked_for@.len() == 0,
        !query.collapse_self_echoes,
    ensures
        shown.matched == history.candidates@.len(),
        0 <= k < shown.entries@.len() ==> shown.entries@[k] == (EntrySummary {
            current: shown.entries@[k].current,
            ..history.candidates@[query.offset + k].resolved.summary
        }),
{
    let all = history.candidates@;
    let ids = projection::ids_of(all);
    let alone = |c: QueryCandidate| c.source(false, ids) is None;
    keeping_all_changes_nothing(all, alone);
    let keep = |c: QueryCandidate|
        projection::matches(c.resolved.summary, projection::needle_of(query.query@)) || Set::<
            Seq<char>,
        >::empty().contains(c.id());
    keeping_all_changes_nothing(all, keep);
    assert(projection::visible(all, false) == all.filter(alone));
    assert(history.found(query, Set::empty()) == all.filter(keep));
}

proof fn keeping_all_changes_nothing<T>(s: Seq<T>, keep: spec_fn(T) -> bool)
    requires
        forall|i: int| 0 <= i < s.len() ==> keep(#[trigger] s[i]),
    ensures
        s.filter(keep) == s,
    decreases s.len(),
{
    reveal(Seq::filter);
    if s.len() > 0 {
        assert forall|i: int| 0 <= i < s.drop_last().len() implies keep(
            #[trigger] s.drop_last()[i],
        ) by {
            assert(s.drop_last()[i] == s[i]);
        }
        keeping_all_changes_nothing(s.drop_last(), keep);
        assert(s.drop_last().push(s.last()) =~= s);
    }
}

/// An entry at the end of the history is counted and, where the page has room,
/// shown behind the others, exactly where it matches; the others stay as they are.
pub proof fn matches_are_shown_in_order(
    before: CachedProjection,
    after: CachedProjection,
    entry: QueryCandidate,
    query: HistoryQuery,
    texts: StringHashSet,
    looked: &str,
    looked_for: String,
    fewer: QueryProjection,
    more: QueryProjection,
    k: int,
)
    requires
        after.candidates@ == before.candidates@.push(entry),
        call_ensures(CachedProjection::project_found, (&before, &query, &texts), fewer),
        call_ensures(CachedProjection::project_found, (&after, &query, &texts), more),
        looked@ == query.query@,
        call_ensures(projection::needle, (looked,), looked_for),
        !query.collapse_self_echoes,
    ensures
        ({
            let wanted = shows_it(entry.resolved.summary, looked_for@) || texts@.contains(
                entry.resolved.summary.id@,
            );
            &&& more.matched == fewer.matched + if wanted {
                1int
            } else {
                0
            }
            &&& 0 <= k < fewer.entries@.len() ==> more.entries@.len() > k && more.entries@[k] == (
            EntrySummary { current: more.entries@[k].current, ..fewer.entries@[k] })
            &&& wanted && more.entries@.len() > fewer.entries@.len() ==> more.entries@.last() == (
            EntrySummary { current: more.entries@.last().current, ..entry.resolved.summary })
            &&& wanted && query.offset == 0 && query.limit >= 200 && fewer.matched < 200
                ==> more.entries@.len() == fewer.entries@.len() + 1
        }),
{
    let small = before.candidates@;
    let large = after.candidates@;
    let keep = |c: QueryCandidate|
        projection::matches(c.resolved.summary, projection::needle_of(query.query@))
            || texts@.contains(c.id());
    let first_ids = projection::ids_of(small);
    let second_ids = projection::ids_of(large);
    keeping_all_changes_nothing(small, |c: QueryCandidate| c.source(false, first_ids) is None);
    keeping_all_changes_nothing(large, |c: QueryCandidate| c.source(false, second_ids) is None);
    matching_is_showing(entry.resolved.summary, looked_for@);
    reveal(Seq::filter);
    assert(large.drop_last() =~= small);
    let a = before.found(query, texts@);
    let b = after.found(query, texts@);
    assert(a == small.filter(keep));
    assert(b == large.filter(keep));
    let first = projection::page_of(a, query.offset as int, query.limit);
    let second = projection::page_of(b, query.offset as int, query.limit);
    assert(fewer.entries@.len() == first.len());
    assert(more.entries@.len() == second.len());
    if 0 <= k < first.len() {
        assert(first[k] == a[query.offset + k]);
        assert(second[k] == b[query.offset + k]);
        assert(a[query.offset + k] == b[query.offset + k]);
    }
    if keep(entry) && second.len() > first.len() {
        assert(second.last() == b[b.len() - 1]);
    }
}

/// The current entry is the first one that is stored where the newest is; without
/// collapsing it is that entry itself that is shown as current.
pub proof fn the_newest_entry_is_current(
    history: CachedProjection,
    query: HistoryQuery,
    shown: QueryProjection,
    i: int,
)
    requires
        call_ensures(CachedProjection::project, (&history, &query), shown),
        !query.collapse_self_echoes,
        0 <= i < history.candidates@.len(),
        history.current_id == Some(history.candidates@[i].raw_id),
        forall|j: int|
            0 <= j < i ==> history.current_id != Some((#[trigger] history.candidates@[j]).raw_id),
    ensures
        shown.current matches Some(current) && current.current && current.id@
            == history.candidates@[i].resolved.summary.id@,
{
    let all = history.candidates@;
    let ids = projection::ids_of(all);
    let alone = |c: QueryCandidate| c.source(false, ids) is None;
    keeping_all_changes_nothing(all, alone);
    assert(projection::visible(all, false) == all.filter(alone));
    the_first_stored_there(all, history.current_id, ids, i);
    current_is_listed(all, history.current_for(false));
}

proof fn the_first_stored_there(
    all: Seq<QueryCandidate>,
    raw: Option<u64>,
    ids: Set<Seq<char>>,
    i: int,
)
    requires
        0 <= i < all.len(),
        raw == Some(all[i].raw_id),
        forall|j: int| 0 <= j < i ==> raw != Some((#[trigger] all[j]).raw_id),
    ensures
        projection::current_of(all, raw, false, ids) == Some(all[i].id()),
    decreases i,
{
    if i > 0 {
        let rest = all.drop_first();
        assert forall|j: int| 0 <= j < i - 1 implies raw != Some((#[trigger] rest[j]).raw_id) by {
            assert(rest[j] == all[j + 1]);
        }
        assert(all[0].raw_id != all[i].raw_id);
        the_first_stored_there(rest, raw, ids, i - 1);
    }
}

/// A page says that there is more exactly where matches are left behind it, and
/// then where they begin; what it was asked with comes back with it, and what was
/// shown is what can be acted on.
pub proof fn pages_say_whether_there_is_more(
    before: RingboardBackend,
    query: HistoryQuery,
    token: u64,
    shown: QueryProjection,
    after: RingboardBackend,
    page: HistoryPage,
)
    requires
        query.offset + shown.entries@.len() <= usize::MAX,
        exists|asked: &mut RingboardBackend|
            *asked == before && *final(asked) == after && #[trigger] call_ensures(
                RingboardBackend::finalize_query,
                (asked, &query, token, shown),
                page,
            ),
    ensures
        page.has_more <==> query.offset + shown.entries@.len() < shown.matched,
        page.has_more ==> page.next_offset is Some && page.next_offset->0 == query.offset
            + shown.entries@.len(),
        !page.has_more ==> page.next_offset is None,
        page.generation == query.generation,
        page.entries@ == shown.entries@,
        page.current == shown.current,
        page.revision == after.revision.revision,
        after.ids@ == shown.bindings@,
        after.revision.token == Some(token),
        before.revision.token == Some(token) ==> page.revision == before.revision.revision,
        before.revision.token != Some(token) && before.revision.revision < u64::MAX
            ==> page.revision == before.revision.revision + 1,
{
}

/// The revision goes up by one with each other state of the history.
pub proof fn revisions_count_the_states(
    before: RevisionState,
    token: u64,
    after: RevisionState,
    revision: u64,
)
    requires
        exists|asked: &mut RevisionState|
            *asked == before && *final(asked) == after && #[trigger] call_ensures(
                RevisionState::revision_for,
                (asked, token),
                revision,
            ),
    ensures
        after.token == Some(token),
        revision == after.revision,
        before.token == Some(token) ==> revision == before.revision,
        before.token != Some(token) && before.revision < u64::MAX ==> revision == before.revision
            + 1,
        before.token != Some(token) && before.revision == u64::MAX ==> revision == u64::MAX,
{
}

/// A history is kept for its own state only.
pub proof fn what_was_read_is_kept_for_its_state(
    before: SummaryCache,
    token: u64,
    after: SummaryCache,
)
    requires
        exists|asked: &mut SummaryCache|
            *asked == before && *final(asked) == after && #[trigger] call_ensures(
                SummaryCache::select_token,
                (asked, token),
                (),
            ),
    ensures
        after.token == Some(token),
        before.token == Some(token) ==> after.projection == before.projection,
        before.token != Some(token) ==> after.projection is None,
{
}

/// A history that changed while it was read is shown to nobody, and one that could
/// not be read completely is not kept.
pub proof fn only_steady_histories_are_shown(
    before: RingboardBackend,
    query: HistoryQuery,
    texts: StringHashSet,
    token: u64,
    now: u64,
    history: CachedProjection,
    after: RingboardBackend,
    result: BackendResult<QueryProjection>,
)
    requires
        exists|asked: &mut RingboardBackend|
            *asked == before && *final(asked) == after && #[trigger] call_ensures(
                RingboardBackend::collect_query_projection,
                (asked, &query, &texts, token, now, history),
                result,
            ),
    ensures
        result is Ok <==> token == now,
        token == now && history.complete ==> after.summaries.projection == Some(history),
        token == now && !history.complete ==> after.summaries.projection
            == before.summaries.projection,
        token != now ==> after.summaries.projection is None && (result matches Err(error)
            && error.kind is Stale),
        after.ids@ == before.ids@,
{
}

/// Every entry that could be read is in the history, in the order of the readings;
/// one whose content is damaged or gone is left out, and any other failure fails
/// the whole reading.
pub proof fn histories_hold_what_could_be_read(
    newest: Option<u64>,
    reads: Vec<(u64, EntryRead)>,
    result: BackendResult<CachedProjection>,
    i: int,
)
    requires
        call_ensures(ringboard::load_projection, (newest, reads), result),
        0 <= i < reads@.len(),
    ensures
        (reads@[i].1 matches EntryRead::Failed(error) && !(error.kind is InvalidData
            || error.kind is NotFound)) ==> result is Err,
        result matches Ok(history) ==> {
            &&& history.current_id == newest
            &&& reads@[i].1 matches EntryRead::Summarized(resolved) ==> exists|j: int|
                0 <= j < history.candidates@.len() && #[trigger] history.candidates@[j] == (
                QueryCandidate { raw_id: reads@[i].0, resolved })
            &&& !(reads@[i].1 is Summarized) ==> !history.complete
            &&& history.complete ==> history.candidates@.len() == reads@.len()
                && history.candidates@[i].raw_id == reads@[i].0 && reads@[i].1
                == EntryRead::Summarized(history.candidates@[i].resolved)
        },
        result matches Err(error) ==> !(error.kind is InvalidData || error.kind is NotFound),
{
    if let Ok(history) = result {
        readings_are_kept(reads@, i);
        if history.complete {
            assert forall|j: int| 0 <= j < reads@.len() implies (
            #[trigger] reads@[j]).1 is Summarized by {
                assert(!ringboard::skipped(reads@[j].1));
                assert(!ringboard::fatal(reads@[j].1));
            }
            whole_readings_are_kept(reads@, i);
        }
        if !(reads@[i].1 is Summarized) {
            assert(!ringboard::fatal(reads@[i].1));
        }
    }
    if result is Err {
        let j = choose|j: int|
            0 <= j < reads@.len() && ringboard::fatal((#[trigger] reads@[j]).1) && reads@[j].1
                == EntryRead::Failed(result->Err_0) && forall|k: int|
                0 <= k < j ==> !ringboard::fatal((#[trigger] reads@[k]).1);
        assert(ringboard::fatal(reads@[j].1));
    }
}

proof fn readings_are_kept(reads: Seq<(u64, EntryRead)>, i: int)
    requires
        0 <= i < reads.len(),
    ensures
        reads[i].1 matches EntryRead::Summarized(resolved) ==> exists|j: int|
            0 <= j < ringboard::readable(reads).len() && #[trigger] ringboard::readable(reads)[j]
                == (QueryCandidate { raw_id: reads[i].0, resolved }),
    decreases reads.len(),
{
    if let EntryRead::Summarized(resolved) = reads[i].1 {
        let all = ringboard::readable(reads);
        let before = ringboard::readable(reads.drop_last());
        if i == reads.len() - 1 {
            assert(all[all.len() - 1] == (QueryCandidate { raw_id: reads[i].0, resolved }));
        } else {
            assert(reads.drop_last()[i] == reads[i]);
            readings_are_kept(reads.drop_last(), i);
            let j = choose|j: int|
                0 <= j < before.len() && #[trigger] before[j] == (QueryCandidate {
                    raw_id: reads[i].0,
                    resolved,
                });
            assert(all[j] == before[j]);
        }
    }
}

proof fn whole_readings_are_kept(reads: Seq<(u64, EntryRead)>, i: int)
    requires
        0 <= i < reads.len(),
        forall|j: int| 0 <= j < reads.len() ==> (#[trigger] reads[j]).1 is Summarized,
    ensures
        ringboard::readable(reads).len() == reads.len(),
        ringboard::readable(reads)[i].raw_id == reads[i].0,
        reads[i].1 == EntryRead::Summarized(ringboard::readable(reads)[i].resolved),
    decreases reads.len(),
{
    let front = reads.drop_last();
    assert forall|j: int| 0 <= j < front.len() implies (#[trigger] front[j]).1 is Summarized by {
        assert(front[j] == reads[j]);
    }
    assert(reads.last() == reads[reads.len() - 1]);
    if i < front.len() {
        assert(front[i] == reads[i]);
        whole_readings_are_kept(front, i);
    } else if front.len() > 0 {
        whole_readings_are_kept(front, 0);
    }
}

/// An entry is acted on only as it was shown: it has the identifier that was asked
/// for, the revision with which it was shown, and the one that the caller saw. An
/// identifier that turns out to stand for something else is forgotten, and no other.
pub proof fn entries_are_acted_on_as_they_were_shown(
    before: RingboardBackend,
    id: &str,
    expected: Option<u64>,
    binding: IdentityBinding,
    summary: EntrySummary,
    after: RingboardBackend,
    result: BackendResult<()>,
)
    requires
        exists|asked: &mut RingboardBackend|
            *asked == before && *final(asked) == after && #[trigger] call_ensures(
                RingboardBackend::verify_selection,
                (asked, id, expected, binding, &summary),
                result,
            ),
    ensures
        result is Ok <==> summary.id@ == id@ && summary.revision == binding.revision && (
        expected is None || expected->0 == summary.revision),
        result matches Err(error) ==> error.kind is Stale && !after.ids@.contains_key(id@),
        result is Ok ==> after.ids@ == before.ids@,
        forall|other: Seq<char>|
            other != id@ ==> (after.ids@.contains_key(other) <==> before.ids@.contains_key(other)),
        forall|other: Seq<char>|
            other != id@ && before.ids@.contains_key(other) ==> #[trigger] after.ids@[other]
                == before.ids@[other],
{
}

/// An identifier stands for the entry that it was bound to last, and for nothing
/// once all was forgotten.
pub proof fn identifiers_stand_for_what_was_bound(
    before: RingboardBackend,
    raw_id: u64,
    summary: EntrySummary,
    id: &str,
    after: RingboardBackend,
    result: BackendResult<IdentityBinding>,
    old_result: BackendResult<IdentityBinding>,
)
    requires
        exists|asked: &mut RingboardBackend|
            *asked == before && *final(asked) == after && #[trigger] call_ensures(
                RingboardBackend::bind,
                (asked, raw_id, &summary),
                (),
            ),
        call_ensures(RingboardBackend::resolve, (&after, id), result),
        call_ensures(RingboardBackend::resolve, (&before, id), old_result),
    ensures
        id@ == summary.id@ ==> (result matches Ok(binding) && binding.raw_id == raw_id
            && binding.revision == summary.revision),
        id@ != summary.id@ ==> (result is Ok <==> old_result is Ok),
        id@ != summary.id@ && result is Ok ==> result->Ok_0 == old_result->Ok_0,
        result matches Err(error) ==> error.kind is NotFound,
{
}

/// Nothing is known any more once what was shown was forgotten.
pub proof fn nothing_stands_for_anything_once_forgotten(
    before: RingboardBackend,
    after: RingboardBackend,
    id: &str,
    result: BackendResult<IdentityBinding>,
)
    requires
        exists|asked: &mut RingboardBackend|
            *asked == before && *final(asked) == after && #[trigger] call_ensures(
                RingboardBackend::clear_identity_state,
                (asked,),
                (),
            ),
        call_ensures(RingboardBackend::resolve, (&after, id), result),
    ensures
        result matches Err(error) && error.kind is NotFound,
        after.summaries.projection is None,
        after.summaries.token is None,
{
}

/// What is shown of an entry: its place and its content decide its identifier and
/// its revision; size, mark and meaning are those of the entry.
pub proof fn summaries_tell_what_the_entry_is(
    backend: RingboardBackend,
    entry: StoredEntry,
    whole: &[u8],
    content: ResolvedContent,
    file: LocalFile,
    resolved: ResolvedEntry,
    digest: [u8; 32],
    fingerprint: [u8; 32],
    id: String,
    revision: u64,
)
    requires
        call_ensures(
            RingboardBackend::summarize_content,
            (&backend, &entry, whole, &content, &file),
            resolved,
        ),
        call_ensures(identity::content_digest, (whole,), digest),
        fingerprint@ == crate::digest::sha256_of(
            encode_utf8("clip-daemon:entry-fingerprint:v4:"@) + (spec_u64_to_le_bytes(entry.raw_id)
                + spec_u64_to_le_bytes(entry.byte_size) + encode_utf8(resolved.summary.mime@)
                + digest@),
        ),
        call_ensures(identity::opaque_id, (&fingerprint,), id),
        call_ensures(identity::entry_revision, (&fingerprint,), revision),
    ensures
        resolved.summary.id@ == id@,
        resolved.summary.revision == revision,
        resolved.summary.byte_size == entry.byte_size,
        resolved.summary.favorite == entry.favorite,
        resolved.summary.kind == content.kind,
        !resolved.summary.current,
{
}

/// An edit is done whether or not it could be put on the clipboard, and which of
/// the two is told; where it could not be, nothing that was shown counts.
pub proof fn edits_are_told_as_they_went(
    before: RingboardBackend,
    entry: EntryDetails,
    publication: Result<(), BackendError>,
    after: RingboardBackend,
    result: ReplacementResult,
)
    requires
        exists|asked: &mut RingboardBackend|
            *asked == before && *final(asked) == after && #[trigger] call_ensures(
                RingboardBackend::replaced,
                (asked, entry, publication),
                result,
            ),
    ensures
        result.entry == entry,
        result.selection_published <==> publication is Ok,
        publication is Ok ==> after.ids@ == before.ids@,
        publication is Err ==> forall|id: Seq<char>| !(#[trigger] after.ids@.contains_key(id)),
        publication is Err ==> after.summaries.projection is None,
{
}

/// The store is said to be available exactly where its history could be opened.
pub proof fn availability_is_told(opened: Result<(), BackendError>, status: BackendStatus)
    requires
        call_ensures(ringboard::status, (opened,), status),
    ensures
        status.available <==> opened is Ok,
        opened matches Err(error) ==> status.detail@ == error.message@,
        status.engine@ == "ringboard"@,
{
}

/// The details of an entry show its text up to the size that was asked for, at most
/// 256 KiB, and say whether there is more.
pub proof fn details_show_the_beginning(
    summary: EntrySummary,
    head: &[u8],
    max_text_bytes: usize,
    probes: &[FileProbe],
    details: EntryDetails,
    read_limit: usize,
)
    requires
        call_ensures(ringboard::entry_details, (summary, head, max_text_bytes, probes), details),
        call_ensures(ringboard::details_read_limit, (max_text_bytes,), read_limit),
    ensures
        ({
            let limit: int = if max_text_bytes < 262_144 {
                max_text_bytes as int
            } else {
                262_144
            };
            let shown = if head@.len() <= limit {
                head@
            } else {
                head@.take(limit)
            };
            &&& read_limit == limit + 1
            &&& details.entry == summary
            &&& details.preview_truncated <==> head@.len() > limit
            &&& details.text is Some <==> valid_utf8(shown)
            &&& details.text matches Some(text) ==> text@ == decode_utf8(shown)
        }),
{
}

/// What a look at an entry asks for once it has the entry, and what it gives: the
/// revision itself; for details one byte more than they show; for a thumbnail the
/// first 64 KiB.
pub proof fn looks_read_what_they_need(
    before: RingboardBackend,
    job: GlanceJob,
    binding: IdentityBinding,
    resolved: ResolvedEntry,
    after: RingboardBackend,
    next: GlanceJob,
    action: GlanceAction,
)
    requires
        job.stage == (GlanceStage::Loading { binding }),
        details::glance_advanced(
            before,
            job,
            GlanceEvent::Loaded(Loaded::Entry(resolved)),
            after,
            next,
            action,
        ),
    ensures
        resolved.summary.id@ == job.id@ && resolved.summary.revision == binding.revision && (
        job.revision is None || job.revision->0 == resolved.summary.revision) ==> match job.glance {
            Glance::Revision => action == GlanceAction::Done(
                Ok(Seen::Revision(resolved.summary.revision)),
            ),
            Glance::Details { max_text_bytes } => action == (GlanceAction::ReadHead {
                raw_id: binding.raw_id,
                limit: (if max_text_bytes <= 262_144 {
                    max_text_bytes + 1
                } else {
                    262_145
                }) as usize,
            }),
            Glance::Thumbnail { .. } => action == (GlanceAction::ReadHead {
                raw_id: binding.raw_id,
                limit: 65_536,
            }),
        },
        !(resolved.summary.id@ == job.id@ && resolved.summary.revision == binding.revision && (
        job.revision is None || job.revision->0 == resolved.summary.revision)) ==> (
        action matches GlanceAction::Done(Err(error)) && error.kind is Stale),
{
}

/// A look begins with the entry that its identifier stands for.
pub proof fn looks_begin_with_the_entry(
    backend: RingboardBackend,
    glance: Glance,
    id: String,
    revision: Option<u64>,
    next: (GlanceJob, GlanceAction),
)
    requires
        call_ensures(RingboardBackend::begin_glance, (&backend, glance, id, revision), next),
    ensures
        backend.ids@.contains_key(id@) ==> next.1 == (GlanceAction::Load {
            raw_id: backend.ids@[id@].raw_id,
        }),
        !backend.ids@.contains_key(id@) ==> (next.1 matches GlanceAction::Done(Err(error))
            && error.kind is NotFound),
        next.0.glance == glance,
        next.0.id@ == id@,
        next.0.revision == revision,
{
}

/// What a look at the details gives in the end is the entry that was read, with its
/// text as far as it is shown.
pub proof fn looks_show_what_was_read(
    before: RingboardBackend,
    job: GlanceJob,
    max_text_bytes: usize,
    summary: EntrySummary,
    head: Vec<u8>,
    probes: Vec<FileProbe>,
    after: RingboardBackend,
    next: GlanceJob,
    action: GlanceAction,
)
    requires
        job.stage == (GlanceStage::Probing { summary, head }),
        job.glance == (Glance::Details { max_text_bytes }),
        details::glance_advanced(
            before,
            job,
            GlanceEvent::Probed(probes),
            after,
            next,
            action,
        ),
    ensures
        action matches GlanceAction::Done(Ok(Seen::Details(seen))) && seen.entry == summary && (
        seen.preview_truncated <==> head@.len() > max_text_bytes || head@.len() > 262_144) && (
        head@.len() <= max_text_bytes && head@.len() <= 262_144 ==> (seen.text is Some
            <==> valid_utf8(head@))) && (head@.len() <= max_text_bytes && head@.len() <= 262_144
            && seen.text is Some ==> seen.text->0@ == decode_utf8(head@)),
{
}

/// The MIME type of an entry is what its file says, or nothing.
pub proof fn stored_types_are_read_as_they_are(
    attribute: Result<Option<Vec<u8>>, ()>,
    mime: BackendResult<String>,
)
    requires
        call_ensures(ringboard::stored_mime_type, (attribute,), mime),
    ensures
        attribute is Err ==> mime is Err,
        attribute matches Ok(None) ==> (mime matches Ok(mime) && mime@.len() == 0),
        attribute matches Ok(Some(bytes)) ==> (mime is Ok <==> valid_utf8(bytes@)),
        attribute matches Ok(Some(bytes)) ==> (mime matches Ok(mime) ==> mime@ == decode_utf8(
            bytes@,
        )),
{
    reveal_strlit("");
}

/// What was read before is shown only for the state that it was read in.
pub proof fn kept_histories_are_shown_for_their_state(
    before: RingboardBackend,
    query: HistoryQuery,
    texts: StringHashSet,
    token: u64,
    after: RingboardBackend,
    shown: Option<QueryProjection>,
)
    requires
        exists|asked: &mut RingboardBackend|
            *asked == before && *final(asked) == after && #[trigger] call_ensures(
                RingboardBackend::cached_projection,
                (asked, &query, &texts, token),
                shown,
            ),
    ensures
        shown is Some <==> before.summaries.token == Some(token)
            && before.summaries.projection is Some,
        shown matches Some(shown) ==> before.summaries.projection->0.shows(query, texts@, shown),
        after.summaries.token == Some(token),
        after.ids@ == before.ids@,
{
}

/// An entry stands for another only where echoes are collapsed and the other is in the
/// history; every entry that no other stands for is listed with its state.
pub proof fn echoes_are_collapsed_where_asked(
    history: CachedProjection,
    entry: QueryCandidate,
    collapse: bool,
    ids: StringHashSet,
    source: Option<&String>,
    states: Vec<(String, u64)>,
    i: int,
)
    requires
        call_ensures(QueryCandidate::collapsed_source, (&entry, collapse, &ids), source),
        call_ensures(CachedProjection::shown_states, (&history, false), states),
    ensures
        source is Some <==> collapse && (entry.resolved.echo_source_id matches Some(id)
            && ids@.contains(id@)),
        source matches Some(id) ==> entry.resolved.echo_source_id is Some && id@
            == entry.resolved.echo_source_id->0@,
        states@.len() == history.candidates@.len(),
        0 <= i < states@.len() ==> states@[i].0 == history.candidates@[i].resolved.summary.id
            && states@[i].1 == history.candidates@[i].resolved.summary.revision,
{
    let all = history.candidates@;
    let known = projection::ids_of(all);
    let alone = |c: QueryCandidate| c.source(false, known) is None;
    keeping_all_changes_nothing(all, alone);
    assert(projection::visible(all, false) == all.filter(alone));
    if 0 <= i < states@.len() {
        assert(states@[i].0 == projection::visible(all, false)[i].resolved.summary.id);
    }
}

/// What is shown of an entry is what it was read as, whole and as large as it is said to
/// be; one that could not be read, or changed meanwhile, is told as that.
pub proof fn entries_are_summarized_as_they_were_read(
    backend: RingboardBackend,
    entry: StoredEntry,
    probes: &[FileProbe],
    file: LocalFile,
    result: BackendResult<ResolvedEntry>,
    reads: &[crate::stream::Read],
    input: Result<Vec<u8>, crate::stream::ReadFailed>,
)
    requires
        call_ensures(RingboardBackend::summarize, (&backend, &entry, probes, &file), result),
        reads@ == entry.reads@,
        call_ensures(crate::stream::read_all, (reads,), input),
    ensures
        result is Ok <==> input is Ok && input->Ok_0@.len() == entry.byte_size,
        result matches Ok(resolved) ==> resolved.summary.byte_size == entry.byte_size
            && resolved.summary.favorite == entry.favorite && !resolved.summary.current,
        result is Err && input is Err ==> result->Err_0.kind is InvalidData,
        result is Err && input is Ok ==> result->Err_0.kind is Stale,
{
}

/// An entry is proven by the digest of all it holds and the type that it is stored
/// under, and previewed by its first 64 KiB.
pub proof fn entries_are_proven_by_what_they_hold(
    backend: RingboardBackend,
    entry: StoredEntry,
    whole: &[u8],
    content: ResolvedContent,
    file: LocalFile,
    resolved: ResolvedEntry,
    digest: [u8; 32],
    mime: &str,
    proof_of_content: [u8; 32],
    preview: String,
)
    requires
        call_ensures(
            RingboardBackend::summarize_content,
            (&backend, &entry, whole, &content, &file),
            resolved,
        ),
        call_ensures(identity::content_digest, (whole,), digest),
        mime@ == entry.mime@,
        call_ensures(crate::ringboard::ipc::content_proof, (&digest, mime), proof_of_content),
        call_ensures(crate::classification::bounded_preview, (whole, 65_536), preview),
    ensures
        resolved.proof@ == proof_of_content@,
        resolved.summary.preview@ == preview@,
{
}

/// Nothing is known of a store that was not read yet.
pub proof fn stores_begin_unread(
    artifacts: crate::ringboard::artifacts::ArtifactRegistry,
    backend: RingboardBackend,
)
    requires
        call_ensures(RingboardBackend::new, (artifacts,), backend),
    ensures
        forall|id: Seq<char>| !(#[trigger] backend.ids@.contains_key(id)),
        backend.revision.token is None && backend.revision.revision == 0,
        backend.summaries.token is None && backend.summaries.projection is None,
        backend.artifacts == artifacts,
{
}

} // verus!
