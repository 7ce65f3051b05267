//! What a search of the whole history finds, and in which order.
use crate::actions::ApiError;
use crate::history_search;
use crate::history_search::{
    rank_entries, search_items, Catalog, Collected, Cursor, CursorScope, HistorySearch, Search,
    SearchAction, SearchEvent, SearchItem, SearchPage, Stage,
};
use crate::model::{EntrySummary, HistoryPage};
use vstd::prelude::*;
use vstd::string::*;

verus! {

proof fn last_is_found(entries: Seq<EntrySummary>, id: Seq<char>)
    ensures
        -1 <= history_search::last_with(entries, id) < entries.len(),
        history_search::last_with(entries, id) >= 0 ==> entries[history_search::last_with(
            entries,
            id,
        )].id@ == id,
        forall|i: int|
            history_search::last_with(entries, id) < i < entries.len() ==> (#[trigger] entries[i]).id@
                != id,
    decreases entries.len(),
{
    if entries.len() > 0 && entries.last().id@ != id {
        last_is_found(entries.drop_last(), id);
        assert forall|i: int|
            history_search::last_with(entries, id) < i < entries.len() implies (
        #[trigger] entries[i]).id@ != id by {
            if i < entries.len() - 1 {
                assert(entries.drop_last()[i] == entries[i]);
            }
        }
    }
}

/// Every key that is the identifier of an entry gives a result.
proof fn each_key_gives_a_result(entries: Seq<EntrySummary>, keys: Seq<String>, i: int, k: int)
    requires
        0 <= i < entries.len(),
        0 <= k < keys.len(),
        entries[i].id@ == keys[k]@,
    ensures
        exists|r: int|
            0 <= r < history_search::ranked(entries, keys).len() && (
            #[trigger] history_search::ranked(entries, keys)[r]).id@ == keys[k]@,
    decreases keys.len(),
{
    let id = keys.last()@;
    let front = keys.drop_last();
    let n = keys.len() - 1;
    last_is_found(entries, id);
    let done = history_search::ranked(entries, front);
    let found = history_search::ranked(entries, keys);
    assert(keys[n]@ == id);
    if k < n || history_search::has_key(front, id) {
        let place = if k < n {
            k
        } else {
            choose|j: int| 0 <= j < front.len() && (#[trigger] front[j])@ == id
        };
        assert(front[place]@ == keys[k]@);
        each_key_gives_a_result(entries, front, i, place);
        let r = choose|r: int| 0 <= r < done.len() && (#[trigger] done[r]).id@ == front[place]@;
        assert(found[r] == done[r]);
    } else {
        assert(history_search::last_with(entries, id) >= i);
        assert(found[done.len() as int].id@ == id);
    }
}

/// Every result is the last entry with its identifier, and has a key.
proof fn results_are_entries(entries: Seq<EntrySummary>, keys: Seq<String>, r: int)
    requires
        0 <= r < history_search::ranked(entries, keys).len(),
    ensures
        ({
            let found = history_search::ranked(entries, keys)[r];
            &&& exists|k: int| 0 <= k < keys.len() && (#[trigger] keys[k])@ == found.id@
            &&& exists|i: int|
                0 <= i < entries.len() && #[trigger] entries[i] == found && forall|j: int|
                    i < j < entries.len() ==> (#[trigger] entries[j]).id@ != found.id@
        }),
    decreases keys.len(),
{
    let id = keys.last()@;
    let front = keys.drop_last();
    let n = keys.len() - 1;
    last_is_found(entries, id);
    let done = history_search::ranked(entries, front);
    let found = history_search::ranked(entries, keys);
    if r < done.len() {
        assert(found[r] == done[r]);
        results_are_entries(entries, front, r);
        let k = choose|k: int| 0 <= k < front.len() && (#[trigger] front[k])@ == done[r].id@;
        assert(keys[k]@ == found[r].id@);
    } else {
        assert(keys[n]@ == id);
        assert(entries[history_search::last_with(entries, id)] == found[r]);
    }
}

/// A result stands before another where its key occurs before any key of the
/// other; no two have the same identifier.
proof fn results_are_in_order(
    entries: Seq<EntrySummary>,
    keys: Seq<String>,
    a: int,
    b: int,
    k: int,
)
    requires
        0 <= a < b < history_search::ranked(entries, keys).len(),
        0 <= k < keys.len(),
        keys[k]@ == history_search::ranked(entries, keys)[b].id@,
    ensures
        history_search::ranked(entries, keys)[a].id@ != history_search::ranked(entries, keys)[b].id@,
        exists|j: int|
            0 <= j < k && (#[trigger] keys[j])@ == history_search::ranked(entries, keys)[a].id@,
    decreases keys.len(),
{
    let id = keys.last()@;
    let front = keys.drop_last();
    let n = keys.len() - 1;
    last_is_found(entries, id);
    let done = history_search::ranked(entries, front);
    let found = history_search::ranked(entries, keys);
    assert(found[a] == done[a]);
    results_are_entries(entries, front, a);
    if b < done.len() {
        assert(found[b] == done[b]);
        results_are_entries(entries, front, b);
        let c = if k < n {
            k
        } else {
            choose|c: int| 0 <= c < front.len() && (#[trigger] front[c])@ == done[b].id@
        };
        assert(front[c]@ == done[b].id@);
        results_are_in_order(entries, front, a, b, c);
        let j = choose|j: int| 0 <= j < c && (#[trigger] front[j])@ == done[a].id@;
        assert(keys[j]@ == found[a].id@);
    } else {
        let j = choose|j: int| 0 <= j < front.len() && (#[trigger] front[j])@ == done[a].id@;
        if k < n {
            assert(front[k]@ == id);
            assert(history_search::has_key(front, id));
        }
        if done[a].id@ == id {
            assert(front[j]@ == id);
            assert(history_search::has_key(front, id));
        }
        assert(keys[j]@ == found[a].id@);
    }
}

/// A ranking leaves nothing out and adds nothing: every key that is the identifier
/// of an entry gives one, the last one with that identifier, and nothing else is
/// returned, none twice. Results stand in the order in which their keys first
/// occur.
pub proof fn rankings_are_complete_and_in_order(
    entries: Vec<EntrySummary>,
    keys: Vec<String>,
    found: Vec<EntrySummary>,
)
    requires
        call_ensures(rank_entries, (&entries, &keys), found),
    ensures
        forall|i: int, k: int|
            #![trigger entries@[i], keys@[k]]
            0 <= i < entries@.len() && 0 <= k < keys@.len() && entries@[i].id@ == keys@[k]@
                ==> exists|r: int| 0 <= r < found@.len() && (#[trigger] found@[r]).id@ == keys@[k]@,
        forall|r: int|
            #![trigger found@[r]]
            0 <= r < found@.len() ==> exists|k: int|
                0 <= k < keys@.len() && (#[trigger] keys@[k])@ == found@[r].id@,
        forall|r: int|
            #![trigger found@[r]]
            0 <= r < found@.len() ==> exists|i: int|
                0 <= i < entries@.len() && #[trigger] entries@[i] == found@[r] && forall|j: int|
                    i < j < entries@.len() ==> (#[trigger] entries@[j]).id@ != found@[r].id@,
        forall|a: int, b: int, k: int|
            #![trigger found@[a], found@[b], keys@[k]]
            0 <= a < b < found@.len() && 0 <= k < keys@.len() && keys@[k]@ == found@[b].id@
                ==> exists|j: int| 0 <= j < k && (#[trigger] keys@[j])@ == found@[a].id@,
        forall|a: int, b: int|
            #![trigger found@[a], found@[b]]
            0 <= a < b < found@.len() ==> found@[a].id@ != found@[b].id@,
{
    assert forall|i: int, k: int|
        #![trigger entries@[i], keys@[k]]
        0 <= i < entries@.len() && 0 <= k < keys@.len() && entries@[i].id@ == keys@[k]@ implies exists|
        r: int,
    | 0 <= r < found@.len() && (#[trigger] found@[r]).id@ == keys@[k]@ by {
        each_key_gives_a_result(entries@, keys@, i, k);
    }
    assert forall|r: int| #![trigger found@[r]] 0 <= r < found@.len() implies (exists|k: int|
        0 <= k < keys@.len() && (#[trigger] keys@[k])@ == found@[r].id@) && exists|i: int|
        0 <= i < entries@.len() && #[trigger] entries@[i] == found@[r] && forall|j: int|
            i < j < entries@.len() ==> (#[trigger] entries@[j]).id@ != found@[r].id@ by {
        results_are_entries(entries@, keys@, r);
    }
    assert forall|a: int, b: int, k: int|
        #![trigger found@[a], found@[b], keys@[k]]
        0 <= a < b < found@.len() && 0 <= k < keys@.len() && keys@[k]@ == found@[b].id@ implies exists|
        j: int,
    | 0 <= j < k && (#[trigger] keys@[j])@ == found@[a].id@ by {
        results_are_in_order(entries@, keys@, a, b, k);
    }
    assert forall|a: int, b: int|
        #![trigger found@[a], found@[b]]
        0 <= a < b < found@.len() implies found@[a].id@ != found@[b].id@ by {
        results_are_entries(entries@, keys@, b);
        let k = choose|k: int| 0 <= k < keys@.len() && (#[trigger] keys@[k])@ == found@[b].id@;
        results_are_in_order(entries@, keys@, a, b, k);
    }
}

proof fn distinct_keys_are_all_found(entries: Seq<EntrySummary>, keys: Seq<String>)
    requires
        forall|a: int, b: int| 0 <= a < b < keys.len() ==> keys[a]@ != keys[b]@,
        forall|k: int|
            #![trigger keys[k]]
            0 <= k < keys.len() ==> exists|i: int|
                0 <= i < entries.len() && (#[trigger] entries[i]).id@ == keys[k]@,
    ensures
        history_search::ranked(entries, keys).len() == keys.len(),
        forall|k: int|
            #![trigger keys[k]]
            0 <= k < keys.len() ==> history_search::ranked(entries, keys)[k].id@ == keys[k]@,
    decreases keys.len(),
{
    if keys.len() > 0 {
        let front = keys.drop_last();
        let n = keys.len() - 1;
        let id = keys[n]@;
        assert forall|a: int, b: int| 0 <= a < b < front.len() implies front[a]@ != front[b]@ by {
            assert(keys[a]@ != keys[b]@);
        }
        assert forall|k: int| #![trigger front[k]] 0 <= k < front.len() implies exists|i: int|
            0 <= i < entries.len() && (#[trigger] entries[i]).id@ == front[k]@ by {
            assert(keys[k] == front[k]);
        }
        distinct_keys_are_all_found(entries, front);
        last_is_found(entries, id);
        let i = choose|i: int| 0 <= i < entries.len() && (#[trigger] entries[i]).id@ == id;
        if history_search::has_key(front, id) {
            let k = choose|k: int| 0 <= k < front.len() && (#[trigger] front[k])@ == id;
            assert(keys[k]@ != keys[n]@);
        }
        assert forall|k: int| #![trigger keys[k]] 0 <= k < keys.len() implies history_search::ranked(
            entries,
            keys,
        )[k].id@ == keys[k]@ by {
            if k < n {
                assert(front[k] == keys[k]);
            }
        }
    }
}

/// Where the keys are different and each is the identifier of an entry, there are
/// as many results as keys, in the order of the keys.
pub proof fn as_many_are_ranked_as_matched(
    entries: Vec<EntrySummary>,
    keys: Vec<String>,
    found: Vec<EntrySummary>,
)
    requires
        call_ensures(rank_entries, (&entries, &keys), found),
        forall|a: int, b: int| 0 <= a < b < keys@.len() ==> keys@[a]@ != keys@[b]@,
        forall|k: int|
            #![trigger keys@[k]]
            0 <= k < keys@.len() ==> exists|i: int|
                0 <= i < entries@.len() && (#[trigger] entries@[i]).id@ == keys@[k]@,
    ensures
        found@.len() == keys@.len(),
        forall|k: int| #![trigger keys@[k]] 0 <= k < keys@.len() ==> found@[k].id@ == keys@[k]@,
{
    distinct_keys_are_all_found(entries@, keys@);
}

/// Every entry is put before the ranking, under its identifier and with what is
/// shown of it, its MIME type among the keywords; what is newer scores higher.
pub proof fn every_entry_is_put_before_the_ranking(
    entries: Vec<EntrySummary>,
    items: Vec<SearchItem>,
)
    requires
        call_ensures(search_items, (&entries,), items),
        entries@.len() <= i64::MAX,
    ensures
        items@.len() == entries@.len(),
        forall|i: int|
            #![trigger items@[i]]
            0 <= i < items@.len() ==> items@[i].key@ == entries@[i].id@ && (
            entries@[i].preview@.len() > 0 ==> items@[i].title@ == entries@[i].preview@)
                && items@[i].title@.len() > 0 && items@[i].keywords@.len() == 2
                && items@[i].keywords@[0]@ == entries@[i].mime@ && items@[i].provider_priority
                == 100,
        forall|i: int, j: int|
            #![trigger items@[i], items@[j]]
            0 <= i < j < items@.len() ==> items@[i].score > items@[j].score,
{
    reveal_strlit("");
    reveal_strlit(" clipboard entry");
    assert forall|i: int| #![trigger items@[i]] 0 <= i < items@.len() implies items@[i].key@
        == entries@[i].id@ && (entries@[i].preview@.len() > 0 ==> items@[i].title@
        == entries@[i].preview@) && items@[i].title@.len() > 0 && items@[i].keywords@.len() == 2
        && items@[i].keywords@[0]@ == entries@[i].mime@ && items@[i].provider_priority == 100 by {
        let words = crate::text::contents(items@[i].keywords@);
        assert(words.len() == items@[i].keywords@.len());
        assert(words[0] == items@[i].keywords@[0]@);
        if entries@[i].preview@.len() == 0 {
            assert(entries@[i].preview@ =~= ""@);
        }
    }
    let count: usize = entries.len();
    assert(count == entries@.len());
    assert forall|i: int, j: int| #![trigger items@[i], items@[j]] 0 <= i < j < items@.len() implies
        items@[i].score > items@[j].score by {
        assert(items@[i].score == entries@.len() - i);
        assert(items@[j].score == entries@.len() - j);
    }
}

/// A page of results is a stretch of them, from where its cursor stands: as many
/// as were asked for, or as there are. It says how many there are in all, and
/// whether any follow.
pub proof fn pages_are_stretches_of_the_results(
    search: HistorySearch,
    catalog: Catalog,
    cursor: Cursor,
    limit: usize,
    scope: CursorScope<'_>,
    page: SearchPage,
)
    requires
        call_ensures(HistorySearch::page, (&search, catalog, cursor, limit, scope), Ok(page)),
    ensures
        page.total == catalog.entries@.len(),
        page.offset == cursor.offset,
        page.revision == cursor.token,
        page.current == catalog.current,
        page.search_limited == catalog.limited,
        page.generation == scope.generation,
        cursor.offset >= catalog.entries@.len() ==> page.entries@.len() == 0,
        cursor.offset < catalog.entries@.len() ==> page.entries@.len() == if limit
            <= catalog.entries@.len() - cursor.offset {
            limit as int
        } else {
            catalog.entries@.len() - cursor.offset
        },
        forall|i: int|
            #![trigger page.entries@[i]]
            0 <= i < page.entries@.len() ==> page.entries@[i] == catalog.entries@[cursor.offset
                + i],
        page.has_more <==> cursor.offset + page.entries@.len() < catalog.entries@.len(),
        page.next_cursor is Some <==> page.has_more,
        page.next_cursor matches Some(value) ==> history_search::issued(
            search.key@,
            Cursor {
                token: cursor.token,
                offset: (cursor.offset + page.entries@.len()) as usize,
                expires: cursor.expires,
            },
            scope.view(),
            value@,
        ),
{
}

/// The history is collected page by page: each is put behind what was collected
/// before, and the next one is asked for from there, until there is no more or
/// five thousand entries are known. That some were left out is kept in mind.
pub proof fn the_history_is_collected_in_order(
    catalog: Catalog,
    page: HistoryPage,
    collected: Collected,
)
    requires
        call_ensures(Catalog::receive, (catalog, page), Ok(collected)),
    ensures
        ({
            let known = match collected {
                Collected::More(known) => known,
                Collected::All(known) => known,
            };
            let count = catalog.entries@.len();
            &&& known.entries@.len() == count + page.entries@.len()
            &&& forall|i: int|
                #![trigger known.entries@[i]]
                0 <= i < known.entries@.len() ==> known.entries@[i] == if i < count {
                    catalog.entries@[i]
                } else {
                    page.entries@[i - count]
                }
            &&& known.limited == page.has_more
            &&& catalog.current is Some ==> known.current == catalog.current
            &&& catalog.current is None ==> known.current == page.current
            &&& collected is More <==> page.has_more && known.entries@.len() < 5000
        }),
{
}

/// What a search returns are entries that it collected and that were ranked: the
/// ranking is asked about all of them, and its keys decide what is returned.
pub proof fn a_search_returns_what_was_ranked(
    key: Seq<u8>,
    before: Search,
    keys: Vec<String>,
    elapsed: u64,
    after: Search,
    action: SearchAction,
    catalog: Catalog,
    cursor: Cursor,
)
    requires
        before.stage == (Stage::Ranking { cursor, catalog }),
        history_search::search_advanced(
            key,
            before,
            SearchEvent::Ranked(Some(keys)),
            elapsed,
            after,
            action,
        ),
    ensures
        after.stage matches Stage::Finishing { cursor: same, catalog: ordered } && same == cursor
            && (forall|i: int, k: int|
            #![trigger catalog.entries@[i], keys@[k]]
            0 <= i < catalog.entries@.len() && 0 <= k < keys@.len() && catalog.entries@[i].id@
                == keys@[k]@ ==> exists|r: int|
                0 <= r < ordered.entries@.len() && (#[trigger] ordered.entries@[r]).id@
                    == keys@[k]@) && (forall|a: int, b: int, k: int|
            #![trigger ordered.entries@[a], ordered.entries@[b], keys@[k]]
            0 <= a < b < ordered.entries@.len() && 0 <= k < keys@.len() && keys@[k]@
                == ordered.entries@[b].id@ ==> exists|j: int|
                0 <= j < k && (#[trigger] keys@[j])@ == ordered.entries@[a].id@),
{
    let found = history_search::ranked(catalog.entries@, keys@);
    assert forall|i: int, k: int|
        #![trigger catalog.entries@[i], keys@[k]]
        0 <= i < catalog.entries@.len() && 0 <= k < keys@.len() && catalog.entries@[i].id@
            == keys@[k]@ implies exists|r: int|
        0 <= r < found.len() && (#[trigger] found[r]).id@ == keys@[k]@ by {
        each_key_gives_a_result(catalog.entries@, keys@, i, k);
    }
    assert forall|a: int, b: int, k: int|
        #![trigger found[a], found[b], keys@[k]]
        0 <= a < b < found.len() && 0 <= k < keys@.len() && keys@[k]@ == found[b].id@ implies exists|
        j: int,
    | 0 <= j < k && (#[trigger] keys@[j])@ == found[a].id@ by {
        results_are_in_order(catalog.entries@, keys@, a, b, k);
    }
}

/// A cursor that was written down is read back for the same query, generation, owner
/// and way to collapse, until it expires.
pub proof fn cursors_are_read_back(
    search: HistorySearch,
    cursor: Cursor,
    scope: CursorScope<'_>,
    written: Result<String, ApiError>,
    value: &str,
    other: CursorScope<'_>,
    elapsed: u64,
    read: Result<Cursor, ApiError>,
)
    requires
        call_ensures(HistorySearch::encode, (&search, cursor, scope), written),
        written is Ok,
        value@ == written->Ok_0@,
        other.query@ == scope.query@,
        other.generation == scope.generation,
        other.collapse == scope.collapse,
        other.owner is Some <==> scope.owner is Some,
        other.owner is Some ==> other.owner->0@ == scope.owner->0@,
        call_ensures(HistorySearch::decode, (&search, value, other, elapsed), read),
    ensures
        cursor.expires > elapsed && cursor.offset < 5_000 ==> read == Ok::<Cursor, ApiError>(cursor),
        cursor.expires <= elapsed || cursor.offset >= 5_000 ==> (read matches Err(error)
            && error.code@ == "stale-cursor"@),
{
    assert(other.view() == scope.view());
    assert(history_search::issued(search.key@, cursor, other.view(), value@));
}

/// A cursor of another state of the history is refused.
pub proof fn cursors_belong_to_a_state(cursor: Cursor, token: u64, result: Result<(), ApiError>)
    requires
        call_ensures(Cursor::check, (&cursor, token), result),
    ensures
        result is Ok <==> cursor.token == token,
        result matches Err(error) ==> error.code@ == "stale-cursor"@,
{
}

/// A search begins at the first result, in the state that the history has, and its
/// cursors can be used for two minutes; every page of the history is asked for in turn.
pub proof fn searches_begin_with_the_history_as_it_is(
    key: Seq<u8>,
    before: Search,
    token: u64,
    elapsed: u64,
    after: Search,
    action: SearchAction,
)
    requires
        before.stage is Opening,
        before.params.cursor is None,
        elapsed <= u64::MAX - 120,
        history_search::search_advanced(
            key,
            before,
            SearchEvent::Token(Ok(token)),
            elapsed,
            after,
            action,
        ),
    ensures
        after.stage matches Stage::Collecting { cursor, catalog } && cursor == (Cursor {
            token,
            offset: 0,
            expires: (elapsed + 120) as u64,
        }) && catalog.entries@.len() == 0,
        action matches SearchAction::Query(query) && query.offset == 0 && query.limit == 200
            && query.query@.len() == 0 && query.collapse_self_echoes == before.collapse
            && query.generation == before.params.generation,
{
    reveal_strlit("");
}

/// A search goes on, and its results are shown, only while the history is in the state
/// that it began in; a history that changed meanwhile is told as that.
pub proof fn searches_end_where_the_history_changes(
    key: Seq<u8>,
    before: Search,
    token: u64,
    elapsed: u64,
    after: Search,
    action: SearchAction,
)
    requires
        before.stage is Confirming || before.stage is Finishing,
        history_search::search_advanced(
            key,
            before,
            SearchEvent::Token(Ok(token)),
            elapsed,
            after,
            action,
        ),
    ensures
        ({
            let began = match before.stage {
                Stage::Confirming { cursor, .. } => cursor.token,
                Stage::Finishing { cursor, .. } => cursor.token,
                _ => 0,
            };
            &&& token != began ==> (action matches SearchAction::Done(Err(error)) && error.code@
                == "stale-cursor"@)
            &&& token == began && before.stage is Confirming ==> action is Rank
            &&& token == began && before.stage is Finishing ==> (
            action matches SearchAction::Done(Ok(_)))
        }),
{
}

/// At most two searches run at a time; one that is over makes room for another.
pub proof fn two_searches_run_at_a_time(
    before: HistorySearch,
    taken: HistorySearch,
    room: Result<(), ApiError>,
    after: HistorySearch,
)
    requires
        exists|asked: &mut HistorySearch|
            *asked == before && *final(asked) == taken && #[trigger] call_ensures(
                HistorySearch::acquire,
                (asked,),
                room,
            ),
        exists|asked: &mut HistorySearch|
            *asked == taken && *final(asked) == after && #[trigger] call_ensures(
                HistorySearch::release,
                (asked,),
                (),
            ),
    ensures
        room is Ok <==> before.running < 2,
        room is Ok ==> taken.running == before.running + 1 && after.running == before.running,
        room is Err ==> taken.running == before.running,
        room matches Err(error) ==> error.code@ == "busy"@,
        after.key == before.key,
{
}

/// A cursor is made of exactly its three members, each once, or of a list of three
/// numbers, and only while it can be used.
pub proof fn cursors_have_three_members(
    list: Vec<(String, u64)>,
    count: usize,
    numbers: Option<(u64, u64, u64)>,
    elapsed: u64,
    named: Option<Cursor>,
    listed: Option<Cursor>,
)
    requires
        call_ensures(history_search::usable_cursor, (&Some(list), count, numbers, elapsed), named),
        call_ensures(
            history_search::usable_cursor,
            (&None::<Vec<(String, u64)>>, count, numbers, elapsed),
            listed,
        ),
    ensures
        named is Some <==> count == 3 && list@.len() == 3 && list@[0].0@ == "expires"@ && list@[1].0@
            == "offset"@ && list@[2].0@ == "token"@ && list@[0].1 > elapsed && list@[1].1 < 5_000,
        named matches Some(cursor) ==> cursor.token == list@[2].1 && cursor.offset == list@[1].1
            && cursor.expires == list@[0].1,
        numbers matches Some((token, offset, expires)) ==> (listed is Some <==> expires > elapsed
            && offset < 5_000),
        listed matches Some(cursor) ==> numbers == Some(
            (cursor.token, cursor.offset as u64, cursor.expires),
        ),
        numbers is None ==> listed is None,
{
    let members = history_search::members(list@);
    assert(members.len() == list@.len());
    if list@.len() == 3 {
        assert(members[0] == (list@[0].0@, list@[0].1));
        assert(members[1] == (list@[1].0@, list@[1].1));
        assert(members[2] == (list@[2].0@, list@[2].1));
    }
}

/// The history is asked for from behind what was collected, 200 entries at a time, and
/// for everything.
pub proof fn the_next_page_is_asked_for(
    catalog: Catalog,
    generation: u64,
    collapse: bool,
    query: crate::backend::HistoryQuery,
    key: [u8; 16],
    search: HistorySearch,
)
    requires
        call_ensures(Catalog::next_query, (&catalog, generation, collapse), query),
        call_ensures(HistorySearch::with_key, (key,), search),
    ensures
        query.offset == catalog.entries@.len(),
        query.limit == 200,
        query.query@.len() == 0,
        query.generation == generation,
        query.collapse_self_echoes == collapse,
        search.key == key && search.running == 0,
{
    reveal_strlit("");
}

/// A page tells the state of the history that it was found in, in digits.
pub proof fn pages_tell_their_state(
    search: HistorySearch,
    catalog: Catalog,
    cursor: Cursor,
    limit: usize,
    scope: CursorScope<'_>,
    page: SearchPage,
    digits: String,
)
    requires
        call_ensures(HistorySearch::page, (&search, catalog, cursor, limit, scope), Ok(page)),
        call_ensures(crate::text::format_u64, (cursor.token,), digits),
    ensures
        page.snapshot_revision@ == digits@,
{
}

/// A search begins with what it was asked for, where fewer than two run; where two do, it
/// is refused and nothing changes.
pub proof fn searches_begin_where_there_is_room(
    before: HistorySearch,
    params: crate::actions::QueryParams,
    owner: Option<String>,
    collapse: bool,
    after: HistorySearch,
    begun: Result<Search, ApiError>,
    empty: Catalog,
)
    requires
        exists|asked: &mut HistorySearch|
            *asked == before && *final(asked) == after && #[trigger] call_ensures(
                HistorySearch::begin,
                (asked, params, owner, collapse),
                begun,
            ),
        call_ensures(Catalog::new, (), empty),
    ensures
        begun is Ok <==> before.running < 2,
        begun matches Ok(search) ==> search.params == params && search.owner == owner
            && search.collapse == collapse && search.stage is Opening && after.running
            == before.running + 1,
        begun matches Err(error) ==> error.code@ == "busy"@ && after.running == before.running,
        after.key == before.key,
        empty.entries@.len() == 0,
{
}

} // verus!
