//! Which entries match a query by their whole text.
use crate::ringboard::projection;
use crate::ringboard::projection::{
    matches_query, needle, CachedProjection, QueryCandidate, QueryProjection,
};
use crate::backend::HistoryQuery;
use crate::ringboard::search;
use crate::ringboard::search::{Matcher, Scan};
use crate::text;
use vstd::hash_set::*;
use vstd::prelude::*;
use vstd::string::*;
use vstd::utf8::*;

verus! {

/// The bytes are text that holds what a query looks for, both with each
/// character in lower case. Nothing is held by everything.
pub open spec fn text_matches(query: Seq<char>, bytes: Seq<u8>) -> bool {
    let looked_for = search::folded(text::trimmed(query));
    ||| looked_for.len() == 0
    ||| valid_utf8(bytes) && text::holds(search::folded(decode_utf8(bytes)), looked_for)
}

/// The content of an entry could be read to its end, and matches a query.
pub open spec fn entry_matches(query: Seq<char>, content: Option<Seq<u8>>) -> bool {
    content matches Some(bytes) && text_matches(query, bytes)
}

/// The identifiers of the entries that match a query, among those that were
/// looked through: each with its content, where that could be read to its end.
pub open spec fn texts_found(
    query: Seq<char>,
    looked: Seq<(Seq<char>, Option<Seq<u8>>)>,
) -> Set<Seq<char>>
    decreases looked.len(),
{
    if looked.len() == 0 {
        Set::empty()
    } else {
        let (id, content) = looked.last();
        let before = texts_found(query, looked.drop_last());
        if entry_matches(query, content) {
            before.insert(id)
        } else {
            before
        }
    }
}

/// An identifier is found exactly where an entry with it matches.
proof fn found_is_matching(
    query: Seq<char>,
    looked: Seq<(Seq<char>, Option<Seq<u8>>)>,
    id: Seq<char>,
)
    ensures
        texts_found(query, looked).contains(id) <==> exists|i: int|
            0 <= i < looked.len() && (#[trigger] looked[i]).0 == id && entry_matches(
                query,
                looked[i].1,
            ),
    decreases looked.len(),
{
    if looked.len() > 0 {
        let before = looked.drop_last();
        found_is_matching(query, before, id);
        if exists|i: int|
            0 <= i < before.len() && (#[trigger] before[i]).0 == id && entry_matches(
                query,
                before[i].1,
            ) {
            let i = choose|i: int|
                0 <= i < before.len() && (#[trigger] before[i]).0 == id && entry_matches(
                    query,
                    before[i].1,
                );
            assert(looked[i] == before[i]);
        }
        if exists|i: int|
            0 <= i < looked.len() && (#[trigger] looked[i]).0 == id && entry_matches(
                query,
                looked[i].1,
            ) {
            let i = choose|i: int|
                0 <= i < looked.len() && (#[trigger] looked[i]).0 == id && entry_matches(
                    query,
                    looked[i].1,
                );
            if i < before.len() {
                assert(before[i] == looked[i]);
            }
        }
        assert(looked[looked.len() - 1] == looked.last());
    }
}

/// What the bytes of a search say of the texts.
proof fn search_is_exact(query: Seq<char>, bytes: Seq<u8>)
    ensures
        ({
            let looked_for = encode_utf8(search::folded(text::trimmed(query)));
            text_matches(query, bytes) <==> looked_for.len() == 0 || (valid_utf8(bytes)
                && search::occurs(looked_for, search::folded_bytes(bytes)))
        }),
{
    let part = search::folded(text::trimmed(query));
    let whole = search::folded(decode_utf8(bytes));
    if encode_utf8(part).len() == 0 {
        assert(encode_utf8(Seq::<char>::empty()) =~= encode_utf8(part));
        text::encoding_is_injective(part, Seq::empty());
    } else if part.len() == 0 {
        assert(part =~= Seq::<char>::empty());
        assert(encode_utf8(part).len() == 0);
    }
    search::byte_search_is_text_search(part, whole);
    if text::holds(whole, part) {
        let at = choose|at: int| text::begins_at(whole, part, at);
        assert(whole.skip(at).take(part.len() as int) =~= whole.subrange(at, at + part.len()));
        assert(search::stands_at(part, whole, at));
    }
    if exists|at: int| search::stands_at(part, whole, at) {
        let at = choose|at: int| search::stands_at(part, whole, at);
        assert(whole.skip(at).take(part.len() as int) =~= whole.subrange(at, at + part.len()));
        assert(text::begins_at(whole, part, at));
    }
}

/// The entries that have to be looked through for a query: those of which what is
/// shown does not match already.
pub open spec fn wanted_of(query: Seq<char>, history: CachedProjection) -> Seq<QueryCandidate> {
    history.candidates@.filter(
        |c: QueryCandidate|
            !projection::matches(c.resolved.summary, projection::needle_of(query)),
    )
}

/// Looks through entries for a query. An entry is read piece by piece, and none
/// is kept.
pub struct TextSearch {
    query: String,
    needle: String,
    matcher: Matcher,
    found: StringHashSet,
    looked: Ghost<Seq<(Seq<char>, Option<Seq<u8>>)>>,
}

impl TextSearch {
    pub closed spec fn wf(self) -> bool {
        &&& self.needle@ == projection::needle_of(self.query@)
        &&& self.matcher.needle() == encode_utf8(search::folded(text::trimmed(self.query@)))
        &&& self.found@ == texts_found(self.query@, self.looked@)
    }

    /// What is looked for.
    pub closed spec fn query(self) -> Seq<char> {
        self.query@
    }

    /// The entries that were looked through.
    pub closed spec fn looked(self) -> Seq<(Seq<char>, Option<Seq<u8>>)> {
        self.looked@
    }

    /// An entry is being read by this search.
    pub closed spec fn reads(self, scan: Scan) -> bool {
        scan.of(self.matcher)
    }

    pub fn new(query: &str) -> (search: Self)
        ensures
            search.wf(),
            search.query() == query@,
            search.looked() == Seq::<(Seq<char>, Option<Seq<u8>>)>::empty(),
    {
        let found = StringHashSet::new();
        assert(found@ =~= Set::empty());
        TextSearch {
            query: query.to_owned(),
            needle: needle(query),
            matcher: Matcher::new(text::trim(query).as_str()),
            found,
            looked: Ghost(Seq::empty()),
        }
    }

    /// The entries that have to be looked through: where each is stored, and its
    /// identifier.
    pub fn wanted(&self, history: &CachedProjection) -> (wanted: Vec<(u64, String)>)
        requires
            self.wf(),
        ensures
            wanted@.len() == wanted_of(self.query(), *history).len(),
            forall|i: int|
                0 <= i < wanted@.len() ==> (#[trigger] wanted@[i]).0 == wanted_of(
                    self.query(),
                    *history,
                )[i].raw_id && wanted@[i].1@ == wanted_of(self.query(), *history)[i].id(),
    {
        let ghost all = history.candidates@;
        let ghost keep = |c: QueryCandidate|
            !projection::matches(c.resolved.summary, projection::needle_of(self.query()));
        let mut wanted: Vec<(u64, String)> = Vec::new();
        proof {
            reveal(Seq::filter);
            assert(all.take(0).filter(keep) =~= Seq::empty());
        }
        for i in 0..history.candidates.len()
            invariant
                self.wf(),
                all == history.candidates@,
                keep == (|c: QueryCandidate|
                    !projection::matches(
                        c.resolved.summary,
                        projection::needle_of(self.query()),
                    )),
                wanted@.len() == all.take(i as int).filter(keep).len(),
                forall|k: int|
                    0 <= k < wanted@.len() ==> (#[trigger] wanted@[k]).0 == all.take(
                        i as int,
                    ).filter(keep)[k].raw_id && wanted@[k].1@ == all.take(i as int).filter(
                        keep,
                    )[k].id(),
        {
            let candidate = &history.candidates[i];
            proof {
                projection::filter_extends(all, i as int, keep);
            }
            if !matches_query(&candidate.resolved.summary, self.needle.as_str()) {
                wanted.push((candidate.raw_id, candidate.resolved.summary.id.clone()));
            }
        }
        assert(all.take(all.len() as int) =~= all);
        wanted
    }

    /// Begins with an entry.
    pub fn begin(&self) -> (scan: Scan)
        requires
            self.wf(),
        ensures
            self.reads(scan),
            scan@ == Seq::<u8>::empty(),
    {
        self.matcher.begin()
    }

    /// Goes on with the next bytes of the entry.
    pub fn push(&self, scan: &mut Scan, chunk: &[u8])
        requires
            self.reads(*old(scan)),
        ensures
            self.reads(*final(scan)),
            final(scan)@ == old(scan)@ + chunk@,
    {
        self.matcher.push(scan, chunk);
    }

    /// Ends with the entry, which was read to its end or could not be; whether it
    /// matches.
    pub fn finish(&mut self, id: &str, scan: Scan, complete: bool) -> (found: bool)
        requires
            old(self).wf(),
            old(self).reads(scan),
        ensures
            final(self).wf(),
            final(self).query() == old(self).query(),
            ({
                let content = if complete {
                    Some(scan@)
                } else {
                    None
                };
                &&& final(self).looked() == old(self).looked().push((id@, content))
                &&& found == entry_matches(old(self).query(), content)
            }),
    {
        let ghost content = if complete {
            Some(scan@)
        } else {
            None
        };
        proof {
            search_is_exact(self.query@, scan@);
        }
        let found: bool = complete && self.matcher.finish(&scan);
        if found {
            self.found.insert(id.to_owned());
        }
        let ghost looked = self.looked@.push((id@, content));
        assert(looked.drop_last() =~= self.looked@);
        self.looked = Ghost(looked);
        assert(self.found@ =~= texts_found(self.query@, looked));
        found
    }

    /// The identifiers of the entries that match.
    pub fn texts(&self) -> (texts: &StringHashSet)
        requires
            self.wf(),
        ensures
            texts@ == texts_found(self.query(), self.looked()),
    {
        &self.found
    }
}

/// The complete text of an entry is searched, not what is shown of it: once the
/// entries that have to be are looked through, with the contents that they have,
/// an entry that no other stands for is found wherever its text holds the query,
/// and is on the first page unless that is full.
pub proof fn whole_texts_are_searched(
    history: CachedProjection,
    query: HistoryQuery,
    contents: spec_fn(QueryCandidate) -> Seq<u8>,
    looked: Seq<(Seq<char>, Option<Seq<u8>>)>,
    projection: QueryProjection,
    candidate: QueryCandidate,
)
    requires
        forall|c: QueryCandidate| #[trigger]
            wanted_of(query.query@, history).contains(c) ==> looked.contains(
                (c.id(), Some(contents(c))),
            ),
        history.shows(query, texts_found(query.query@, looked), projection),
        history.candidates@.contains(candidate),
        candidate.source(
            query.collapse_self_echoes,
            projection::ids_of(history.candidates@),
        ) is None,
        text_matches(query.query@, contents(candidate)),
    ensures
        history.found(query, texts_found(query.query@, looked)).contains(candidate),
        query.offset == 0 && projection.matched <= projection::page_size(query.limit) ==> exists|
            k: int,
        |
            0 <= k < projection.entries@.len() && (#[trigger] projection.entries@[k]).id@
                == candidate.id(),
{
    let texts = texts_found(query.query@, looked);
    let i = choose|i: int|
        0 <= i < history.candidates@.len() && history.candidates@[i] == candidate;
    if !projection::matches(
        candidate.resolved.summary,
        projection::needle_of(query.query@),
    ) {
        projection::filter_contains(
            history.candidates@,
            |c: QueryCandidate|
                !projection::matches(c.resolved.summary, projection::needle_of(query.query@)),
            i,
        );
        assert(wanted_of(query.query@, history).contains(candidate));
        let entry = (candidate.id(), Some(contents(candidate)));
        let at = choose|at: int| 0 <= at < looked.len() && looked[at] == entry;
        assert(looked[at].0 == candidate.id() && entry_matches(query.query@, looked[at].1));
        found_is_matching(query.query@, looked, candidate.id());
    }
    let ids = projection::ids_of(history.candidates@);
    let collapse = query.collapse_self_echoes;
    let shown = projection::visible(history.candidates@, collapse);
    let keep = |c: QueryCandidate| c.source(collapse, ids) is None;
    projection::filter_contains(history.candidates@, keep, i);
    let hit = |c: QueryCandidate|
        projection::matches(c.resolved.summary, projection::needle_of(query.query@))
            || texts.contains(c.id());
    let j = choose|j: int| 0 <= j < shown.len() && shown[j] == candidate;
    projection::filter_contains(shown, hit, j);
    let found = history.found(query, texts);
    if query.offset == 0 && projection.matched <= projection::page_size(query.limit) {
        let k = choose|k: int| 0 <= k < found.len() && found[k] == candidate;
        let page = projection::page_of(found, 0, query.limit);
        assert(page =~= found);
        assert(projection.entries@[k].id@ == candidate.id());
    }
}

/// Whatever a query finds matches: by what is shown of it, or by the whole text
/// of an entry with its identifier.
pub proof fn only_matches_are_found(
    history: CachedProjection,
    query: HistoryQuery,
    looked: Seq<(Seq<char>, Option<Seq<u8>>)>,
    k: int,
)
    requires
        0 <= k < history.found(query, texts_found(query.query@, looked)).len(),
    ensures
        ({
            let found = history.found(query, texts_found(query.query@, looked))[k];
            ||| projection::matches(
                found.resolved.summary,
                projection::needle_of(query.query@),
            )
            ||| exists|i: int|
                0 <= i < looked.len() && (#[trigger] looked[i]).0 == found.id() && entry_matches(
                    query.query@,
                    looked[i].1,
                )
        }),
{
    let texts = texts_found(query.query@, looked);
    let shown = projection::visible(history.candidates@, query.collapse_self_echoes);
    let hit = |c: QueryCandidate|
        projection::matches(c.resolved.summary, projection::needle_of(query.query@))
            || texts.contains(c.id());
    projection::filter_within(shown, hit, k);
    found_is_matching(query.query@, looked, history.found(query, texts)[k].id());
}

} // verus!
