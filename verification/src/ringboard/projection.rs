//! What a query shows of the history that was read.
use crate::backend::{HistoryQuery, MAX_QUERY_LIMIT};
use crate::model::EntrySummary;
use crate::text;
use vstd::hash_map::*;
use vstd::hash_set::*;
use vstd::prelude::*;

verus! {

/// Where an entry is stored, and the state of it that was shown.
#[derive(Debug, Clone, Copy, PartialEq, Eq, Structural)]
pub struct IdentityBinding {
    pub raw_id: u64,
    pub revision: u64,
}

/// One entry as it was read.
pub struct ResolvedEntry {
    pub summary: EntrySummary,
    pub proof: [u8; 32],
    pub generated_paths: Vec<String>,
    pub echo_source_id: Option<String>,
}

/// One entry that a query can show.
pub struct QueryCandidate {
    pub raw_id: u64,
    pub resolved: ResolvedEntry,
}

/// The history as it was read: favourites first, then the rest, newest first.
pub struct CachedProjection {
    /// Where the newest entry that is no favourite is stored.
    pub current_id: Option<u64>,
    pub candidates: Vec<QueryCandidate>,
    /// Every entry could be read.
    pub complete: bool,
}

/// What one query shows.
pub struct QueryProjection {
    pub current: Option<EntrySummary>,
    pub entries: Vec<EntrySummary>,
    pub matched: usize,
    pub bindings: StringHashMap<IdentityBinding>,
    pub artifact_references: StringHashSet,
    pub complete: bool,
}

impl QueryCandidate {
    /// The identifier under which the entry is shown.
    pub open spec fn id(self) -> Seq<char> {
        self.resolved.summary.id@
    }

    /// The entry that this one echoes and that stands for it.
    pub open spec fn source(self, collapse: bool, ids: Set<Seq<char>>) -> Option<Seq<char>> {
        match self.resolved.echo_source_id {
            Some(source) => if collapse && ids.contains(source@) {
                Some(source@)
            } else {
                None
            },
            None => None,
        }
    }

    /// The entry that this one echoes, where echoes are collapsed and that
    /// entry is in the history.
    pub fn collapsed_source(&self, collapse_echoes: bool, ids: &StringHashSet) -> (source: Option<
        &String,
    >)
        ensures
            match source {
                Some(id) => self.source(collapse_echoes, ids@) == Some(id@),
                None => self.source(collapse_echoes, ids@) is None,
            },
    {
        match &self.resolved.echo_source_id {
            Some(source) => if collapse_echoes && ids.contains(source.as_str()) {
                Some(source)
            } else {
                None
            },
            None => None,
        }
    }
}

/// The identifiers of some entries.
pub open spec fn ids_of(candidates: Seq<QueryCandidate>) -> Set<Seq<char>> {
    Set::new(|id: Seq<char>| exists|i: int| 0 <= i < candidates.len() && candidates[i].id() == id)
}

/// The entries that are shown: those that no other stands for.
pub open spec fn visible(candidates: Seq<QueryCandidate>, collapse: bool) -> Seq<QueryCandidate> {
    let ids = ids_of(candidates);
    candidates.filter(|c: QueryCandidate| c.source(collapse, ids) is None)
}

/// The identifier of the current entry, or of the one that stands for it.
pub open spec fn current_of(
    candidates: Seq<QueryCandidate>,
    raw: Option<u64>,
    collapse: bool,
    ids: Set<Seq<char>>,
) -> Option<Seq<char>>
    decreases candidates.len(),
{
    if candidates.len() == 0 {
        None
    } else if raw == Some(candidates[0].raw_id) {
        match candidates[0].source(collapse, ids) {
            Some(source) => Some(source),
            None => Some(candidates[0].id()),
        }
    } else {
        current_of(candidates.drop_first(), raw, collapse, ids)
    }
}

/// The entry with the mark of the current one set or not.
pub open spec fn marked(summary: EntrySummary, current: bool) -> EntrySummary {
    EntrySummary { current, ..summary }
}

/// `needle` is empty or stands in the preview or the MIME type, in lower case.
pub open spec fn matches(summary: EntrySummary, needle: Seq<char>) -> bool {
    ||| needle.len() == 0
    ||| text::holds(text::lowercase_text(summary.preview@), needle)
    ||| text::holds(text::lowercase_text(summary.mime@), needle)
}

/// What a query is looked for as.
pub open spec fn needle_of(query: Seq<char>) -> Seq<char> {
    text::lowercase_text(text::trimmed(query))
}

/// What a query is looked for as.
pub fn needle(query: &str) -> (needle: String)
    ensures
        needle@ == needle_of(query@),
{
    text::to_lowercase(text::trim(query).as_str())
}

/// The entries among `shown` that match, in order: by what is shown of them, or
/// by their whole text, for which `texts` holds their identifiers.
pub open spec fn matching(
    shown: Seq<QueryCandidate>,
    needle: Seq<char>,
    texts: Set<Seq<char>>,
) -> Seq<QueryCandidate> {
    shown.filter(
        |c: QueryCandidate| matches(c.resolved.summary, needle) || texts.contains(c.id()),
    )
}

/// Where the entries are stored, by identifier; the last one of an identifier
/// counts.
pub open spec fn bindings_of(shown: Seq<QueryCandidate>) -> Map<Seq<char>, IdentityBinding>
    decreases shown.len(),
{
    if shown.len() == 0 {
        Map::empty()
    } else {
        let last = shown.last();
        bindings_of(shown.drop_last()).insert(
            last.id(),
            IdentityBinding { raw_id: last.raw_id, revision: last.resolved.summary.revision },
        )
    }
}

/// The last entry among `shown` with this identifier, marked as current.
pub open spec fn current_among(shown: Seq<QueryCandidate>, id: Option<Seq<char>>) -> Option<
    EntrySummary,
>
    decreases shown.len(),
{
    if shown.len() == 0 {
        None
    } else if id == Some(shown.last().id()) {
        Some(marked(shown.last().resolved.summary, true))
    } else {
        current_among(shown.drop_last(), id)
    }
}

/// The number of entries that a query for `limit` returns at most.
pub open spec fn page_size(limit: usize) -> int {
    if limit < 1 {
        1
    } else if limit > MAX_QUERY_LIMIT {
        MAX_QUERY_LIMIT as int
    } else {
        limit as int
    }
}

/// The part of `all` from `offset` on.
pub open spec fn rest_from<T>(all: Seq<T>, offset: int) -> Seq<T> {
    if offset < all.len() {
        all.skip(offset)
    } else {
        Seq::empty()
    }
}

/// The first `size` of `rest`, or all of it.
pub open spec fn at_most<T>(rest: Seq<T>, size: int) -> Seq<T> {
    if size < rest.len() {
        rest.take(size)
    } else {
        rest
    }
}

/// The page of `all` at `offset` for `limit`.
pub open spec fn page_of<T>(all: Seq<T>, offset: int, limit: usize) -> Seq<T> {
    at_most(rest_from(all, offset), page_size(limit))
}

/// A path that one of the entries refers to.
pub open spec fn references_of(candidates: Seq<QueryCandidate>) -> Set<Seq<char>>
    decreases candidates.len(),
{
    if candidates.len() == 0 {
        Set::empty()
    } else {
        references_of(candidates.drop_last()).union(
            paths_of(candidates.last().resolved.generated_paths@),
        )
    }
}

/// The paths in a list.
pub open spec fn paths_of(paths: Seq<String>) -> Set<Seq<char>>
    decreases paths.len(),
{
    if paths.len() == 0 {
        Set::empty()
    } else {
        paths_of(paths.drop_last()).insert(paths.last()@)
    }
}

proof fn ids_extend(candidates: Seq<QueryCandidate>, i: int)
    requires
        0 <= i < candidates.len(),
    ensures
        ids_of(candidates.take(i + 1)) == ids_of(candidates.take(i)).insert(candidates[i].id()),
{
    let a = candidates.take(i);
    let b = candidates.take(i + 1);
    assert(b.last() == candidates[i]);
    assert forall|id: Seq<char>| #[trigger] ids_of(b).contains(id) <==> ids_of(a).insert(
        candidates[i].id(),
    ).contains(id) by {
        if ids_of(b).contains(id) {
            let k = choose|k: int| 0 <= k < b.len() && b[k].id() == id;
            if k < i {
                assert(a[k].id() == id);
            }
        }
        if ids_of(a).contains(id) {
            let k = choose|k: int| 0 <= k < a.len() && a[k].id() == id;
            assert(b[k].id() == id);
        }
        if id == candidates[i].id() {
            assert(b[i].id() == id);
        }
    }
    assert(ids_of(b) =~= ids_of(a).insert(candidates[i].id()));
}

pub(crate) proof fn filter_extends<T>(s: Seq<T>, i: int, keep: spec_fn(T) -> bool)
    requires
        0 <= i < s.len(),
    ensures
        s.take(i + 1).filter(keep) == (if keep(s[i]) {
            s.take(i).filter(keep).push(s[i])
        } else {
            s.take(i).filter(keep)
        }),
{
    reveal(Seq::filter);
    assert(s.take(i + 1).drop_last() =~= s.take(i));
    assert(s.take(i + 1).last() == s[i]);
}

/// Whether an entry matches what is looked for.
pub fn matches_query(summary: &EntrySummary, needle: &str) -> (result: bool)
    ensures
        result == matches(*summary, needle@),
{
    needle.is_empty() || text::contains_text(
        text::to_lowercase(summary.preview.as_str()).as_str(),
        needle,
    ) || text::contains_text(text::to_lowercase(summary.mime.as_str()).as_str(), needle)
}

/// A copy of the entry with the mark of the current one set or not.
fn mark(summary: &EntrySummary, current: bool) -> (result: EntrySummary)
    ensures
        result == marked(*summary, current),
{
    let mut result = summary.clone();
    result.current = current;
    result
}

fn is_current(current_id: &Option<String>, id: &String) -> (result: bool)
    ensures
        result == (match *current_id {
            Some(current) => current@ == id@,
            None => false,
        }),
{
    match current_id {
        Some(current) => text::same(current.as_str(), id.as_str()),
        None => false,
    }
}

impl CachedProjection {
    /// The identifier of the current entry, or of the one that stands for it.
    pub open spec fn current_for(self, collapse: bool) -> Option<Seq<char>> {
        current_of(self.candidates@, self.current_id, collapse, ids_of(self.candidates@))
    }

    /// The entries that match a query, in order.
    pub open spec fn found(self, query: HistoryQuery, texts: Set<Seq<char>>) -> Seq<
        QueryCandidate,
    > {
        matching(
            visible(self.candidates@, query.collapse_self_echoes),
            needle_of(query.query@),
            texts,
        )
    }

    /// `projection` is what `query` shows of this history, where `texts` holds
    /// the identifiers of entries that match by their whole text.
    pub open spec fn shows(
        self,
        query: HistoryQuery,
        texts: Set<Seq<char>>,
        projection: QueryProjection,
    ) -> bool {
        let shown = visible(self.candidates@, query.collapse_self_echoes);
        let current = self.current_for(query.collapse_self_echoes);
        let page = page_of(self.found(query, texts), query.offset as int, query.limit);
        &&& projection.current == current_among(shown, current)
        &&& projection.matched == self.found(query, texts).len()
        &&& projection.entries@ == page.map_values(
            |c: QueryCandidate| marked(c.resolved.summary, current == Some(c.id())),
        )
        &&& projection.bindings@ == bindings_of(shown)
        &&& projection.artifact_references@ == references_of(self.candidates@)
        &&& projection.complete == self.complete
    }

    fn ids(&self) -> (ids: StringHashSet)
        ensures
            ids@ == ids_of(self.candidates@),
    {
        let mut ids = StringHashSet::new();
        assert(ids_of(self.candidates@.take(0)) =~= Set::empty());
        for i in 0..self.candidates.len()
            invariant
                ids@ == ids_of(self.candidates@.take(i as int)),
        {
            ids.insert(self.candidates[i].resolved.summary.id.clone());
            proof {
                ids_extend(self.candidates@, i as int);
            }
        }
        assert(self.candidates@.take(self.candidates@.len() as int) =~= self.candidates@);
        ids
    }

    fn current(&self, collapse: bool, ids: &StringHashSet) -> (current: Option<String>)
        requires
            ids@ == ids_of(self.candidates@),
        ensures
            match current {
                Some(id) => self.current_for(collapse) == Some(id@),
                None => self.current_for(collapse) is None,
            },
    {
        let mut i: usize = 0;
        assert(self.candidates@.skip(0) =~= self.candidates@);
        while i < self.candidates.len()
            invariant
                i <= self.candidates@.len(),
                ids@ == ids_of(self.candidates@),
                self.current_for(collapse) == current_of(
                    self.candidates@.skip(i as int),
                    self.current_id,
                    collapse,
                    ids@,
                ),
            decreases self.candidates@.len() - i,
        {
            let candidate = &self.candidates[i];
            let found: bool = match self.current_id {
                Some(raw) => raw == candidate.raw_id,
                None => false,
            };
            if found {
                return match candidate.collapsed_source(collapse, ids) {
                    Some(source) => Some(source.clone()),
                    None => Some(candidate.resolved.summary.id.clone()),
                };
            }
            assert(self.candidates@.skip(i as int).drop_first() =~= self.candidates@.skip(i + 1));
            i = i + 1;
        }
        None
    }

    /// The entries that are shown, and their states: what else there is a
    /// thumbnail of is out of date.
    pub fn shown_states(&self, collapse: bool) -> (states: Vec<(String, u64)>)
        ensures
            ({
                let shown = visible(self.candidates@, collapse);
                &&& states@.len() == shown.len()
                &&& forall|i: int|
                    0 <= i < shown.len() ==> (#[trigger] states@[i]).0 == shown[i].resolved.summary.id
                        && states@[i].1 == shown[i].resolved.summary.revision
            }),
    {
        let ids = self.ids();
        let mut states: Vec<(String, u64)> = Vec::new();
        let ghost all = self.candidates@;
        let ghost shown = |c: QueryCandidate| c.source(collapse, ids@) is None;
        proof {
            reveal(Seq::filter);
            assert(all.take(0).filter(shown) =~= Seq::empty());
        }
        for i in 0..self.candidates.len()
            invariant
                all == self.candidates@,
                ids@ == ids_of(all),
                shown == (|c: QueryCandidate| c.source(collapse, ids@) is None),
                states@.len() == all.take(i as int).filter(shown).len(),
                forall|k: int|
                    0 <= k < states@.len() ==> (#[trigger] states@[k]).0 == all.take(
                        i as int,
                    ).filter(shown)[k].resolved.summary.id && states@[k].1 == all.take(
                        i as int,
                    ).filter(shown)[k].resolved.summary.revision,
        {
            let candidate = &self.candidates[i];
            proof {
                filter_extends(all, i as int, shown);
            }
            if candidate.collapsed_source(collapse, &ids).is_none() {
                let summary = &candidate.resolved.summary;
                states.push((summary.id.clone(), summary.revision));
            }
        }
        assert(all.take(all.len() as int) =~= all);
        states
    }

    /// What `query` shows of this history, by what is shown of the entries.
    pub fn project(&self, query: &HistoryQuery) -> (projection: QueryProjection)
        ensures
            self.shows(*query, Set::empty(), projection),
    {
        self.project_found(query, &StringHashSet::new())
    }

    /// What `query` shows of this history, where `texts` holds the identifiers
    /// of entries that match by their whole text. The current entry is found
    /// wherever it stands, in the page or outside it.
    pub fn project_found(&self, query: &HistoryQuery, texts: &StringHashSet) -> (projection:
        QueryProjection)
        ensures
            self.shows(*query, texts@, projection),
    {
        let collapse: bool = query.collapse_self_echoes;
        let ids = self.ids();
        let current_id = self.current(collapse, &ids);
        let needle = needle(query.query.as_str());
        let size: usize = if query.limit < 1 {
            1
        } else if query.limit > MAX_QUERY_LIMIT {
            MAX_QUERY_LIMIT
        } else {
            query.limit
        };
        let mut bindings: StringHashMap<IdentityBinding> = StringHashMap::new();
        let mut references = StringHashSet::new();
        let mut current: Option<EntrySummary> = None;
        let mut entries: Vec<EntrySummary> = Vec::new();
        let mut matched: usize = 0;
        let ghost all = self.candidates@;
        let ghost shown = |c: QueryCandidate| c.source(collapse, ids@) is None;
        let ghost found = |c: QueryCandidate|
            matches(c.resolved.summary, needle@) || texts@.contains(c.id());
        let ghost id = self.current_for(collapse);
        let ghost mark_current = |c: QueryCandidate|
            marked(c.resolved.summary, id == Some(c.id()));
        proof {
            reveal(Seq::filter);
            assert(all.take(0).filter(shown) =~= Seq::empty());
            assert(all.take(0).filter(shown).filter(found) =~= Seq::empty());
            let nothing = Seq::<QueryCandidate>::empty();
            assert(page_of(nothing, query.offset as int, query.limit).map_values(mark_current)
                =~= Seq::empty());
            assert(bindings_of(nothing) =~= Map::empty());
        }
        for i in 0..self.candidates.len()
            invariant
                all == self.candidates@,
                ids@ == ids_of(all),
                shown == (|c: QueryCandidate| c.source(collapse, ids@) is None),
                found == (|c: QueryCandidate|
                    matches(c.resolved.summary, needle@) || texts@.contains(c.id())),
                id == self.current_for(collapse),
                mark_current == (|c: QueryCandidate|
                    marked(c.resolved.summary, id == Some(c.id()))),
                match current_id {
                    Some(current) => id == Some(current@),
                    None => id is None,
                },
                size == page_size(query.limit),
                references@ == references_of(all.take(i as int)),
                bindings@ == bindings_of(all.take(i as int).filter(shown)),
                current == current_among(all.take(i as int).filter(shown), id),
                matched == all.take(i as int).filter(shown).filter(found).len(),
                matched <= i,
                entries@ == page_of(
                    all.take(i as int).filter(shown).filter(found),
                    query.offset as int,
                    query.limit,
                ).map_values(mark_current),
        {
            let candidate = &self.candidates[i];
            let ghost before = all.take(i as int).filter(shown);
            proof {
                filter_extends(all, i as int, shown);
                assert(all.take(i + 1).drop_last() =~= all.take(i as int));
                assert(all.take(i + 1).last() == all[i as int]);
            }
            add_paths(&mut references, &candidate.resolved.generated_paths);
            if candidate.collapsed_source(collapse, &ids).is_none() {
                let ghost after = before.push(*candidate);
                proof {
                    assert(after.drop_last() =~= before);
                    reveal(Seq::filter);
                }
                let summary = &candidate.resolved.summary;
                bindings.insert(
                    summary.id.clone(),
                    IdentityBinding { raw_id: candidate.raw_id, revision: summary.revision },
                );
                let here: bool = is_current(&current_id, &summary.id);
                if here {
                    current = Some(mark(summary, true));
                }
                if matches_query(summary, needle.as_str()) || texts.contains(summary.id.as_str()) {
                    let ghost hits = before.filter(found);
                    let ghost more = hits.push(*candidate);
                    assert(after.filter(found) =~= more);
                    if matched >= query.offset && matched - query.offset < size {
                        entries.push(mark(summary, here));
                        proof {
                            assert(page_of(more, query.offset as int, query.limit) =~= page_of(
                                hits,
                                query.offset as int,
                                query.limit,
                            ).push(*candidate));
                            assert(page_of(more, query.offset as int, query.limit).map_values(
                                mark_current,
                            ) =~= page_of(hits, query.offset as int, query.limit).map_values(
                                mark_current,
                            ).push(mark_current(*candidate)));
                        }
                    } else {
                        assert(page_of(more, query.offset as int, query.limit) =~= page_of(
                            hits,
                            query.offset as int,
                            query.limit,
                        ));
                    }
                    matched = matched + 1;
                } else {
                    assert(after.filter(found) =~= before.filter(found));
                }
            }
        }
        assert(all.take(all.len() as int) =~= all);
        QueryProjection {
            current,
            entries,
            matched,
            bindings,
            artifact_references: references,
            complete: self.complete,
        }
    }
}

/// The texts in a list, as a set.
pub fn set_of(texts: &Vec<String>) -> (set: StringHashSet)
    ensures
        set@ == paths_of(texts@),
{
    let mut set = StringHashSet::new();
    add_paths(&mut set, texts);
    assert(set@ =~= paths_of(texts@));
    set
}

fn add_paths(references: &mut StringHashSet, paths: &Vec<String>)
    ensures
        final(references)@ == old(references)@.union(paths_of(paths@)),
{
    assert(paths@.take(0) =~= Seq::empty());
    assert(references@.union(paths_of(paths@.take(0))) =~= references@);
    for i in 0..paths.len()
        invariant
            references@ == old(references)@.union(paths_of(paths@.take(i as int))),
    {
        references.insert(paths[i].clone());
        proof {
            assert(paths@.take(i + 1).drop_last() =~= paths@.take(i as int));
            assert(old(references)@.union(paths_of(paths@.take(i + 1))) =~= old(references)@.union(
                paths_of(paths@.take(i as int)),
            ).insert(paths@[i as int]@));
        }
    }
    assert(paths@.take(paths@.len() as int) =~= paths@);
}

/// Pages fit together: what is left at an offset is the page there followed by
/// what is left behind it, and a page is empty only where nothing is left.
pub proof fn pages_partition_the_matches<T>(all: Seq<T>, offset: int, limit: usize)
    requires
        0 <= offset,
    ensures
        ({
            let page = page_of(all, offset, limit);
            &&& rest_from(all, offset) == page + rest_from(all, offset + page.len())
            &&& page.len() == 0 <==> all.len() <= offset
            &&& page.len() <= page_size(limit)
        }),
{
    let page = page_of(all, offset, limit);
    assert(rest_from(all, offset) =~= page + rest_from(all, offset + page.len()));
}

/// Without collapsing, every entry is shown; with it, an entry is hidden only
/// where the entry that it echoes is in the history.
pub proof fn only_echoes_of_present_entries_are_hidden(
    candidates: Seq<QueryCandidate>,
    candidate: QueryCandidate,
)
    requires
        candidates.contains(candidate),
    ensures
        visible(candidates, false) == candidates,
        !visible(candidates, true).contains(candidate) ==> (match candidate.resolved.echo_source_id {
            Some(source) => ids_of(candidates).contains(source@),
            None => false,
        }),
{
    let ids = ids_of(candidates);
    filter_keeps_all(candidates, |c: QueryCandidate| c.source(false, ids) is None);
    let keep = |c: QueryCandidate| c.source(true, ids) is None;
    if keep(candidate) {
        let i = choose|i: int| 0 <= i < candidates.len() && candidates[i] == candidate;
        filter_contains(candidates, keep, i);
    }
}

proof fn filter_keeps_all<T>(s: Seq<T>, keep: spec_fn(T) -> bool)
    requires
        forall|i: int| 0 <= i < s.len() ==> keep(#[trigger] s[i]),
    ensures
        s.filter(keep) == s,
    decreases s.len(),
{
    reveal(Seq::filter);
    if s.len() > 0 {
        assert forall|i: int| 0 <= i < s.drop_last().len() implies keep(
            #[trigger] s.drop_last()[i],
        ) by {
            assert(s.drop_last()[i] == s[i]);
        }
        filter_keeps_all(s.drop_last(), keep);
        assert(s.drop_last().push(s.last()) =~= s);
    }
}

pub(crate) proof fn filter_contains<T>(s: Seq<T>, keep: spec_fn(T) -> bool, i: int)
    requires
        0 <= i < s.len(),
        keep(s[i]),
    ensures
        s.filter(keep).contains(s[i]),
    decreases s.len(),
{
    reveal(Seq::filter);
    if i == s.len() - 1 {
        let kept = s.filter(keep);
        assert(kept[kept.len() - 1] == s[i]);
    } else {
        filter_contains(s.drop_last(), keep, i);
        let before = s.drop_last().filter(keep);
        let k = choose|k: int| 0 <= k < before.len() && before[k] == s[i];
        assert(s.filter(keep)[k] == s[i]);
    }
}

pub(crate) proof fn filter_within<T>(s: Seq<T>, keep: spec_fn(T) -> bool, k: int)
    requires
        0 <= k < s.filter(keep).len(),
    ensures
        s.contains(s.filter(keep)[k]),
        keep(s.filter(keep)[k]),
    decreases s.len(),
{
    reveal(Seq::filter);
    if s.len() > 0 {
        let before = s.drop_last().filter(keep);
        if k < before.len() {
            filter_within(s.drop_last(), keep, k);
            assert(s.filter(keep)[k] == before[k]);
            let i = choose|i: int|
                0 <= i < s.drop_last().len() && s.drop_last()[i] == before[k];
            assert(s[i] == before[k]);
        } else {
            assert(s[s.len() - 1] == s.filter(keep)[k]);
        }
    }
}

/// Every entry that a page shows can be acted on: its identifier is bound, to
/// an entry of the history with that identifier.
pub proof fn shown_entries_are_bound(
    history: CachedProjection,
    query: HistoryQuery,
    texts: Set<Seq<char>>,
    projection: QueryProjection,
    k: int,
)
    requires
        history.shows(query, texts, projection),
        0 <= k < projection.entries@.len(),
    ensures
        projection.bindings@.contains_key(projection.entries@[k].id@),
        exists|i: int|
            0 <= i < history.candidates@.len() && #[trigger] history.candidates@[i].id()
                == projection.entries@[k].id@ && history.candidates@[i].raw_id
                == projection.bindings@[projection.entries@[k].id@].raw_id
                && history.candidates@[i].resolved.summary.revision
                == projection.bindings@[projection.entries@[k].id@].revision,
{
    let shown = visible(history.candidates@, query.collapse_self_echoes);
    let found = history.found(query, texts);
    let page = page_of(found, query.offset as int, query.limit);
    let keep = |c: QueryCandidate|
        matches(c.resolved.summary, needle_of(query.query@)) || texts.contains(c.id());
    let at = query.offset + k;
    assert(page[k] == found[at]);
    filter_within(shown, keep, at);
    let j = choose|j: int| 0 <= j < shown.len() && shown[j] == found[at];
    bound(shown, j);
    let id = page[k].id();
    let b = choose|b: int|
        0 <= b < shown.len() && #[trigger] shown[b].id() == id && shown[b].raw_id == bindings_of(
            shown,
        )[id].raw_id && shown[b].resolved.summary.revision == bindings_of(shown)[id].revision;
    let ids = ids_of(history.candidates@);
    filter_within(
        history.candidates@,
        |c: QueryCandidate| c.source(query.collapse_self_echoes, ids) is None,
        b,
    );
    let i = choose|i: int|
        0 <= i < history.candidates@.len() && history.candidates@[i] == shown[b];
    assert(history.candidates@[i].id() == id);
}

proof fn bound(shown: Seq<QueryCandidate>, j: int)
    requires
        0 <= j < shown.len(),
    ensures
        bindings_of(shown).contains_key(shown[j].id()),
        exists|b: int|
            0 <= b < shown.len() && #[trigger] shown[b].id() == shown[j].id() && shown[b].raw_id
                == bindings_of(shown)[shown[j].id()].raw_id && shown[b].resolved.summary.revision
                == bindings_of(shown)[shown[j].id()].revision,
    decreases shown.len(),
{
    let last = shown.len() - 1;
    let id = shown[j].id();
    if shown[last].id() == id {
        assert(shown[last].raw_id == bindings_of(shown)[id].raw_id);
    } else {
        let before = shown.drop_last();
        bound(before, j);
        let b = choose|b: int|
            0 <= b < before.len() && #[trigger] before[b].id() == id && before[b].raw_id
                == bindings_of(before)[id].raw_id && before[b].resolved.summary.revision
                == bindings_of(before)[id].revision;
        assert(shown[b].id() == id);
    }
}

/// The current entry, the bindings and the references do not depend on what is
/// looked for or on the page that is asked for.
pub proof fn identity_is_independent_of_the_page(
    history: CachedProjection,
    first: HistoryQuery,
    second: HistoryQuery,
    first_texts: Set<Seq<char>>,
    second_texts: Set<Seq<char>>,
    a: QueryProjection,
    b: QueryProjection,
)
    requires
        history.shows(first, first_texts, a),
        history.shows(second, second_texts, b),
        first.collapse_self_echoes == second.collapse_self_echoes,
    ensures
        a.current == b.current,
        a.bindings@ == b.bindings@,
        a.artifact_references@ == b.artifact_references@,
        a.complete == b.complete,
{
}

} // verus!
