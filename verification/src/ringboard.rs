//! The Ringboard history store: reading, searching and changing it.
use crate::backend::{
    BackendError, BackendErrorKind, BackendResult, HistoryQuery,
    MAX_WAYLAND_SELECTION_BYTES,
};
use crate::bytes;
use crate::classification;
use crate::classification::{bounded_preview, INSPECTION_LIMIT};
use crate::digest;
use crate::model::{
    clone_files, BackendStatus, EntryDetails, EntrySummary, HistoryPage, ReplacementResult,
};
use crate::stream;
use crate::stream::Read;
use crate::text;
use artifacts::{ArtifactRecord, ArtifactRegistry};
use content::{FileProbe, ResolvedContent, ResolvedImage};
use projection::{
    CachedProjection, IdentityBinding, QueryCandidate, QueryProjection, ResolvedEntry,
};
use vstd::hash_map::*;
use vstd::hash_set::*;
use vstd::prelude::*;
use vstd::string::*;
use vstd::utf8::*;

pub mod artifacts;
pub mod capture;
pub mod content;
pub mod deletion;
pub mod details;
pub mod identity;
pub mod ipc;
pub mod mutation;
pub mod operation;
pub mod projection;
pub mod publication;
pub mod replacement;
pub mod screenshot;
pub mod search;
pub mod texts;

verus! {

/// The most bytes of an entry that its details show.
pub const MAX_DETAILS_BYTES: usize = 262_144;

/// How often the history was seen to change.
#[derive(Debug, Clone, Copy, PartialEq, Eq, Structural)]
pub struct RevisionState {
    pub token: Option<u64>,
    pub revision: u64,
}

impl RevisionState {
    /// The state once the history was seen with this token.
    pub open spec fn seen(self, token: u64) -> Self {
        if self.token == Some(token) {
            self
        } else {
            RevisionState {
                token: Some(token),
                revision: if self.revision < u64::MAX {
                    (self.revision + 1) as u64
                } else {
                    u64::MAX
                },
            }
        }
    }

    /// The revision of the history with this token.
    pub fn revision_for(&mut self, token: u64) -> (revision: u64)
        ensures
            *final(self) == old(self).seen(token),
            revision == final(self).revision,
    {
        let known: bool = match self.token {
            Some(seen) => seen == token,
            None => false,
        };
        if !known {
            self.token = Some(token);
            if self.revision < u64::MAX {
                self.revision = self.revision + 1;
            }
        }
        self.revision
    }
}

/// The revision changes exactly where the token does, and never goes back.
pub proof fn revisions_follow_tokens(state: RevisionState, token: u64)
    ensures
        state.seen(token).token == Some(token),
        state.seen(token).revision >= state.revision,
        state.revision < u64::MAX ==> (state.seen(token).revision == state.revision <==> state.token
            == Some(token)),
        state.seen(token).seen(token) == state.seen(token),
{
}

/// The history as it was last read, for one token.
pub struct SummaryCache {
    pub token: Option<u64>,
    pub projection: Option<CachedProjection>,
}

impl SummaryCache {
    /// Keeps what was read only where it was read for this token.
    pub fn select_token(&mut self, token: u64)
        ensures
            final(self).token == Some(token),
            final(self).projection == if old(self).token == Some(token) {
                old(self).projection
            } else {
                None
            },
    {
        let known: bool = match self.token {
            Some(seen) => seen == token,
            None => false,
        };
        if !known {
            self.projection = None;
        }
        self.token = Some(token);
    }
}

/// One entry as it is stored.
pub struct StoredEntry {
    pub raw_id: u64,
    pub favorite: bool,
    pub byte_size: u64,
    pub mime: String,
    pub reads: Vec<Read>,
}

impl StoredEntry {
    /// The paths of the files that the entry names, about which has to be found
    /// out what they are; none where it cannot be read.
    pub fn paths_to_probe(&self) -> (paths: Vec<Option<Vec<u8>>>)
        ensures
            ({
                let (whole, failed) = stream::read_input(self.reads@);
                if failed {
                    paths@.len() == 0
                } else {
                    mutation::names_paths(
                        paths@,
                        self.mime@,
                        bytes::head_of(whole, INSPECTION_LIMIT),
                    )
                }
            }),
    {
        match stream::read_all(self.reads.as_slice()) {
            Ok(whole) => {
                let head = bytes::first_bytes(whole.as_slice(), INSPECTION_LIMIT);
                ResolvedContent::paths_to_probe(self.mime.as_str(), head.as_slice())
            },
            Err(_) => Vec::new(),
        }
    }
}

/// What is found out about the image file that an entry names.
pub struct LocalFile {
    pub regular: bool,
    pub size: u64,
    pub content: Option<Vec<u8>>,
}

/// What the daemon knows of the history: which identifiers it has shown, and
/// what it last read.
pub struct RingboardBackend {
    pub ids: StringHashMap<IdentityBinding>,
    pub revision: RevisionState,
    pub summaries: SummaryCache,
    pub artifacts: ArtifactRegistry,
}

/// The fingerprint of an entry.
pub open spec fn fingerprint_of(entry: StoredEntry, content: ResolvedContent, digest: Seq<u8>) -> Seq<
    u8,
> {
    digest::sha256_of(
        identity::fingerprint_input(entry.raw_id, entry.byte_size, content.shown_mime(), digest),
    )
}

/// The entry that an image entry echoes: the one from which the file that it
/// names was made, or the one whose edit it is.
pub open spec fn echo_source(
    artifacts: ArtifactRegistry,
    content: ResolvedContent,
    preview: Seq<u8>,
    id: Seq<char>,
    file: LocalFile,
) -> Option<Seq<char>> {
    match content.image {
        Some(ResolvedImage::LocalFile(source)) => if valid_utf8(source.path@) {
            artifacts.made_from(
                artifacts::normal(decode_utf8(source.path@)),
                file.regular,
                file.size,
                match file.content {
                    Some(image) => Some(content::image_identity_of(source.mime@, image@)),
                    None => None,
                },
            )
        } else {
            None
        },
        Some(ResolvedImage::Inline { .. }) => artifacts.echoed(
            artifacts::inline_identity(content.shown_mime(), preview),
            id,
        ),
        None => None,
    }
}

/// `resolved` is what is shown of an entry with these contents.
pub open spec fn summarizes(
    artifacts: ArtifactRegistry,
    entry: StoredEntry,
    whole: Seq<u8>,
    content: ResolvedContent,
    file: LocalFile,
    resolved: ResolvedEntry,
) -> bool {
    let preview = bytes::head_of(whole, INSPECTION_LIMIT);
    let digest = identity::content_digest_of(whole);
    let fingerprint = fingerprint_of(entry, content, digest);
    let summary = resolved.summary;
    &&& summary.id@ == identity::opaque_id_of(fingerprint)
    &&& summary.revision == identity::revision_of(fingerprint)
    &&& summary.kind == content.kind
    &&& summary.mime@ == content.shown_mime()
    &&& summary.byte_size == entry.byte_size
    &&& summary.favorite == entry.favorite
    &&& !summary.current
    &&& summary.preview@ == classification::preview_of(classification::lossy_text(preview))
    &&& resolved.proof@ == ipc::proof_of(digest, encode_utf8(entry.mime@))
    &&& projection::paths_of(resolved.generated_paths@) == if artifacts.records().len() == 0 {
        Set::empty()
    } else {
        artifacts.references(whole)
    }
    &&& text::maybe(resolved.echo_source_id) == echo_source(
        artifacts,
        content,
        preview,
        summary.id@,
        file,
    )
}

impl RingboardBackend {
    /// A store of which nothing was read yet.
    pub fn new(artifacts: ArtifactRegistry) -> (backend: Self)
        ensures
            backend.ids@ == Map::<Seq<char>, IdentityBinding>::empty(),
            backend.revision == (RevisionState { token: None, revision: 0 }),
            backend.summaries.token is None,
            backend.summaries.projection is None,
            backend.artifacts == artifacts,
    {
        RingboardBackend {
            ids: StringHashMap::new(),
            revision: RevisionState { token: None, revision: 0 },
            summaries: SummaryCache { token: None, projection: None },
            artifacts,
        }
    }

    /// What is shown of an entry, given what its contents mean.
    pub fn summarize_content(
        &self,
        entry: &StoredEntry,
        whole: &[u8],
        content: &ResolvedContent,
        file: &LocalFile,
    ) -> (resolved: ResolvedEntry)
        ensures
            summarizes(self.artifacts, *entry, whole@, *content, *file, resolved),
    {
        let preview = bytes::first_bytes(whole, INSPECTION_LIMIT);
        let digest = identity::content_digest(whole);
        let fingerprint = identity::entry_fingerprint(
            entry.raw_id,
            entry.byte_size,
            content.mime(),
            &digest,
        );
        let id = identity::opaque_id(&fingerprint);
        let echo_source_id = match &content.image {
            Some(ResolvedImage::LocalFile(source)) => {
                let image = match &file.content {
                    Some(image) => Some(image.as_slice()),
                    None => None,
                };
                self.artifacts.match_local_image(source, file.regular, file.size, image)
            },
            Some(ResolvedImage::Inline { .. }) => self.artifacts.match_inline_echo(
                content.mime(),
                preview.as_slice(),
                id.as_str(),
            ),
            None => None,
        };
        assert(bytes::head_of(preview@, INSPECTION_LIMIT) =~= preview@);
        ResolvedEntry {
            summary: EntrySummary {
                revision: identity::entry_revision(&fingerprint),
                id,
                kind: content.kind(),
                mime: content.mime().to_owned(),
                byte_size: entry.byte_size,
                favorite: entry.favorite,
                current: false,
                preview: bounded_preview(preview.as_slice(), INSPECTION_LIMIT),
            },
            proof: ipc::content_proof(&digest, entry.mime.as_str()),
            generated_paths: self.artifacts.references_in(whole),
            echo_source_id,
        }
    }

    /// What is shown of an entry. `probes` and `file` say what was found out
    /// about the files that it names.
    pub fn summarize(&self, entry: &StoredEntry, probes: &[FileProbe], file: &LocalFile) -> (result:
        BackendResult<ResolvedEntry>)
        ensures
            ({
                let (whole, failed) = stream::read_input(entry.reads@);
                match result {
                    Ok(resolved) => {
                        &&& !failed
                        &&& whole.len() == entry.byte_size
                        &&& exists|content: ResolvedContent| #[trigger]
                            content.resolves(
                                entry.mime@,
                                bytes::head_of(whole, INSPECTION_LIMIT),
                                MAX_WAYLAND_SELECTION_BYTES,
                                probes@,
                            ) && summarizes(
                                self.artifacts,
                                *entry,
                                whole,
                                content,
                                *file,
                                resolved,
                            )
                    },
                    Err(error) => if failed {
                        error.is(BackendErrorKind::InvalidData, "Could not read clipboard entry"@)
                    } else {
                        whole.len() != entry.byte_size && error.is(
                            BackendErrorKind::Stale,
                            "Clipboard entry changed while its identity was calculated"@,
                        )
                    },
                }
            }),
    {
        let inspection = match identity::inspect_entry(entry.reads.as_slice(), entry.byte_size) {
            Ok(inspection) => inspection,
            Err(error) => {
                return Err(error);
            },
        };
        let whole = match stream::read_all(entry.reads.as_slice()) {
            Ok(whole) => whole,
            Err(_) => {
                return Err(content::invalid_entry("Could not read clipboard entry"));
            },
        };
        let content = ResolvedContent::resolve(
            entry.mime.as_str(),
            inspection.preview.as_slice(),
            MAX_WAYLAND_SELECTION_BYTES,
            probes,
        );
        Ok(self.summarize_content(entry, whole.as_slice(), &content, file))
    }

    /// Where the entry with this identifier is stored, if it was shown.
    pub fn resolve(&self, id: &str) -> (binding: BackendResult<IdentityBinding>)
        ensures
            match binding {
                Ok(binding) => self.ids@.contains_key(id@) && binding == self.ids@[id@],
                Err(error) => !self.ids@.contains_key(id@) && error.is(
                    BackendErrorKind::NotFound,
                    "Clipboard entry ID is unknown or stale"@,
                ),
            },
    {
        match self.ids.get(id) {
            Some(binding) => Ok(*binding),
            None => Err(BackendError::not_found("Clipboard entry ID is unknown or stale")),
        }
    }

    /// Why the entry that was read is not the one to act on, where it is not.
    pub open spec fn mismatch(
        id: Seq<char>,
        expected_revision: Option<u64>,
        binding: IdentityBinding,
        summary: EntrySummary,
    ) -> Option<Seq<char>> {
        if summary.id@ != id {
            Some("Clipboard entry ID is stale or has been reused"@)
        } else if summary.revision != binding.revision || (expected_revision is Some
            && expected_revision != Some(summary.revision)) {
            Some("Clipboard entry revision changed before the operation"@)
        } else {
            None
        }
    }

    /// Accepts the entry that was read now as the one to act on. Places in the
    /// store are used again, so what was shown before does not count. An
    /// identifier that does not fit is forgotten.
    pub fn verify_selection(
        &mut self,
        id: &str,
        expected_revision: Option<u64>,
        binding: IdentityBinding,
        summary: &EntrySummary,
    ) -> (result: BackendResult<()>)
        ensures
            final(self).revision == old(self).revision,
            final(self).summaries == old(self).summaries,
            final(self).artifacts == old(self).artifacts,
            match (
                RingboardBackend::mismatch(id@, expected_revision, binding, *summary),
                result,
            ) {
                (None, Ok(_)) => final(self).ids@ == old(self).ids@,
                (Some(message), Err(error)) => final(self).ids@ == old(self).ids@.remove(id@)
                    && error.is(BackendErrorKind::Stale, message),
                _ => false,
            },
    {
        let message = if !text::same(summary.id.as_str(), id) {
            "Clipboard entry ID is stale or has been reused"
        } else if summary.revision != binding.revision || match expected_revision {
            Some(revision) => revision != summary.revision,
            None => false,
        } {
            "Clipboard entry revision changed before the operation"
        } else {
            return Ok(());
        };
        self.ids.remove(id);
        Err(BackendError::stale(message))
    }

    /// Forgets what was shown and read. What is acted on next must be shown
    /// again first.
    pub fn clear_identity_state(&mut self)
        ensures
            final(self).ids@ == Map::<Seq<char>, IdentityBinding>::empty(),
            final(self).summaries.token is None,
            final(self).summaries.projection is None,
            final(self).revision == old(self).revision,
            final(self).artifacts == old(self).artifacts,
    {
        self.ids.clear();
        self.summaries.token = None;
        self.summaries.projection = None;
    }

    /// Takes note of an entry that is about to be shown.
    pub fn bind(&mut self, raw_id: u64, summary: &EntrySummary)
        ensures
            final(self).ids@ == old(self).ids@.insert(
                summary.id@,
                IdentityBinding { raw_id, revision: summary.revision },
            ),
            final(self).revision == old(self).revision,
            final(self).summaries == old(self).summaries,
            final(self).artifacts == old(self).artifacts,
    {
        self.ids.insert(
            summary.id.clone(),
            IdentityBinding { raw_id, revision: summary.revision },
        );
    }
}

/// What is said of the store, given whether its history could be opened.
pub fn status(opened: Result<(), BackendError>) -> (status: BackendStatus)
    ensures
        status.available == (opened is Ok),
        status.engine@ == "ringboard"@,
        status.detail@ == match opened {
            Ok(_) => "database-readable"@,
            Err(error) => error.message@,
        },
{
    match opened {
        Ok(_) => BackendStatus {
            available: true,
            engine: "ringboard".to_owned(),
            detail: "database-readable".to_owned(),
        },
        Err(error) => BackendStatus {
            available: false,
            engine: "ringboard".to_owned(),
            detail: error.message,
        },
    }
}

/// What came of reading one entry of the history.
pub enum EntryRead {
    Summarized(ResolvedEntry),
    Failed(BackendError),
    /// Reading it panicked.
    Panicked,
}

/// The entry can be left out, because it alone cannot be read.
pub open spec fn skipped(read: EntryRead) -> bool {
    match read {
        EntryRead::Summarized(_) => false,
        EntryRead::Failed(error) => error.kind is InvalidData || error.kind is NotFound,
        EntryRead::Panicked => true,
    }
}

/// The reading of the whole history has to stop at this entry.
pub open spec fn fatal(read: EntryRead) -> bool {
    read is Failed && !skipped(read)
}

/// The entries that could be read, in order.
pub open spec fn readable(reads: Seq<(u64, EntryRead)>) -> Seq<QueryCandidate>
    decreases reads.len(),
{
    if reads.len() == 0 {
        Seq::empty()
    } else {
        let before = readable(reads.drop_last());
        match reads.last() {
            (raw_id, EntryRead::Summarized(resolved)) => before.push(
                QueryCandidate { raw_id, resolved },
            ),
            _ => before,
        }
    }
}

/// Reads the whole history: favourites first, then the rest, newest first.
/// `newest` is where the newest entry that is no favourite is stored. An entry
/// that cannot be read is left out; where the store fails, so does this.
pub fn load_projection(newest: Option<u64>, reads: Vec<(u64, EntryRead)>) -> (result: BackendResult<
    CachedProjection,
>)
    ensures
        match result {
            Ok(projection) => {
                &&& forall|i: int| 0 <= i < reads@.len() ==> !fatal((#[trigger] reads@[i]).1)
                &&& projection.current_id == newest
                &&& projection.candidates@ == readable(reads@)
                &&& projection.complete <==> (forall|i: int|
                    0 <= i < reads@.len() ==> !skipped((#[trigger] reads@[i]).1))
            },
            Err(error) => exists|i: int|
                0 <= i < reads@.len() && fatal((#[trigger] reads@[i]).1) && reads@[i].1
                    == EntryRead::Failed(error) && forall|j: int|
                    0 <= j < i ==> !fatal((#[trigger] reads@[j]).1),
        },
{
    let ghost all = reads@;
    let mut rest = reads;
    let mut candidates: Vec<QueryCandidate> = Vec::new();
    let mut complete: bool = true;
    let ghost mut done: Seq<(u64, EntryRead)> = Seq::empty();
    while rest.len() > 0
        invariant
            all == reads@,
            all == done + rest@,
            candidates@ == readable(done),
            forall|i: int| 0 <= i < done.len() ==> !fatal((#[trigger] done[i]).1),
            complete <==> (forall|i: int| 0 <= i < done.len() ==> !skipped((#[trigger] done[i]).1)),
        decreases rest@.len(),
    {
        let ghost before = done;
        let ghost left = rest@;
        let (raw_id, read) = rest.remove(0);
        let ghost item = (raw_id, read);
        proof {
            assert(done.push(item).drop_last() =~= done);
            assert(done + left =~= done.push(item) + rest@);
            done = done.push(item);
        }
        match read {
            EntryRead::Summarized(resolved) => {
                candidates.push(QueryCandidate { raw_id, resolved });
            },
            EntryRead::Failed(error) => match error.kind {
                BackendErrorKind::InvalidData | BackendErrorKind::NotFound => {
                    assert(skipped(done[before.len() as int].1));
                    complete = false;
                },
                _ => {
                    proof {
                        let i = before.len() as int;
                        assert(all[i] == item);
                        assert(fatal(all[i].1));
                        assert forall|j: int| 0 <= j < i implies !fatal((#[trigger] all[j]).1) by {
                            assert(all[j] == before[j]);
                        }
                    }
                    return Err(error);
                },
            },
            EntryRead::Panicked => {
                assert(skipped(done[before.len() as int].1));
                complete = false;
            },
        }
        proof {
            if complete {
                assert forall|i: int| 0 <= i < done.len() implies !skipped(
                    (#[trigger] done[i]).1,
                ) by {
                    if i < before.len() {
                        assert(done[i] == before[i]);
                    }
                }
            } else if forall|i: int| 0 <= i < done.len() ==> !skipped((#[trigger] done[i]).1) {
                assert forall|i: int| 0 <= i < before.len() implies !skipped(
                    (#[trigger] before[i]).1,
                ) by {
                    assert(done[i] == before[i]);
                }
            }
        }
    }
    assert(done =~= all);
    Ok(CachedProjection { current_id: newest, candidates, complete })
}

/// Where the page behind this one begins.
pub open spec fn consumed(query: HistoryQuery, projection: QueryProjection) -> usize {
    if query.offset + projection.entries@.len() <= usize::MAX {
        (query.offset + projection.entries@.len()) as usize
    } else {
        usize::MAX
    }
}

impl RingboardBackend {
    /// What a query shows of the history that was read before, where that was in
    /// the same state. `texts` holds the identifiers of entries that match by
    /// their whole text.
    pub fn cached_projection(&mut self, query: &HistoryQuery, texts: &StringHashSet, token: u64) -> (result:
        Option<QueryProjection>)
        ensures
            final(self).ids@ == old(self).ids@,
            final(self).revision == old(self).revision,
            final(self).artifacts == old(self).artifacts,
            final(self).summaries.token == Some(token),
            final(self).summaries.projection == if old(self).summaries.token == Some(token) {
                old(self).summaries.projection
            } else {
                None
            },
            match result {
                Some(shown) => final(self).summaries.projection matches Some(history)
                    && history.shows(*query, texts@, shown),
                None => final(self).summaries.projection is None,
            },
    {
        self.summaries.select_token(token);
        match &self.summaries.projection {
            Some(history) => Some(history.project_found(query, texts)),
            None => None,
        }
    }

    /// What a query shows of the history that was just read. `token` is its state
    /// before it was read, `now` after that. A history that could not be read
    /// completely is not kept, so that the next query reads it again.
    pub fn collect_query_projection(
        &mut self,
        query: &HistoryQuery,
        texts: &StringHashSet,
        token: u64,
        now: u64,
        history: CachedProjection,
    ) -> (result: BackendResult<QueryProjection>)
        ensures
            final(self).ids@ == old(self).ids@,
            final(self).revision == old(self).revision,
            final(self).artifacts == old(self).artifacts,
            final(self).summaries.token == old(self).summaries.token,
            match result {
                Ok(shown) => {
                    &&& now == token
                    &&& history.shows(*query, texts@, shown)
                    &&& final(self).summaries.projection == if history.complete {
                        Some(history)
                    } else {
                        old(self).summaries.projection
                    }
                },
                Err(error) => {
                    &&& now != token
                    &&& final(self).summaries.projection is None
                    &&& error.is(
                        BackendErrorKind::Stale,
                        "History changed while it was being read; retry the query"@,
                    )
                },
            },
    {
        if now != token {
            self.summaries.projection = None;
            return Err(
                BackendError::stale("History changed while it was being read; retry the query"),
            );
        }
        let shown = history.project_found(query, texts);
        if history.complete {
            self.summaries.projection = Some(history);
        }
        Ok(shown)
    }

    /// The page that a query returns. From now on, what was shown can be acted
    /// on, and nothing else.
    pub fn finalize_query(&mut self, query: &HistoryQuery, token: u64, shown: QueryProjection) -> (page:
        HistoryPage)
        ensures
            final(self).ids@ == shown.bindings@,
            final(self).revision == old(self).revision.seen(token),
            final(self).summaries == old(self).summaries,
            final(self).artifacts == old(self).artifacts,
            page.revision == final(self).revision.revision,
            page.generation == query.generation,
            page.current == shown.current,
            page.entries == shown.entries,
            page.has_more == (shown.matched > consumed(*query, shown)),
            page.next_offset == if page.has_more {
                Some(consumed(*query, shown))
            } else {
                None
            },
    {
        let end: usize = if query.offset <= usize::MAX - shown.entries.len() {
            query.offset + shown.entries.len()
        } else {
            usize::MAX
        };
        let has_more: bool = shown.matched > end;
        self.ids = shown.bindings;
        HistoryPage {
            revision: self.revision.revision_for(token),
            generation: query.generation,
            current: shown.current,
            has_more,
            next_offset: if has_more {
                Some(end)
            } else {
                None
            },
            entries: shown.entries,
        }
    }

    /// What an edit made of an entry, given what came of putting it on the
    /// clipboard. The edit is done in either case; where it is not on the
    /// clipboard, what was shown is forgotten.
    pub fn replaced(&mut self, entry: EntryDetails, publication: Result<(), BackendError>) -> (result:
        ReplacementResult)
        ensures
            result.entry == entry,
            result.selection_published == (publication is Ok),
            result.publication_message@ == match publication {
                Ok(_) => "Replacement published to the clipboard"@,
                Err(error) => "Replacement committed, but clipboard publication failed: "@
                    + error.message@,
            },
            final(self).revision == old(self).revision,
            final(self).artifacts == old(self).artifacts,
            publication is Ok ==> final(self).ids@ == old(self).ids@ && final(self).summaries
                == old(self).summaries,
            publication is Err ==> final(self).ids@ == Map::<Seq<char>, IdentityBinding>::empty()
                && final(self).summaries.token is None && final(self).summaries.projection is None,
    {
        let (selection_published, publication_message) = match publication {
            Ok(_) => (true, "Replacement published to the clipboard".to_owned()),
            Err(error) => {
                self.clear_identity_state();
                (
                    false,
                    text::join(
                        "Replacement committed, but clipboard publication failed: ",
                        error.message.as_str(),
                    ),
                )
            },
        };
        ReplacementResult { entry, selection_published, publication_message }
    }
}

/// A history that is queried for the first page, with what it shows bound: a
/// shown entry that has not changed can be acted on.
pub proof fn shown_entries_can_be_selected(
    history: CachedProjection,
    query: HistoryQuery,
    texts: Set<Seq<char>>,
    shown: QueryProjection,
    k: int,
)
    requires
        history.shows(query, texts, shown),
        0 <= k < shown.entries@.len(),
    ensures
        ({
            let id = shown.entries@[k].id@;
            &&& shown.bindings@.contains_key(id)
            &&& exists|i: int|
                0 <= i < history.candidates@.len() && #[trigger] history.candidates@[i].id() == id
                    && history.candidates@[i].raw_id == shown.bindings@[id].raw_id
                    && RingboardBackend::mismatch(
                    id,
                    Some(shown.bindings@[id].revision),
                    shown.bindings@[id],
                    history.candidates@[i].resolved.summary,
                ) is None
        }),
{
    projection::shown_entries_are_bound(history, query, texts, shown, k);
}

/// The most bytes that are read for the details of an entry.
pub open spec fn details_limit(max_text_bytes: usize) -> usize {
    if max_text_bytes <= MAX_DETAILS_BYTES {
        max_text_bytes
    } else {
        MAX_DETAILS_BYTES
    }
}

/// How many bytes of an entry are read for its details: one more than are
/// shown, to tell whether there are more.
pub fn details_read_limit(max_text_bytes: usize) -> (limit: usize)
    ensures
        limit == details_limit(max_text_bytes) + 1,
{
    if max_text_bytes <= MAX_DETAILS_BYTES {
        max_text_bytes + 1
    } else {
        MAX_DETAILS_BYTES + 1
    }
}

/// The details of an entry. `head` is its beginning, as far as it is read for
/// them; `probes` says what was found out about the files that it names.
pub fn entry_details(
    summary: EntrySummary,
    head: &[u8],
    max_text_bytes: usize,
    probes: &[FileProbe],
) -> (details: EntryDetails)
    ensures
        ({
            let limit = details_limit(max_text_bytes);
            let shown = bytes::head_of(head@, limit);
            &&& details.entry == summary
            &&& text::maybe(details.text) == if valid_utf8(shown) {
                Some(decode_utf8(shown))
            } else {
                None
            }
            &&& details.preview_truncated == (head@.len() > limit)
            &&& exists|content: ResolvedContent| #[trigger]
                content.resolves(summary.mime@, shown, content::MAX_THUMBNAIL_BYTES, probes@)
                    && details.files@ == content.files@ && details.image == match content.image {
                    Some(ResolvedImage::Inline { dimensions, .. }) => dimensions,
                    Some(ResolvedImage::LocalFile(source)) => Some(source.dimensions),
                    None => None,
                }
        }),
{
    let limit: usize = if max_text_bytes <= MAX_DETAILS_BYTES {
        max_text_bytes
    } else {
        MAX_DETAILS_BYTES
    };
    let shown = bytes::first_bytes(head, limit);
    let value = match text::text_of(shown.as_slice()) {
        Some(value) => Some(value.to_owned()),
        None => None,
    };
    let content = ResolvedContent::resolve(
        summary.mime.as_str(),
        shown.as_slice(),
        content::MAX_THUMBNAIL_BYTES,
        probes,
    );
    let image = content.image_metadata();
    let files = clone_files(&content.files);
    assert(content.resolves(
        summary.mime@,
        bytes::head_of(head@, details_limit(max_text_bytes)),
        content::MAX_THUMBNAIL_BYTES,
        probes@,
    ));
    assert(text::maybe(value) == if valid_utf8(shown@) {
        Some(decode_utf8(shown@))
    } else {
        None
    });
    EntryDetails {
        entry: summary,
        text: value,
        files,
        image,
        preview_truncated: head.len() > limit,
    }
}

/// The MIME type that is stored for an entry: `attribute` is what its file says,
/// nothing where it says nothing.
pub fn stored_mime_type(attribute: Result<Option<Vec<u8>>, ()>) -> (mime: BackendResult<String>)
    ensures
        match attribute {
            Err(_) => mime matches Err(error) && error.is(
                BackendErrorKind::InvalidData,
                "Could not read clipboard MIME metadata"@,
            ),
            Ok(None) => mime matches Ok(mime) && mime@ == ""@,
            Ok(Some(bytes)) => if valid_utf8(bytes@) {
                mime matches Ok(mime) && mime@ == decode_utf8(bytes@)
            } else {
                mime matches Err(error) && error.is(
                    BackendErrorKind::InvalidData,
                    "Clipboard MIME metadata is not valid UTF-8"@,
                )
            },
        },
{
    match attribute {
        Err(_) => Err(content::invalid_entry("Could not read clipboard MIME metadata")),
        Ok(None) => Ok("".to_owned()),
        Ok(Some(bytes)) => match text::text_of(bytes.as_slice()) {
            Some(mime) => Ok(mime.to_owned()),
            None => Err(content::invalid_entry("Clipboard MIME metadata is not valid UTF-8")),
        },
    }
}

impl RingboardBackend {
    /// The files of the daemon's own to delete, once a query has shown which of
    /// them entries refer to. A history that could not be read completely proves
    /// nothing of that.
    pub fn reconcile_projection(&self, shown: &QueryProjection, now: u64) -> (paths: Vec<String>)
        requires
            self.artifacts.wf(),
        ensures
            !shown.complete ==> paths@.len() == 0,
            shown.complete ==> artifacts::path_views(paths@) == self.artifacts.records().filter(
                |r: ArtifactRecord|
                    !artifacts::protected(
                        r,
                        shown.artifact_references@,
                        self.artifacts.active(),
                        artifacts::PRUNE_GRACE_SECONDS,
                        now,
                    ),
            ).map_values(|r: ArtifactRecord| r.path@),
    {
        if !shown.complete {
            return Vec::new();
        }
        self.artifacts.reconcile(&shown.artifact_references, now)
    }
}

} // verus!
