//! A history store in memory, for tests of what stands above a store.
use crate::backend::{
    BackendError, BackendErrorKind, BackendMutation, BackendResult, ClipboardBackend, EntryTarget,
    FileSelection, HistoryQuery, ScreenshotRegion,
};
use crate::classification;
use crate::classification::{bounded_preview, classify};
use crate::model::{
    BackendStatus, EntryDetails, EntrySummary, EntryThumbnail, HistoryPage, OperationResult,
    ReplacementResult,
};
use crate::ringboard::mutation;
use crate::ringboard::projection;
use crate::text;
use vstd::hash_set::*;
use vstd::prelude::*;
use vstd::string::*;
use vstd::utf8::*;

verus! {

/// A history store in memory.
pub struct FakeBackend {
    pub entries: Vec<EntryDetails>,
}

/// Where the entry with this identifier stands, or how many there are.
pub open spec fn entry_index(entries: Seq<EntryDetails>, id: Seq<char>) -> int
    decreases entries.len(),
{
    if entries.len() == 0 || entries[0].entry.id@ == id {
        0
    } else {
        1 + entry_index(entries.drop_first(), id)
    }
}

/// There is an entry with this identifier.
pub open spec fn known(entries: Seq<EntryDetails>, id: Seq<char>) -> bool {
    entry_index(entries, id) < entries.len()
}

/// No entry has the identifier, and `error` says so.
pub open spec fn unknown(entries: Seq<EntryDetails>, id: Seq<char>, error: BackendError) -> bool {
    !known(entries, id) && error.is(BackendErrorKind::NotFound, "Unknown clipboard entry ID"@)
}

/// The entry with the identifier is not in the expected state, or there is none,
/// and `error` says which.
pub open spec fn unfit(
    entries: Seq<EntryDetails>,
    id: Seq<char>,
    expected: Option<u64>,
    error: BackendError,
) -> bool {
    ||| unknown(entries, id, error)
    ||| {
        &&& known(entries, id)
        &&& expected is Some
        &&& expected != Some(entries[entry_index(entries, id)].entry.revision)
        &&& error.is(BackendErrorKind::Stale, "Clipboard entry revision is stale"@)
    }
}

/// There is an entry with the identifier in the expected state.
pub open spec fn fit(entries: Seq<EntryDetails>, id: Seq<char>, expected: Option<u64>) -> bool {
    &&& known(entries, id)
    &&& expected is None || expected == Some(entries[entry_index(entries, id)].entry.revision)
}

/// The sum of the revisions.
pub open spec fn revision_sum(entries: Seq<EntryDetails>) -> nat
    decreases entries.len(),
{
    if entries.len() == 0 {
        0
    } else {
        revision_sum(entries.drop_last()) + entries.last().entry.revision as nat
    }
}

/// What is looked for stands in the preview, in lower case.
pub open spec fn hit(needle: Seq<char>) -> spec_fn(EntryDetails) -> bool {
    |d: EntryDetails|
        needle.len() == 0 || text::holds(text::lowercase_text(d.entry.preview@), needle)
}

/// The entries that match, in order.
pub open spec fn hits(entries: Seq<EntryDetails>, needle: Seq<char>) -> Seq<EntrySummary> {
    entries.filter(hit(needle)).map_values(|d: EntryDetails| d.entry)
}

/// The first entry that is marked as current.
pub open spec fn first_current(entries: Seq<EntryDetails>) -> Option<EntrySummary>
    decreases entries.len(),
{
    if entries.len() == 0 {
        None
    } else if entries[0].entry.current {
        Some(entries[0].entry)
    } else {
        first_current(entries.drop_first())
    }
}

/// The page of the entries that match.
pub open spec fn page_of(entries: Seq<EntryDetails>, query: HistoryQuery) -> Seq<EntrySummary> {
    projection::at_most(
        projection::rest_from(
            hits(entries, text::lowercase_text(query.query@)),
            query.offset as int,
        ),
        query.limit as int,
    )
}

/// One of the targets is this entry.
pub open spec fn targeted(targets: Seq<EntryTarget>, id: Seq<char>) -> bool {
    exists|i: int| 0 <= i < targets.len() && (#[trigger] targets[i]).opaque_id@ == id
}

/// The entries that are not targeted.
pub open spec fn untargeted(
    entries: Seq<EntryDetails>,
    targets: Seq<EntryTarget>,
) -> Seq<EntryDetails> {
    entries.filter(|d: EntryDetails| !targeted(targets, d.entry.id@))
}

/// `entry` is `before` with new content.
pub open spec fn rewritten(
    before: EntryDetails,
    mime: Seq<char>,
    content: Seq<u8>,
    entry: EntryDetails,
) -> bool {
    &&& entry.entry.id == before.entry.id
    &&& entry.entry.revision == if before.entry.revision < u64::MAX {
        before.entry.revision + 1
    } else {
        u64::MAX as int
    }
    &&& entry.entry.kind == classification::kind_of(mime, content)
    &&& entry.entry.mime@ == mime
    &&& entry.entry.byte_size == content.len()
    &&& entry.entry.favorite == before.entry.favorite
    &&& entry.entry.current == before.entry.current
    &&& entry.entry.preview@ == classification::preview_of(classification::lossy_text(content))
    &&& text::maybe(entry.text) == if valid_utf8(content) {
        Some(decode_utf8(content))
    } else {
        None
    }
    &&& entry.files == before.files
    &&& entry.image == before.image
    &&& entry.preview_truncated == before.preview_truncated
}

/// An operation is done, without a path.
pub open spec fn done(
    result: BackendResult<OperationResult>,
    action: Seq<char>,
    message: Seq<char>,
) -> bool {
    result matches Ok(operation) && mutation::is_completed(operation, action, message)
        && operation.path is None
}

fn completed(action: &str, message: &str) -> (result: BackendResult<OperationResult>)
    ensures
        done(result, action@, message@),
{
    Ok(OperationResult::completed(action, message))
}

fn unknown_entry() -> (error: BackendError)
    ensures
        error.is(BackendErrorKind::NotFound, "Unknown clipboard entry ID"@),
{
    BackendError::not_found("Unknown clipboard entry ID")
}

impl Default for FakeBackend {
    fn default() -> (backend: Self)
        ensures
            backend.entries@.len() == 0,
    {
        FakeBackend { entries: Vec::new() }
    }
}

impl FakeBackend {
    pub fn with_entries(entries: Vec<EntryDetails>) -> (backend: Self)
        ensures
            backend.entries == entries,
    {
        FakeBackend { entries }
    }

    fn find(&self, id: &str) -> (at: usize)
        ensures
            at == entry_index(self.entries@, id@),
            at <= self.entries@.len(),
    {
        let mut at: usize = 0;
        assert(self.entries@.skip(0) =~= self.entries@);
        while at < self.entries.len()
            invariant
                at <= self.entries@.len(),
                entry_index(self.entries@, id@) == at + entry_index(
                    self.entries@.skip(at as int),
                    id@,
                ),
            decreases self.entries@.len() - at,
        {
            if text::same(self.entries[at].entry.id.as_str(), id) {
                return at;
            }
            assert(self.entries@.skip(at as int).drop_first() =~= self.entries@.skip(at + 1));
            at = at + 1;
        }
        at
    }

    /// Where the entry stands that is in the expected state.
    fn validate_revision(&self, id: &str, expected: Option<u64>) -> (at: BackendResult<usize>)
        ensures
            match at {
                Ok(at) => fit(self.entries@, id@, expected) && at == entry_index(
                    self.entries@,
                    id@,
                ) && at < self.entries@.len(),
                Err(error) => unfit(self.entries@, id@, expected, error),
            },
    {
        let at = self.find(id);
        if at == self.entries.len() {
            return Err(unknown_entry());
        }
        if let Some(revision) = expected {
            if revision != self.entries[at].entry.revision {
                return Err(BackendError::stale("Clipboard entry revision is stale"));
            }
        }
        Ok(at)
    }

    fn remove(&mut self, at: usize) -> (result: BackendResult<OperationResult>)
        requires
            at < old(self).entries@.len(),
        ensures
            final(self).entries@ == old(self).entries@.remove(at as int),
            done(result, "delete"@, "Fake entry deleted"@),
    {
        self.entries.remove(at);
        completed("delete", "Fake entry deleted")
    }

    fn favorite(&mut self, at: usize, favorite: bool) -> (result: BackendResult<OperationResult>)
        requires
            at < old(self).entries@.len(),
        ensures
            final(self).entries@ == old(self).entries@.update(
                at as int,
                favored(old(self).entries@[at as int], favorite),
            ),
            done(
                result,
                if favorite {
                    "favorite"@
                } else {
                    "unfavorite"@
                },
                "Fake favorite updated"@,
            ),
    {
        let mut entry = self.entries.remove(at);
        entry.entry.favorite = favorite;
        self.entries.insert(at, entry);
        assert(self.entries@ =~= old(self).entries@.update(
            at as int,
            favored(old(self).entries@[at as int], favorite),
        ));
        let action = if favorite {
            "favorite"
        } else {
            "unfavorite"
        };
        completed(action, "Fake favorite updated")
    }
}

/// The entry as a favourite, or not.
pub open spec fn favored(entry: EntryDetails, favorite: bool) -> EntryDetails {
    EntryDetails { entry: EntrySummary { favorite, ..entry.entry }, ..entry }
}

/// What a change makes of an entry that is in the expected state.
pub open spec fn mutated(
    before: Seq<EntryDetails>,
    id: Seq<char>,
    mutation: BackendMutation,
    after: Seq<EntryDetails>,
    result: BackendResult<OperationResult>,
) -> bool {
    let at = entry_index(before, id);
    match mutation {
        BackendMutation::Restore { .. } => after == before && done(
            result,
            "copy"@,
            "Fake operation completed"@,
        ),
        BackendMutation::ImageAsFile { .. } => after == before && done(
            result,
            "image-as-file"@,
            "Fake operation completed"@,
        ),
        BackendMutation::Annotate { .. } => after == before && done(
            result,
            "annotate"@,
            "Fake operation completed"@,
        ),
        BackendMutation::Remove => after == before.remove(at) && done(
            result,
            "delete"@,
            "Fake entry deleted"@,
        ),
        BackendMutation::SetFavorite(favorite) => after == before.update(
            at,
            favored(before[at], favorite),
        ) && done(
            result,
            if favorite {
                "favorite"@
            } else {
                "unfavorite"@
            },
            "Fake favorite updated"@,
        ),
        BackendMutation::Wipe => after.len() == 0 && done(
            result,
            "wipe"@,
            "Fake history cleared"@,
        ),
        BackendMutation::Cleanup => after == before && done(
            result,
            "cleanup"@,
            "Fake caches cleared"@,
        ),
    }
}

impl ClipboardBackend for FakeBackend {
    fn status(&self) -> (status: BackendStatus)
        ensures
            status.available,
            status.engine@ == "fake"@,
            status.detail@ == "test-backend"@,
    {
        BackendStatus {
            available: true,
            engine: "fake".to_owned(),
            detail: "test-backend".to_owned(),
        }
    }

    fn change_token(&self) -> (token: BackendResult<u64>)
        ensures
            token matches Ok(token) && token == revision_sum(self.entries@) % 0x1_0000_0000_0000_0000,
    {
        let mut sum: u64 = 0;
        let mut at: usize = 0;
        assert(self.entries@.take(0) =~= Seq::empty());
        while at < self.entries.len()
            invariant
                at <= self.entries@.len(),
                sum == revision_sum(self.entries@.take(at as int)) % 0x1_0000_0000_0000_0000,
            decreases self.entries@.len() - at,
        {
            assert(self.entries@.take(at + 1).drop_last() =~= self.entries@.take(at as int));
            sum = sum.wrapping_add(self.entries[at].entry.revision);
            at = at + 1;
        }
        assert(self.entries@.take(at as int) =~= self.entries@);
        Ok(sum)
    }

    fn query(&mut self, query: HistoryQuery) -> (page: BackendResult<HistoryPage>)
        ensures
            final(self).entries == old(self).entries,
            page matches Ok(page) && {
                let entries = page_of(old(self).entries@, query);
                let end = if query.offset + entries.len() <= usize::MAX {
                    query.offset + entries.len()
                } else {
                    usize::MAX as int
                };
                let more = hits(
                    old(self).entries@,
                    text::lowercase_text(query.query@),
                ).len() > end;
                &&& page.revision == 1
                &&& page.generation == query.generation
                &&& page.current == first_current(old(self).entries@)
                &&& page.entries@ == entries
                &&& page.has_more == more
                &&& page.next_offset == if more {
                    Some(end as usize)
                } else {
                    None
                }
            },
    {
        let needle = text::to_lowercase(query.query.as_str());
        let current = self.current();
        let found = self.search(needle.as_str());
        let matched: usize = found.len();
        let mut entries: Vec<EntrySummary> = Vec::new();
        let mut at: usize = query.offset;
        while at < matched && at - query.offset < query.limit
            invariant
                matched == found@.len(),
                query.offset <= at,
                query.offset < matched ==> at <= matched,
                query.offset >= matched ==> at == query.offset,
                at - query.offset <= query.limit,
                entries@ == if query.offset < matched {
                    found@.subrange(query.offset as int, at as int)
                } else {
                    Seq::empty()
                },
            decreases matched - at,
        {
            assert(found@.subrange(query.offset as int, at + 1) =~= found@.subrange(
                query.offset as int,
                at as int,
            ).push(found@[at as int]));
            entries.push(found[at].clone());
            at = at + 1;
        }
        assert(entries@ =~= page_of(self.entries@, query));
        let has_more: bool = matched > at;
        Ok(
            HistoryPage {
                revision: 1,
                generation: query.generation,
                current,
                entries,
                has_more,
                next_offset: if has_more {
                    Some(at)
                } else {
                    None
                },
            },
        )
    }

    fn revision(&mut self, opaque_id: &str) -> (revision: BackendResult<u64>)
        ensures
            final(self).entries == old(self).entries,
            match revision {
                Ok(revision) => known(old(self).entries@, opaque_id@) && revision == old(
                    self,
                ).entries@[entry_index(old(self).entries@, opaque_id@)].entry.revision,
                Err(error) => unknown(old(self).entries@, opaque_id@, error),
            },
    {
        let at = self.find(opaque_id);
        if at < self.entries.len() {
            Ok(self.entries[at].entry.revision)
        } else {
            Err(unknown_entry())
        }
    }

    fn details(&mut self, opaque_id: &str, max_text_bytes: usize) -> (details: BackendResult<
        EntryDetails,
    >)
        ensures
            final(self).entries == old(self).entries,
            match details {
                Ok(details) => known(old(self).entries@, opaque_id@) && details.same(
                    old(self).entries@[entry_index(old(self).entries@, opaque_id@)],
                ),
                Err(error) => unknown(old(self).entries@, opaque_id@, error),
            },
    {
        let at = self.find(opaque_id);
        if at < self.entries.len() {
            Ok(self.entries[at].copy())
        } else {
            Err(unknown_entry())
        }
    }

    fn thumbnail(&mut self, opaque_id: &str, expected_revision: Option<u64>, edge: u32) -> (thumbnail:
        BackendResult<EntryThumbnail>)
        ensures
            final(self).entries == old(self).entries,
            thumbnail matches Err(error) && if fit(
                old(self).entries@,
                opaque_id@,
                expected_revision,
            ) {
                error.is(BackendErrorKind::NotFound, "No thumbnail fixture for "@ + opaque_id@)
            } else {
                unfit(old(self).entries@, opaque_id@, expected_revision, error)
            },
    {
        match self.validate_revision(opaque_id, expected_revision) {
            Ok(_) => Err(
                BackendError::not_found(
                    text::join("No thumbnail fixture for ", opaque_id).as_str(),
                ),
            ),
            Err(error) => Err(error),
        }
    }

    fn capture_screenshot(&mut self, region: ScreenshotRegion, max_bytes: u64) -> (result:
        BackendResult<OperationResult>)
        ensures
            final(self).entries == old(self).entries,
            done(result, "screenshot"@, "Fake screenshot copied"@),
    {
        completed("screenshot", "Fake screenshot copied")
    }

    fn publish(&mut self, mime: &str, content: Vec<u8>, max_bytes: u64) -> (result: BackendResult<
        OperationResult,
    >)
        ensures
            final(self).entries == old(self).entries,
            if mime@ == ""@ || content@.len() == 0 {
                result matches Err(error) && error.is(
                    BackendErrorKind::InvalidData,
                    "Published clipboard content must have a MIME type and non-empty bytes"@,
                )
            } else {
                done(result, "publish"@, "Fake clipboard content published"@)
            },
    {
        if text::same(mime, "") || content.len() == 0 {
            return Err(
                BackendError::new(
                    BackendErrorKind::InvalidData,
                    "Published clipboard content must have a MIME type and non-empty bytes",
                ),
            );
        }
        completed("publish", "Fake clipboard content published")
    }

    fn publish_files(&mut self, selection: FileSelection, max_bytes: u64) -> (result: BackendResult<
        OperationResult,
    >)
        ensures
            final(self).entries == old(self).entries,
            if selection.paths@.len() == 0 {
                result matches Err(error) && error.is(
                    BackendErrorKind::InvalidData,
                    "File selection is empty"@,
                )
            } else {
                done(result, "publish-files"@, "Fake file selection published"@)
            },
    {
        if selection.paths.len() == 0 {
            return Err(BackendError::new(BackendErrorKind::InvalidData, "File selection is empty"));
        }
        completed("publish-files", "Fake file selection published")
    }

    fn mutate(
        &mut self,
        opaque_id: &str,
        expected_revision: Option<u64>,
        mutation: BackendMutation,
    ) -> (result: BackendResult<OperationResult>)
        ensures
            ({
                let before = old(self).entries@;
                let after = final(self).entries@;
                if mutation.targets_entry() && expected_revision is None {
                    after == before && (result matches Err(error) && error.is(
                        BackendErrorKind::InvalidData,
                        "Clipboard mutations require the current revision"@,
                    ))
                } else if mutation.targets_entry() && !fit(before, opaque_id@, expected_revision) {
                    after == before && (result matches Err(error) && unfit(
                        before,
                        opaque_id@,
                        expected_revision,
                        error,
                    ))
                } else {
                    mutated(before, opaque_id@, mutation, after, result)
                }
            }),
    {
        let mut at: usize = 0;
        match mutation.require_revision(expected_revision) {
            Ok(targeted) => {
                if targeted {
                    match self.validate_revision(opaque_id, expected_revision) {
                        Ok(found) => {
                            at = found;
                        },
                        Err(error) => {
                            return Err(error);
                        },
                    }
                }
            },
            Err(error) => {
                return Err(error);
            },
        }
        match mutation {
            BackendMutation::Restore { .. } => completed("copy", "Fake operation completed"),
            BackendMutation::ImageAsFile { .. } => completed(
                "image-as-file",
                "Fake operation completed",
            ),
            BackendMutation::Annotate { .. } => completed("annotate", "Fake operation completed"),
            BackendMutation::Remove => self.remove(at),
            BackendMutation::SetFavorite(favorite) => self.favorite(at, favorite),
            BackendMutation::Wipe => {
                self.entries = Vec::new();
                completed("wipe", "Fake history cleared")
            },
            BackendMutation::Cleanup => completed("cleanup", "Fake caches cleared"),
        }
    }

    fn remove_many(&mut self, targets: &[EntryTarget]) -> (result: BackendResult<OperationResult>)
        ensures
            ({
                let before = old(self).entries@;
                let after = final(self).entries@;
                if forall|i: int|
                    0 <= i < targets@.len() ==> fit(
                        before,
                        (#[trigger] targets@[i]).opaque_id@,
                        Some(targets@[i].expected_revision),
                    ) {
                    after == untargeted(before, targets@) && done(
                        result,
                        "delete-many"@,
                        text::decimal(targets@.len()) + " fake clipboard entries deleted"@,
                    )
                } else {
                    after == before && (result matches Err(error) && exists|i: int|
                        0 <= i < targets@.len() && unfit(
                            before,
                            (#[trigger] targets@[i]).opaque_id@,
                            Some(targets@[i].expected_revision),
                            error,
                        ) && forall|j: int|
                            0 <= j < i ==> fit(
                                before,
                                (#[trigger] targets@[j]).opaque_id@,
                                Some(targets@[j].expected_revision),
                            ))
                }
            }),
    {
        let mut at: usize = 0;
        while at < targets.len()
            invariant
                at <= targets@.len(),
                *self == *old(self),
                forall|i: int|
                    0 <= i < at ==> fit(
                        self.entries@,
                        (#[trigger] targets@[i]).opaque_id@,
                        Some(targets@[i].expected_revision),
                    ),
            decreases targets@.len() - at,
        {
            match self.validate_revision(
                targets[at].opaque_id.as_str(),
                Some(targets[at].expected_revision),
            ) {
                Ok(_) => {},
                Err(error) => {
                    assert(!fit(
                        self.entries@,
                        targets@[at as int].opaque_id@,
                        Some(targets@[at as int].expected_revision),
                    ));
                    return Err(error);
                },
            }
            at = at + 1;
        }
        let count: u64 = targets.len() as u64;
        self.drop_targets(targets);
        let message = text::join(
            text::format_u64(count).as_str(),
            " fake clipboard entries deleted",
        );
        completed("delete-many", message.as_str())
    }

    fn replace(
        &mut self,
        opaque_id: &str,
        expected_revision: u64,
        mime: &str,
        content: &[u8],
    ) -> (result: BackendResult<ReplacementResult>)
        ensures
            ({
                let before = old(self).entries@;
                let after = final(self).entries@;
                let at = entry_index(before, opaque_id@);
                match result {
                    Ok(result) => {
                        &&& fit(before, opaque_id@, Some(expected_revision))
                        &&& after.len() == before.len()
                        &&& after == before.update(at, after[at])
                        &&& rewritten(before[at], mime@, content@, after[at])
                        &&& result.entry.same(after[at])
                        &&& result.selection_published
                        &&& result.publication_message@ == "Replacement published to the clipboard"@
                    },
                    Err(error) => after == before && unfit(
                        before,
                        opaque_id@,
                        Some(expected_revision),
                        error,
                    ),
                }
            }),
    {
        let at = match self.validate_revision(opaque_id, Some(expected_revision)) {
            Ok(at) => at,
            Err(error) => {
                return Err(error);
            },
        };
        let mut entry = self.entries.remove(at);
        if entry.entry.revision < u64::MAX {
            entry.entry.revision = entry.entry.revision + 1;
        }
        let length: usize = content.len();
        entry.entry.kind = classify(mime, content);
        entry.entry.mime = mime.to_owned();
        entry.entry.byte_size = length as u64;
        entry.entry.preview = bounded_preview(content, length);
        entry.text = match text::text_of(content) {
            Some(value) => Some(value.to_owned()),
            None => None,
        };
        let shown = entry.copy();
        let ghost changed = entry;
        self.entries.insert(at, entry);
        assert(self.entries@ =~= old(self).entries@.update(at as int, changed));
        Ok(
            ReplacementResult {
                entry: shown,
                selection_published: true,
                publication_message: "Replacement published to the clipboard".to_owned(),
            },
        )
    }

    fn cancel_operation(&mut self, operation_id: &str) -> (cancelled: BackendResult<bool>)
        ensures
            final(self).entries == old(self).entries,
            cancelled == Ok::<bool, BackendError>(false),
    {
        Ok(false)
    }
}

impl FakeBackend {
    /// The first entry that is marked as current.
    fn current(&self) -> (current: Option<EntrySummary>)
        ensures
            current == first_current(self.entries@),
    {
        let mut at: usize = 0;
        assert(self.entries@.skip(0) =~= self.entries@);
        while at < self.entries.len()
            invariant
                at <= self.entries@.len(),
                first_current(self.entries@) == first_current(self.entries@.skip(at as int)),
            decreases self.entries@.len() - at,
        {
            if self.entries[at].entry.current {
                return Some(self.entries[at].entry.clone());
            }
            assert(self.entries@.skip(at as int).drop_first() =~= self.entries@.skip(at + 1));
            at = at + 1;
        }
        None
    }

    /// The entries that match, in order.
    fn search(&self, needle: &str) -> (found: Vec<EntrySummary>)
        ensures
            found@ == hits(self.entries@, needle@),
    {
        let mut found: Vec<EntrySummary> = Vec::new();
        let ghost all = self.entries@;
        let ghost summary = |d: EntryDetails| d.entry;
        let mut at: usize = 0;
        proof {
            reveal(Seq::filter);
            assert(all.take(0).filter(hit(needle@)).map_values(summary) =~= Seq::empty());
        }
        while at < self.entries.len()
            invariant
                at <= all.len(),
                all == self.entries@,
                summary == (|d: EntryDetails| d.entry),
                found@ == all.take(at as int).filter(hit(needle@)).map_values(summary),
            decreases all.len() - at,
        {
            let entry = &self.entries[at].entry;
            proof {
                reveal(Seq::filter);
                assert(all.take(at + 1).drop_last() =~= all.take(at as int));
                assert(all.take(at + 1).last() == all[at as int]);
                let before = all.take(at as int).filter(hit(needle@));
                assert(before.push(all[at as int]).map_values(summary) =~= before.map_values(
                    summary,
                ).push(all[at as int].entry));
            }
            if needle.is_empty() || text::contains_text(
                text::to_lowercase(entry.preview.as_str()).as_str(),
                needle,
            ) {
                found.push(entry.clone());
            }
            at = at + 1;
        }
        assert(all.take(at as int) =~= all);
        found
    }

    /// Removes the entries that are targeted.
    fn drop_targets(&mut self, targets: &[EntryTarget])
        ensures
            final(self).entries@ == untargeted(old(self).entries@, targets@),
    {
        let mut ids = StringHashSet::new();
        let mut i: usize = 0;
        while i < targets.len()
            invariant
                i <= targets@.len(),
                *self == *old(self),
                forall|s: Seq<char>|
                    ids@.contains(s) <==> exists|j: int|
                        0 <= j < i && (#[trigger] targets@[j]).opaque_id@ == s,
            decreases targets@.len() - i,
        {
            let ghost before = ids@;
            ids.insert(targets[i].opaque_id.clone());
            proof {
                assert forall|s: Seq<char>| ids@.contains(s) implies exists|j: int|
                    0 <= j < i + 1 && (#[trigger] targets@[j]).opaque_id@ == s by {
                    if s == targets@[i as int].opaque_id@ {
                        assert(targets@[i as int].opaque_id@ == s);
                    } else {
                        assert(before.contains(s));
                    }
                }
            }
            i = i + 1;
        }
        let ghost keep = |d: EntryDetails| !targeted(targets@, d.entry.id@);
        let mut rest: Vec<EntryDetails> = Vec::new();
        std::mem::swap(&mut rest, &mut self.entries);
        let ghost all = rest@;
        let ghost mut done: Seq<EntryDetails> = Seq::empty();
        proof {
            reveal(Seq::filter);
        }
        while rest.len() > 0
            invariant
                all == done + rest@,
                self.entries@ == done.filter(keep),
                keep == (|d: EntryDetails| !targeted(targets@, d.entry.id@)),
                forall|s: Seq<char>| ids@.contains(s) <==> targeted(targets@, s),
            decreases rest@.len(),
        {
            let ghost left = rest@;
            let entry = rest.remove(0);
            proof {
                reveal(Seq::filter);
                assert(done.push(entry).drop_last() =~= done);
                assert(done + left =~= done.push(entry) + rest@);
                done = done.push(entry);
            }
            if !ids.contains(entry.entry.id.as_str()) {
                self.entries.push(entry);
            }
        }
        assert(done =~= all);
    }
}

/// Of several replacements of one state of an entry only one succeeds: after
/// one that did, the same state is not there to be replaced.
pub proof fn only_one_replacement_of_a_state_succeeds(
    before: Seq<EntryDetails>,
    after: Seq<EntryDetails>,
    id: Seq<char>,
    revision: u64,
    mime: Seq<char>,
    content: Seq<u8>,
)
    requires
        fit(before, id, Some(revision)),
        revision < u64::MAX,
        after.len() == before.len(),
        after == before.update(entry_index(before, id), after[entry_index(before, id)]),
        rewritten(before[entry_index(before, id)], mime, content, after[entry_index(before, id)]),
    ensures
        known(after, id),
        !fit(after, id, Some(revision)),
{
    index_is_first(before, id);
    index_is_kept(before, after, id);
}

/// The place of an entry is one in the list, or its end.
proof fn index_is_first(entries: Seq<EntryDetails>, id: Seq<char>)
    ensures
        0 <= entry_index(entries, id) <= entries.len(),
    decreases entries.len(),
{
    if entries.len() > 0 {
        index_is_first(entries.drop_first(), id);
    }
}

/// An entry that keeps its identifier keeps its place.
proof fn index_is_kept(before: Seq<EntryDetails>, after: Seq<EntryDetails>, id: Seq<char>)
    requires
        before.len() == after.len(),
        forall|i: int| 0 <= i < before.len() ==> (#[trigger] after[i]).entry.id == before[i].entry.id,
    ensures
        entry_index(after, id) == entry_index(before, id),
    decreases before.len(),
{
    if before.len() > 0 {
        assert(after[0].entry.id == before[0].entry.id);
        assert forall|i: int| 0 <= i < before.drop_first().len() implies (
        #[trigger] after.drop_first()[i]).entry.id == before.drop_first()[i].entry.id by {
            assert(after[i + 1].entry.id == before[i + 1].entry.id);
        }
        index_is_kept(before.drop_first(), after.drop_first(), id);
    }
}

} // verus!
