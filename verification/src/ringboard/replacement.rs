//! Replacing an entry by an edit of it. What the server has replaced stays
//! replaced: what goes wrong after that is told as such.
use crate::backend::{BackendError, BackendErrorKind, BackendResult};
use crate::bytes;
use crate::model::{EntryDetails, EntrySummary, ReplacementResult};
use crate::ringboard;
use crate::ringboard::artifacts;
use crate::ringboard::artifacts::InlineEchoRecord;
use crate::ringboard::content::{FileProbe, ResolvedContent, ResolvedImage};
use crate::ringboard::ipc;
use crate::ringboard::ipc::PolicyExchange;
use crate::ringboard::mutation;
use crate::ringboard::mutation::Loaded;
use crate::ringboard::operation::OperationCompletion;
use crate::ringboard::projection::{IdentityBinding, ResolvedEntry};
use crate::ringboard::screenshot::operation_error;
use crate::ringboard::{details_read_limit, entry_details, RingboardBackend, MAX_DETAILS_BYTES};
use crate::text;
use vstd::prelude::*;
use vstd::string::*;
use vstd::utf8::*;

verus! {

/// What replaces an entry.
#[derive(Debug, Clone, Copy, PartialEq, Eq, Structural)]
pub enum ReplacePurpose {
    /// A text that the user edited.
    Edit,
    /// An image that the user edited, of at most this size.
    Annotation { max_bytes: u64 },
}

/// What a replacement waits for.
pub enum ReplaceStage {
    /// The entry, read again.
    Loading { binding: IdentityBinding },
    /// The server, which replaces the entry at this place.
    Sending { raw_id: u64 },
    /// The entry that took the place.
    Reloading { raw_id: u64 },
    /// The beginning of that entry.
    Heading { summary: EntrySummary },
    /// What is found out about the files that it names.
    Probing { summary: EntrySummary, head: Vec<u8> },
    /// The clipboard, with the entry that took the place.
    Restoring { details: EntryDetails },
    /// The edited image.
    ReadingOutput { source: String },
    /// The records to be saved, with the echo that is expected of the edited image.
    Saving,
    /// The clipboard, with the edited image.
    Publishing,
    Over,
}

/// What a replacement needs next.
pub enum ReplaceAction {
    Load { raw_id: u64 },
    /// The request, with the edit in a file.
    Send(PolicyExchange),
    /// The beginning of the entry at this place, of at most this many bytes.
    ReadHead { raw_id: u64, limit: usize },
    Probe(Vec<Option<Vec<u8>>>),
    /// Put this state of this entry on the clipboard.
    Restore { id: String, revision: u64, max_bytes: u64 },
    /// The edited image.
    ReadOutput,
    /// Save the records of the daemon's own files, as they are now.
    SaveRegistry,
    /// Put the edited image on the clipboard.
    PublishOutput { max_bytes: u64 },
    /// Nothing: this is the outcome.
    Done(BackendResult<Replaced>),
}

/// What became of a replacement.
pub enum Replaced {
    Edit(ReplacementResult),
    Annotation(OperationCompletion),
}

/// What a replacement was given.
pub enum ReplaceEvent {
    Loaded(Loaded),
    Sent(BackendResult<()>),
    Head(BackendResult<Vec<u8>>),
    Probed(Vec<FileProbe>),
    Restored(BackendResult<()>),
    Output(BackendResult<Vec<u8>>),
    Saved(BackendResult<()>),
    Published(BackendResult<()>),
}

/// A replacement under way.
pub struct ReplaceJob {
    pub purpose: ReplacePurpose,
    pub id: String,
    pub revision: u64,
    pub mime: String,
    /// Where the entry is stored.
    pub raw_id: u64,
    pub stage: ReplaceStage,
}

impl ReplaceJob {
    /// The replacement is the same one, further on.
    pub open spec fn continues(self, before: ReplaceJob) -> bool {
        &&& self.purpose == before.purpose
        &&& self.id == before.id
        &&& self.revision == before.revision
        &&& self.mime == before.mime
        &&& self.raw_id == before.raw_id
    }

    fn at(self, stage: ReplaceStage) -> (job: ReplaceJob)
        ensures
            job.continues(self),
            job.stage == stage,
    {
        ReplaceJob {
            purpose: self.purpose,
            id: self.id,
            revision: self.revision,
            mime: self.mime,
            raw_id: self.raw_id,
            stage,
        }
    }

    /// The replacement is over, and nothing was replaced.
    fn failed(self, error: BackendError) -> (next: (ReplaceJob, ReplaceAction))
        ensures
            next.0.continues(self),
            fails_with(next.0, next.1, error),
    {
        (self.at(ReplaceStage::Over), ReplaceAction::Done(Err(error)))
    }

    /// The replacement is over; the entry was replaced, but this went wrong
    /// afterwards.
    fn committed(self, error: BackendError) -> (next: (ReplaceJob, ReplaceAction))
        ensures
            next.0.continues(self),
            commits_with(self.purpose, next.0, next.1, error.kind, error.message@),
    {
        match self.purpose {
            ReplacePurpose::Edit => (self.at(ReplaceStage::Over), ReplaceAction::Done(Err(error))),
            ReplacePurpose::Annotation { .. } => {
                let warning = text::join("Clipboard publication failed: ", error.message.as_str());
                let completion = OperationCompletion {
                    message: "Image edit committed".to_owned(),
                    warning: Some(warning),
                };
                (
                    self.at(ReplaceStage::Over),
                    ReplaceAction::Done(Ok(Replaced::Annotation(completion))),
                )
            },
        }
    }
}

/// The replacement is over, and failed with this.
pub open spec fn fails_with(job: ReplaceJob, action: ReplaceAction, error: BackendError) -> bool {
    job.stage is Over && action == ReplaceAction::Done(Err(error))
}

/// The replacement is over, and this went wrong after the entry was replaced. Of
/// an image that is a warning.
pub open spec fn commits_with(
    purpose: ReplacePurpose,
    job: ReplaceJob,
    action: ReplaceAction,
    kind: BackendErrorKind,
    message: Seq<char>,
) -> bool {
    &&& job.stage is Over
    &&& match purpose {
        ReplacePurpose::Edit => action matches ReplaceAction::Done(Err(error)) && error.is(
            kind,
            message,
        ),
        ReplacePurpose::Annotation { .. } => action matches ReplaceAction::Done(
            Ok(Replaced::Annotation(completion)),
        ) && completion.message@ == "Image edit committed"@ && text::maybe(completion.warning)
            == Some("Clipboard publication failed: "@ + message),
    }
}

/// `details` shows an entry with this beginning.
pub open spec fn details_of(
    details: EntryDetails,
    summary: EntrySummary,
    head: Seq<u8>,
    probes: Seq<FileProbe>,
) -> bool {
    let shown = bytes::head_of(head, MAX_DETAILS_BYTES);
    &&& details.entry == summary
    &&& text::maybe(details.text) == if valid_utf8(shown) {
        Some(decode_utf8(shown))
    } else {
        None
    }
    &&& details.preview_truncated == (head.len() > MAX_DETAILS_BYTES)
    &&& exists|content: ResolvedContent| #[trigger]
        content.resolves(
            summary.mime@,
            shown,
            ringboard::content::MAX_THUMBNAIL_BYTES,
            probes,
        ) && details.files@ == content.files@ && details.image == match content.image {
            Some(ResolvedImage::Inline { dimensions, .. }) => dimensions,
            Some(ResolvedImage::LocalFile(source)) => Some(source.dimensions),
            None => None,
        }
}

/// `after` expects the edited image to come back as an echo of this entry.
pub open spec fn expects_echo(
    before: RingboardBackend,
    after: RingboardBackend,
    source: Seq<char>,
    image: Seq<u8>,
    now: u64,
) -> bool {
    &&& after.ids@ == before.ids@
    &&& after.revision == before.revision
    &&& after.summaries == before.summaries
    &&& after.artifacts.root() == before.artifacts.root()
    &&& after.artifacts.records() == before.artifacts.records()
    &&& after.artifacts.active() == before.artifacts.active()
    &&& exists|record: InlineEchoRecord| #[trigger]
        artifacts::is_echo(
            record,
            source,
            artifacts::inline_identity("image/png"@, image),
            now,
        ) && artifacts::echo_added(before.artifacts.echoes(), record, after.artifacts.echoes())
}

/// The server is asked to replace the entry in the state that was read.
pub open spec fn asks_to_replace(
    job: ReplaceJob,
    raw_id: u64,
    resolved: ResolvedEntry,
    next: ReplaceJob,
    action: ReplaceAction,
) -> bool {
    let mime = encode_utf8(ipc::stored_mime_of(job.mime@));
    if mime.len() > ipc::MAX_MIME_BYTES {
        next.stage is Over && (action matches ReplaceAction::Done(Err(error)) && error.is(
            BackendErrorKind::Unavailable,
            "Replacement MIME exceeds Ringboard's limit"@,
        ))
    } else {
        &&& next.stage == (ReplaceStage::Sending { raw_id })
        &&& action matches ReplaceAction::Send(exchange) && exchange.version()
            == ipc::POLICY_VERSION && exchange.packet() == ipc::request_packet(
            ipc::OP_REPLACE,
            raw_id,
            resolved.proof@,
            mime,
        )
    }
}

/// What `event` makes of a replacement at the moment `now`, in seconds.
pub open spec fn replace_advanced(
    before: RingboardBackend,
    job: ReplaceJob,
    event: ReplaceEvent,
    now: u64,
    after: RingboardBackend,
    next: ReplaceJob,
    action: ReplaceAction,
) -> bool {
    &&& next.continues(job)
    &&& match (job.stage, event) {
        (ReplaceStage::Loading { binding }, ReplaceEvent::Loaded(loaded)) => exists|
            result: BackendResult<ResolvedEntry>,
        | #[trigger]
            mutation::selects(
                before,
                after,
                job.id@,
                Some(job.revision),
                binding,
                loaded,
                result,
            ) && match result {
                Err(error) => fails_with(next, action, error),
                Ok(resolved) => asks_to_replace(job, binding.raw_id, resolved, next, action),
            },
        (ReplaceStage::Sending { raw_id }, ReplaceEvent::Sent(Ok(_))) => {
            &&& mutation::forgotten(before, after)
            &&& after.artifacts == before.artifacts
            &&& next.stage == (ReplaceStage::Reloading { raw_id })
            &&& action == (ReplaceAction::Load { raw_id })
        },
        (ReplaceStage::Sending { .. }, ReplaceEvent::Sent(Err(error))) => {
            &&& mutation::unchanged(before, after)
            &&& fails_with(next, action, error)
        },
        (ReplaceStage::Reloading { raw_id }, ReplaceEvent::Loaded(loaded)) => match loaded {
            Loaded::Missing => mutation::unchanged(before, after) && commits_with(
                job.purpose,
                next,
                action,
                BackendErrorKind::NotFound,
                "Clipboard entry is stale or missing"@,
            ),
            Loaded::Failed(error) => mutation::unchanged(before, after) && commits_with(
                job.purpose,
                next,
                action,
                error.kind,
                error.message@,
            ),
            Loaded::Entry(resolved) => {
                &&& after.ids@ == before.ids@.insert(
                    resolved.summary.id@,
                    IdentityBinding { raw_id, revision: resolved.summary.revision },
                )
                &&& after.revision == before.revision
                &&& after.summaries == before.summaries
                &&& after.artifacts == before.artifacts
                &&& next.stage == (ReplaceStage::Heading { summary: resolved.summary })
                &&& action == (ReplaceAction::ReadHead {
                    raw_id,
                    limit: (MAX_DETAILS_BYTES + 1) as usize,
                })
            },
        },
        (ReplaceStage::Heading { summary }, ReplaceEvent::Head(Ok(head))) => {
            &&& mutation::unchanged(before, after)
            &&& next.stage == (ReplaceStage::Probing { summary, head })
            &&& action matches ReplaceAction::Probe(paths) && mutation::names_paths(
                paths@,
                summary.mime@,
                bytes::head_of(head@, MAX_DETAILS_BYTES),
            )
        },
        (ReplaceStage::Heading { .. }, ReplaceEvent::Head(Err(error))) => {
            &&& mutation::unchanged(before, after)
            &&& commits_with(job.purpose, next, action, error.kind, error.message@)
        },
        (ReplaceStage::Probing { summary, head }, ReplaceEvent::Probed(probes)) => {
            &&& mutation::unchanged(before, after)
            &&& match job.purpose {
                ReplacePurpose::Edit => {
                    &&& next.stage matches ReplaceStage::Restoring { details } && details_of(
                        details,
                        summary,
                        head@,
                        probes@,
                    )
                    &&& action == (ReplaceAction::Restore {
                        id: summary.id,
                        revision: summary.revision,
                        max_bytes: MAX_DETAILS_BYTES as u64,
                    })
                },
                ReplacePurpose::Annotation { .. } => {
                    &&& next.stage == (ReplaceStage::ReadingOutput { source: summary.id })
                    &&& action is ReadOutput
                },
            }
        },
        (ReplaceStage::Restoring { details }, ReplaceEvent::Restored(publication)) => {
            &&& after.revision == before.revision
            &&& after.artifacts == before.artifacts
            &&& publication is Ok ==> mutation::unchanged(before, after)
            &&& publication is Err ==> mutation::forgotten(before, after)
            &&& next.stage is Over
            &&& action matches ReplaceAction::Done(Ok(Replaced::Edit(result))) && result.entry
                == details && result.selection_published == (publication is Ok)
                && result.publication_message@ == match publication {
                Ok(_) => "Replacement published to the clipboard"@,
                Err(error) => "Replacement committed, but clipboard publication failed: "@
                    + error.message@,
            }
        },
        (ReplaceStage::ReadingOutput { source }, ReplaceEvent::Output(Ok(image))) => {
            &&& expects_echo(before, after, source@, image@, now)
            &&& next.stage is Saving
            &&& action is SaveRegistry
        },
        (ReplaceStage::Saving, ReplaceEvent::Saved(Ok(_))) => {
            &&& mutation::forgotten(before, after)
            &&& after.artifacts == before.artifacts
            &&& next.stage is Publishing
            &&& action == (ReplaceAction::PublishOutput { max_bytes: output_limit(job.purpose) })
        },
        (ReplaceStage::Saving, ReplaceEvent::Saved(Err(error))) => {
            &&& mutation::unchanged(before, after)
            &&& commits_with(job.purpose, next, action, error.kind, error.message@)
        },
        (ReplaceStage::ReadingOutput { .. }, ReplaceEvent::Output(Err(error))) => {
            &&& mutation::unchanged(before, after)
            &&& commits_with(job.purpose, next, action, error.kind, error.message@)
        },
        (ReplaceStage::Publishing, ReplaceEvent::Published(Ok(_))) => {
            &&& after.ids@ == before.ids@
            &&& after.revision == before.revision
            &&& after.summaries == before.summaries
            &&& after.artifacts.same_setup(before.artifacts)
            &&& after.artifacts.records() == before.artifacts.records()
            &&& after.artifacts.active() is None
            &&& next.stage is Over
            &&& action matches ReplaceAction::Done(Ok(Replaced::Annotation(completion)))
                && completion.message@ == "Image edit completed"@ && completion.warning is None
        },
        (ReplaceStage::Publishing, ReplaceEvent::Published(Err(error))) => {
            &&& mutation::unchanged(before, after)
            &&& commits_with(job.purpose, next, action, error.kind, error.message@)
        },
        _ => {
            &&& mutation::unchanged(before, after)
            &&& next.stage is Over
            &&& action matches ReplaceAction::Done(Err(error)) && error.is(
                BackendErrorKind::OperationFailed,
                "Clipboard operation is out of order"@,
            )
        },
    }
}

/// The most bytes of an edited image that are published.
pub open spec fn output_limit(purpose: ReplacePurpose) -> u64 {
    match purpose {
        ReplacePurpose::Edit => 0,
        ReplacePurpose::Annotation { max_bytes } => max_bytes,
    }
}

impl RingboardBackend {
    /// Begins to replace an entry that was shown.
    pub fn begin_replacement(
        &self,
        purpose: ReplacePurpose,
        id: String,
        revision: u64,
        mime: String,
    ) -> (next: (ReplaceJob, ReplaceAction))
        ensures
            next.0.purpose == purpose,
            next.0.id == id,
            next.0.revision == revision,
            next.0.mime == mime,
            if self.ids@.contains_key(id@) {
                let binding = self.ids@[id@];
                &&& next.0.raw_id == binding.raw_id
                &&& next.0.stage == (ReplaceStage::Loading { binding })
                &&& next.1 == (ReplaceAction::Load { raw_id: binding.raw_id })
            } else {
                &&& next.0.stage is Over
                &&& next.1 matches ReplaceAction::Done(Err(error)) && error.is(
                    BackendErrorKind::NotFound,
                    "Clipboard entry ID is unknown or stale"@,
                )
            },
    {
        match self.resolve(id.as_str()) {
            Ok(binding) => (
                ReplaceJob {
                    purpose,
                    id,
                    revision,
                    mime,
                    raw_id: binding.raw_id,
                    stage: ReplaceStage::Loading { binding },
                },
                ReplaceAction::Load { raw_id: binding.raw_id },
            ),
            Err(error) => (
                ReplaceJob { purpose, id, revision, mime, raw_id: 0, stage: ReplaceStage::Over },
                ReplaceAction::Done(Err(error)),
            ),
        }
    }

    /// The entry was read again.
    fn replace_loaded(&mut self, job: ReplaceJob, binding: IdentityBinding, loaded: Loaded) -> (next: (
        ReplaceJob,
        ReplaceAction,
    ))
        requires
            old(self).wf(),
        ensures
            final(self).wf(),
            next.0.continues(job),
            exists|result: BackendResult<ResolvedEntry>| #[trigger]
                mutation::selects(
                    *old(self),
                    *final(self),
                    job.id@,
                    Some(job.revision),
                    binding,
                    loaded,
                    result,
                ) && match result {
                    Err(error) => fails_with(next.0, next.1, error),
                    Ok(resolved) => asks_to_replace(
                        job,
                        binding.raw_id,
                        resolved,
                        next.0,
                        next.1,
                    ),
                },
    {
        let result = self.select(job.id.as_str(), Some(job.revision), binding, loaded);
        assert(mutation::selects(
            *old(self),
            *self,
            job.id@,
            Some(job.revision),
            binding,
            loaded,
            result,
        ));
        let resolved = match result {
            Ok(resolved) => resolved,
            Err(error) => {
                return job.failed(error);
            },
        };
        let mime = ipc::storage_mime(job.mime.as_str());
        match ipc::replace(binding.raw_id, &resolved.proof, mime.as_str()) {
            Ok(exchange) => (
                job.at(ReplaceStage::Sending { raw_id: binding.raw_id }),
                ReplaceAction::Send(exchange),
            ),
            Err(error) => job.failed(error),
        }
    }

    /// Takes in what a replacement was given, and says what it needs next.
    pub fn advance_replacement(&mut self, job: ReplaceJob, event: ReplaceEvent, now: u64) -> (next:
        (ReplaceJob, ReplaceAction))
        requires
            old(self).wf(),
        ensures
            final(self).wf(),
            replace_advanced(*old(self), job, event, now, *final(self), next.0, next.1),
    {
        let ReplaceJob { purpose, id, revision, mime, raw_id: place, stage } = job;
        let job = ReplaceJob {
            purpose,
            id,
            revision,
            mime,
            raw_id: place,
            stage: ReplaceStage::Over,
        };
        match (stage, event) {
            (ReplaceStage::Loading { binding }, ReplaceEvent::Loaded(loaded)) => {
                self.replace_loaded(job, binding, loaded)
            },
            (ReplaceStage::Sending { raw_id }, ReplaceEvent::Sent(Ok(_))) => {
                self.clear_identity_state();
                (job.at(ReplaceStage::Reloading { raw_id }), ReplaceAction::Load { raw_id })
            },
            (ReplaceStage::Sending { .. }, ReplaceEvent::Sent(Err(error))) => job.failed(error),
            (ReplaceStage::Reloading { raw_id }, ReplaceEvent::Loaded(loaded)) => match loaded {
                Loaded::Missing => job.committed(
                    BackendError::not_found("Clipboard entry is stale or missing"),
                ),
                Loaded::Failed(error) => job.committed(error),
                Loaded::Entry(resolved) => {
                    self.bind(raw_id, &resolved.summary);
                    let limit = details_read_limit(MAX_DETAILS_BYTES);
                    (
                        job.at(ReplaceStage::Heading { summary: resolved.summary }),
                        ReplaceAction::ReadHead { raw_id, limit },
                    )
                },
            },
            (ReplaceStage::Heading { summary }, ReplaceEvent::Head(Ok(head))) => {
                let shown = bytes::first_bytes(head.as_slice(), MAX_DETAILS_BYTES);
                let paths = ResolvedContent::paths_to_probe(
                    summary.mime.as_str(),
                    shown.as_slice(),
                );
                (job.at(ReplaceStage::Probing { summary, head }), ReplaceAction::Probe(paths))
            },
            (
                ReplaceStage::Heading { .. },
                ReplaceEvent::Head(Err(error)),
            ) => job.committed(error),
            (ReplaceStage::Probing { summary, head }, ReplaceEvent::Probed(probes)) => {
                match job.purpose {
                    ReplacePurpose::Edit => {
                        let id = summary.id.clone();
                        let revision = summary.revision;
                        let details = entry_details(
                            summary,
                            head.as_slice(),
                            MAX_DETAILS_BYTES,
                            probes.as_slice(),
                        );
                        (
                            job.at(ReplaceStage::Restoring { details }),
                            ReplaceAction::Restore {
                                id,
                                revision,
                                max_bytes: MAX_DETAILS_BYTES as u64,
                            },
                        )
                    },
                    ReplacePurpose::Annotation { .. } => (
                        job.at(ReplaceStage::ReadingOutput { source: summary.id }),
                        ReplaceAction::ReadOutput,
                    ),
                }
            },
            (ReplaceStage::Restoring { details }, ReplaceEvent::Restored(publication)) => {
                let result = self.replaced(details, publication);
                (job, ReplaceAction::Done(Ok(Replaced::Edit(result))))
            },
            (ReplaceStage::ReadingOutput { source }, ReplaceEvent::Output(Ok(image))) => {
                self.artifacts.register_inline_echo(
                    source.as_str(),
                    "image/png",
                    image.as_slice(),
                    now,
                );
                (job.at(ReplaceStage::Saving), ReplaceAction::SaveRegistry)
            },
            (ReplaceStage::Saving, ReplaceEvent::Saved(Ok(_))) => {
                self.clear_identity_state();
                let max_bytes: u64 = match job.purpose {
                    ReplacePurpose::Edit => 0,
                    ReplacePurpose::Annotation { max_bytes } => max_bytes,
                };
                (job.at(ReplaceStage::Publishing), ReplaceAction::PublishOutput { max_bytes })
            },
            (
                ReplaceStage::ReadingOutput { .. },
                ReplaceEvent::Output(Err(error)),
            ) => job.committed(error),
            (ReplaceStage::Saving, ReplaceEvent::Saved(Err(error))) => job.committed(error),
            (ReplaceStage::Publishing, ReplaceEvent::Published(Ok(_))) => {
                self.artifacts.clear_active_selection();
                let completion = OperationCompletion {
                    message: "Image edit completed".to_owned(),
                    warning: None,
                };
                (job, ReplaceAction::Done(Ok(Replaced::Annotation(completion))))
            },
            (
                ReplaceStage::Publishing,
                ReplaceEvent::Published(Err(error)),
            ) => job.committed(error),
            _ => (
                job,
                ReplaceAction::Done(Err(operation_error("Clipboard operation is out of order"))),
            ),
        }
    }
}

/// The event is of the kind that the replacement waits for.
pub open spec fn in_turn(job: ReplaceJob, event: ReplaceEvent) -> bool {
    match job.stage {
        ReplaceStage::Loading { .. } | ReplaceStage::Reloading { .. } => event is Loaded,
        ReplaceStage::Sending { .. } => event is Sent,
        ReplaceStage::Heading { .. } => event is Head,
        ReplaceStage::Probing { .. } => event is Probed,
        ReplaceStage::Restoring { .. } => event is Restored,
        ReplaceStage::ReadingOutput { .. } => event is Output,
        ReplaceStage::Saving => event is Saved,
        ReplaceStage::Publishing => event is Published,
        ReplaceStage::Over => false,
    }
}

/// Once the server has replaced an image by its edit, the edit is never
/// reported as failed, whatever goes wrong afterwards.
pub proof fn a_committed_image_edit_is_never_reported_as_failed(
    before: RingboardBackend,
    job: ReplaceJob,
    event: ReplaceEvent,
    now: u64,
    after: RingboardBackend,
    next: ReplaceJob,
    action: ReplaceAction,
)
    requires
        replace_advanced(before, job, event, now, after, next, action),
        job.purpose is Annotation,
        in_turn(job, event),
        !(job.stage is Loading || job.stage is Sending),
        action is Done,
    ensures
        action matches ReplaceAction::Done(Ok(_)),
{
}

/// The server is asked to replace an entry only where the entry was just read
/// and is the one that the caller saw.
pub proof fn only_what_was_read_is_replaced(
    before: RingboardBackend,
    job: ReplaceJob,
    event: ReplaceEvent,
    now: u64,
    after: RingboardBackend,
    next: ReplaceJob,
    action: ReplaceAction,
)
    requires
        replace_advanced(before, job, event, now, after, next, action),
        action is Send,
    ensures
        event matches ReplaceEvent::Loaded(Loaded::Entry(resolved)) && resolved.summary.id@
            == job.id@ && resolved.summary.revision == job.revision,
{
}

/// What is done once the image editor has ended: `outcome` says whether it left
/// a result, or why it failed. No result means that the edit was cancelled.
pub fn annotation_edited(outcome: Result<bool, String>) -> (result: BackendResult<()>)
    ensures
        match outcome {
            Ok(true) => result is Ok,
            Ok(false) => result matches Err(error) && error.is(
                BackendErrorKind::OperationFailed,
                "Image edit was cancelled"@,
            ),
            Err(message) => result matches Err(error) && error.is(
                BackendErrorKind::OperationFailed,
                message@,
            ),
        },
{
    match outcome {
        Ok(true) => Ok(()),
        Ok(false) => Err(operation_error("Image edit was cancelled")),
        Err(message) => Err(operation_error(message.as_str())),
    }
}

/// Whether an edit goes on to replace its entry: the operation must not have
/// been cancelled, and the result must be a valid image.
pub fn annotation_accepted(begun: bool, valid: bool) -> (result: BackendResult<()>)
    ensures
        if !begun {
            result matches Err(error) && error.is(
                BackendErrorKind::OperationFailed,
                "Image edit was cancelled before commit"@,
            )
        } else if !valid {
            result matches Err(error) && error.is(
                BackendErrorKind::OperationFailed,
                "Annotation returned an invalid image"@,
            )
        } else {
            result is Ok
        },
{
    if !begun {
        Err(operation_error("Image edit was cancelled before commit"))
    } else if !valid {
        Err(operation_error("Annotation returned an invalid image"))
    } else {
        Ok(())
    }
}

} // verus!
