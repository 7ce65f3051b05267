//! What is done with one entry: each change goes through the state of the entry
//! at that moment, never through what was shown of it before.
use crate::backend;
use crate::backend::{BackendError, BackendErrorKind, BackendResult};
use crate::bytes;
use crate::classification;
use crate::model::{EntryKind, EntrySummary, OperationResult};
use crate::ringboard::artifacts;
use crate::ringboard::content;
use crate::ringboard::content::{
    image_extension, invalid_entry, FileProbe, Publication, ResolvedContent, ResolvedImage,
    MAX_THUMBNAIL_BYTES,
};
use crate::ringboard::ipc;
use crate::ringboard::ipc::PolicyExchange;
use crate::ringboard::projection::{IdentityBinding, ResolvedEntry};
use crate::ringboard::screenshot::operation_error;
use crate::ringboard::RingboardBackend;
use crate::selection;
use crate::selection::{effective_limit, read_selection, FileContent};
use crate::text;
use vstd::prelude::*;
use vstd::string::*;
use vstd::utf8::*;

verus! {

/// The URL of an absolute path.
pub open spec fn path_url(path: Seq<char>) -> Option<Seq<char>> {
    content::file_path_url(encode_utf8(path))
}

/// What came of reading an entry again.
pub enum Loaded {
    /// There is none at its place.
    Missing,
    Failed(BackendError),
    Entry(ResolvedEntry),
}

/// What is done with an entry.
#[derive(Debug, Clone, Copy, PartialEq, Eq, Structural)]
pub enum Purpose {
    /// Put it on the clipboard.
    Restore,
    /// Put a link to a file with its image on the clipboard.
    ImageAsFile,
    /// Write its image down to be edited.
    Annotate,
    Remove,
    SetFavorite(bool),
}

/// An image that waits to be edited, and what its edit will replace.
#[derive(Debug, PartialEq, Eq)]
pub struct AnnotationStage {
    pub input: String,
    pub output: String,
    pub opaque_id: String,
    pub revision: u64,
    pub max_bytes: u64,
}

/// What was done.
pub enum JobResult {
    Operation(OperationResult),
    Staged(AnnotationStage),
}

/// What a job waits for.
pub enum JobStage {
    /// The entry, read again.
    Loading { binding: IdentityBinding },
    /// Its content.
    Reading { summary: EntrySummary },
    /// What is found out about the files that it names.
    Probing { summary: EntrySummary, content: Vec<u8> },
    /// The clipboard.
    Publishing,
    /// A file with the image, whose MIME type is `mime`.
    Writing { summary: EntrySummary, mime: String, image: Vec<u8> },
    /// The record of the file at `path` to be saved.
    Saving { path: String },
    /// The clipboard, with a link to the file that is shown as `path`. It was
    /// made for this where `created` is.
    Linking { path: String, created: bool },
    /// A file that is removed because the job failed.
    Discarding { error: BackendError },
    /// The image file that the entry names.
    ReadingFile { revision: u64, mime: String },
    /// The files for an edit.
    Staging { revision: u64 },
    /// The server.
    Sending,
    Over,
}

/// What a job needs next.
pub enum JobAction {
    Load { raw_id: u64 },
    /// The content of the entry, one byte past the limit at most.
    Read { raw_id: u64, limit: u64 },
    /// What is at these paths, where they are known.
    Probe(Vec<Option<Vec<u8>>>),
    PublishBytes { mime: String, content: Vec<u8>, max_bytes: u64 },
    PublishFile { mime: String, path: Vec<u8>, max_bytes: u64 },
    /// A new file of the daemon's own with this image.
    WriteImage { extension: String, image: Vec<u8> },
    /// Save the records of the daemon's own files, as they are now.
    SaveRegistry,
    PublishLink { uri: Vec<u8>, max_bytes: u64 },
    /// Remove this file, which is off the record. The records are saved as they
    /// are now, if they can be.
    RemoveFile(String),
    /// The content of this file, one byte past the limit at most.
    ReadFile { path: Vec<u8>, limit: u64 },
    /// Private files for an edit: one with this image, and a place for the result.
    Stage { extension: String, image: Vec<u8> },
    Send(PolicyExchange),
    /// Nothing: this is the outcome.
    Done(BackendResult<JobResult>),
}

/// What a job was given.
pub enum JobEvent {
    Loaded(Loaded),
    Content(FileContent),
    Probed(Vec<FileProbe>),
    Published(BackendResult<()>),
    Written(BackendResult<String>),
    Saved(BackendResult<()>),
    Removed,
    Staged(BackendResult<(String, String)>),
    Sent(BackendResult<()>),
}

/// Something that is done with one entry.
pub struct EntryJob {
    pub purpose: Purpose,
    pub id: String,
    pub revision: Option<u64>,
    pub max_bytes: u64,
    pub stage: JobStage,
}

/// `after` knows the same as `before`.
pub open spec fn unchanged(before: RingboardBackend, after: RingboardBackend) -> bool {
    &&& after.ids@ == before.ids@
    &&& after.revision == before.revision
    &&& after.summaries == before.summaries
    &&& after.artifacts == before.artifacts
}

/// `after` has forgotten what was shown and read.
pub open spec fn forgotten(before: RingboardBackend, after: RingboardBackend) -> bool {
    &&& after.ids@ == Map::<Seq<char>, IdentityBinding>::empty()
    &&& after.summaries.token is None
    &&& after.summaries.projection is None
    &&& after.revision == before.revision
}

/// `after` has forgotten what was shown and read, and takes no file of the
/// daemon's own to be on the clipboard.
pub open spec fn selection_replaced(before: RingboardBackend, after: RingboardBackend) -> bool {
    &&& forgotten(before, after)
    &&& after.artifacts.same_setup(before.artifacts)
    &&& after.artifacts.records() == before.artifacts.records()
    &&& after.artifacts.active() is None
}

/// What reading an entry again means for acting on it: the entry, or why it is
/// not the one.
pub open spec fn selects(
    before: RingboardBackend,
    after: RingboardBackend,
    id: Seq<char>,
    revision: Option<u64>,
    binding: IdentityBinding,
    loaded: Loaded,
    result: BackendResult<ResolvedEntry>,
) -> bool {
    match loaded {
        Loaded::Missing => unchanged(before, after) && (result matches Err(error) && error.is(
            BackendErrorKind::Stale,
            "Clipboard entry is stale or missing"@,
        )),
        Loaded::Failed(reason) => unchanged(before, after) && result == Err::<
            ResolvedEntry,
            BackendError,
        >(reason),
        Loaded::Entry(resolved) => match RingboardBackend::mismatch(
            id,
            revision,
            binding,
            resolved.summary,
        ) {
            None => unchanged(before, after) && result == Ok::<ResolvedEntry, BackendError>(
                resolved,
            ),
            Some(message) => {
                &&& after.ids@ == before.ids@.remove(id)
                &&& after.revision == before.revision
                &&& after.summaries == before.summaries
                &&& after.artifacts == before.artifacts
                &&& result matches Err(error) && error.is(BackendErrorKind::Stale, message)
            },
        },
    }
}

/// An operation is done.
pub open spec fn is_completed(
    operation: OperationResult,
    action: Seq<char>,
    message: Seq<char>,
) -> bool {
    &&& operation.action@ == action
    &&& operation.status@ == "completed"@
    &&& operation.message@ == message
    &&& operation.warning is None
}

impl RingboardBackend {
    pub open spec fn wf(self) -> bool {
        self.artifacts.wf()
    }

    /// Takes an entry that was read again as the one to act on.
    pub fn select(
        &mut self,
        id: &str,
        revision: Option<u64>,
        binding: IdentityBinding,
        loaded: Loaded,
    ) -> (result: BackendResult<ResolvedEntry>)
        ensures
            selects(*old(self), *final(self), id@, revision, binding, loaded, result),
    {
        let resolved = match loaded {
            Loaded::Missing => {
                return Err(BackendError::stale("Clipboard entry is stale or missing"));
            },
            Loaded::Failed(error) => {
                return Err(error);
            },
            Loaded::Entry(resolved) => resolved,
        };
        match self.verify_selection(id, revision, binding, &resolved.summary) {
            Ok(_) => Ok(resolved),
            Err(error) => Err(error),
        }
    }

    /// The clipboard was given something else.
    pub fn selection_changed(&mut self)
        requires
            old(self).wf(),
        ensures
            final(self).wf(),
            selection_replaced(*old(self), *final(self)),
    {
        self.artifacts.clear_active_selection();
        self.clear_identity_state();
    }
}

impl EntryJob {
    /// The most bytes that the job reads.
    pub open spec fn limit(self) -> u64 {
        if self.purpose is Annotate && self.max_bytes > MAX_THUMBNAIL_BYTES {
            MAX_THUMBNAIL_BYTES
        } else {
            self.max_bytes
        }
    }

    fn read_limit(&self) -> (limit: u64)
        ensures
            limit == self.limit(),
    {
        if matches!(self.purpose, Purpose::Annotate) && self.max_bytes > MAX_THUMBNAIL_BYTES {
            MAX_THUMBNAIL_BYTES
        } else {
            self.max_bytes
        }
    }

    /// The job is the same one, further on.
    pub open spec fn continues(self, before: EntryJob) -> bool {
        &&& self.purpose == before.purpose
        &&& self.id == before.id
        &&& self.revision == before.revision
        &&& self.max_bytes == before.max_bytes
    }

    /// The job goes on to `stage`.
    fn at(self, stage: JobStage) -> (job: EntryJob)
        ensures
            job.continues(self),
            job.stage == stage,
    {
        EntryJob {
            purpose: self.purpose,
            id: self.id,
            revision: self.revision,
            max_bytes: self.max_bytes,
            stage,
        }
    }

    /// The job is over, and failed.
    fn failed(self, error: BackendError) -> (next: (EntryJob, JobAction))
        ensures
            next.0.continues(self),
            fails_with(next.0, next.1, error),
    {
        (self.at(JobStage::Over), JobAction::Done(Err(error)))
    }

    /// The job is over, and failed for this reason.
    fn rejected(self, message: &str) -> (next: (EntryJob, JobAction))
        ensures
            next.0.continues(self),
            fails(next.0, next.1, BackendErrorKind::InvalidData, message@),
    {
        (self.at(JobStage::Over), JobAction::Done(Err(invalid_entry(message))))
    }
}

/// The job is over, and failed with this.
pub open spec fn fails_with(job: EntryJob, action: JobAction, error: BackendError) -> bool {
    job.stage is Over && action == JobAction::Done(Err(error))
}

/// The job is over, and failed for this reason.
pub open spec fn fails(
    job: EntryJob,
    action: JobAction,
    kind: BackendErrorKind,
    message: Seq<char>,
) -> bool {
    job.stage is Over && (action matches JobAction::Done(Err(error)) && error.is(kind, message))
}

/// The job is over, with an operation that is done.
pub open spec fn completes(
    job: EntryJob,
    action: JobAction,
    name: Seq<char>,
    message: Seq<char>,
) -> bool {
    job.stage is Over && (action matches JobAction::Done(Ok(JobResult::Operation(operation)))
        && is_completed(operation, name, message) && operation.path is None)
}

/// What a selected entry is sent or read for.
pub open spec fn selected_next(
    job: EntryJob,
    raw_id: u64,
    resolved: ResolvedEntry,
    after: EntryJob,
    action: JobAction,
) -> bool {
    match job.purpose {
        Purpose::Remove => {
            &&& after.stage is Sending
            &&& action matches JobAction::Send(exchange) && exchange.version()
                == ipc::POLICY_VERSION && exchange.packet() == ipc::request_packet(
                ipc::OP_REMOVE,
                raw_id,
                resolved.proof@,
                Seq::empty(),
            )
        },
        Purpose::SetFavorite(value) => {
            &&& after.stage is Sending
            &&& action matches JobAction::Send(exchange) && exchange.version()
                == ipc::POLICY_VERSION && exchange.packet() == ipc::request_packet(
                if value {
                    ipc::OP_FAVORITE
                } else {
                    ipc::OP_UNFAVORITE
                },
                raw_id,
                resolved.proof@,
                Seq::empty(),
            )
        },
        _ => {
            &&& after.stage == (JobStage::Reading { summary: resolved.summary })
            &&& action == (JobAction::Read { raw_id, limit: selection::limit_of(job.limit()) })
        },
    }
}

/// The bytes that publish a link to a URL.
pub open spec fn link_bytes(url: Seq<char>) -> Seq<u8> {
    encode_utf8(url) + encode_utf8("\r\n"@)
}

/// The job puts a link to this URL on the clipboard.
pub open spec fn links(
    job: EntryJob,
    after: EntryJob,
    action: JobAction,
    url: Seq<char>,
    path: Seq<char>,
    created: bool,
) -> bool {
    &&& after.stage matches JobStage::Linking { path: shown, created: made } && shown@ == path && made
        == created
    &&& action matches JobAction::PublishLink { uri, max_bytes } && uri@ == link_bytes(url)
        && max_bytes == job.max_bytes
}

/// How the registry takes a file that an entry names and that goes on the
/// clipboard as a link.
pub open spec fn activated(
    before: RingboardBackend,
    after: RingboardBackend,
    path: Seq<u8>,
) -> bool {
    &&& after.ids@ == before.ids@
    &&& after.revision == before.revision
    &&& after.summaries == before.summaries
    &&& after.artifacts.same_setup(before.artifacts)
    &&& after.artifacts.records() == before.artifacts.records()
    &&& after.artifacts.active() == if valid_utf8(path) && before.artifacts.knows(
        artifacts::normal(decode_utf8(path)),
    ) {
        Some(artifacts::normal(decode_utf8(path)))
    } else {
        None
    }
}

/// What is done with an entry, once it is known what its content means.
pub open spec fn resolved_next(
    before: RingboardBackend,
    job: EntryJob,
    summary: EntrySummary,
    bytes: Seq<u8>,
    resolved: ResolvedContent,
    after: RingboardBackend,
    next: EntryJob,
    action: JobAction,
) -> bool {
    match job.purpose {
        Purpose::Restore => {
            &&& unchanged(before, after)
            &&& if summary.kind is Image && !(resolved.kind is Image) {
                fails(
                    next,
                    action,
                    BackendErrorKind::InvalidData,
                    "Clipboard image file is missing, unsafe, invalid, or exceeds the size limit"@,
                )
            } else {
                &&& next.stage is Publishing
                &&& match resolved.image {
                    Some(ResolvedImage::LocalFile(source)) => action matches JobAction::PublishFile {
                        mime,
                        path,
                        max_bytes,
                    } && mime@ == source.mime@ && path@ == source.path@ && max_bytes
                        == job.max_bytes,
                    _ => action matches JobAction::PublishBytes { mime, content, max_bytes }
                        && mime@ == resolved.shown_mime() && content@ == bytes && max_bytes
                        == job.max_bytes,
                }
            }
        },
        Purpose::ImageAsFile => match resolved.image {
            Some(ResolvedImage::LocalFile(source)) => {
                &&& activated(before, after, source.path@)
                &&& match content::url_path(resolved.files@[0].uri@) {
                    Some(_) => links(
                        job,
                        next,
                        action,
                        content::url_of_local(resolved.files@[0].uri@)->0,
                        classification::lossy_text(source.path@),
                        false,
                    ),
                    None => fails(
                        next,
                        action,
                        BackendErrorKind::OperationFailed,
                        "Could not create image file URI"@,
                    ),
                }
            },
            Some(ResolvedImage::Inline { .. }) => {
                &&& unchanged(before, after)
                &&& next.stage matches JobStage::Writing { summary: of, mime, image } && of
                    == summary && mime@ == resolved.shown_mime() && image@ == bytes
                &&& action matches JobAction::WriteImage { extension, image } && extension@
                    == content::extension_of(resolved.shown_mime()) && image@ == bytes
            },
            None => unchanged(before, after) && fails(
                next,
                action,
                BackendErrorKind::InvalidData,
                "Only image entries support this action"@,
            ),
        },
        _ => {
            &&& unchanged(before, after)
            &&& match resolved.image {
                Some(ResolvedImage::LocalFile(source)) => {
                    &&& next.stage matches JobStage::ReadingFile { revision, mime } && revision
                        == summary.revision && mime@ == source.mime@
                    &&& action matches JobAction::ReadFile { path, limit } && path@
                        == source.path@ && limit == selection::limit_of(job.limit())
                },
                Some(ResolvedImage::Inline { .. }) => {
                    &&& next.stage == (JobStage::Staging { revision: summary.revision })
                    &&& action matches JobAction::Stage { extension, image } && extension@
                        == content::extension_of(resolved.shown_mime()) && image@ == bytes
                },
                None => fails(
                    next,
                    action,
                    BackendErrorKind::InvalidData,
                    "Only image entries support this action"@,
                ),
            }
        },
    }
}

impl RingboardBackend {
    /// Begins to do something with an entry that was shown.
    pub fn begin_job(&self, purpose: Purpose, id: String, revision: Option<u64>, max_bytes: u64) -> (next:
        (EntryJob, JobAction))
        ensures
            next.0.purpose == purpose,
            next.0.id == id,
            next.0.revision == revision,
            next.0.max_bytes == max_bytes,
            if self.ids@.contains_key(id@) {
                let binding = self.ids@[id@];
                &&& next.0.stage == (JobStage::Loading { binding })
                &&& next.1 == (JobAction::Load { raw_id: binding.raw_id })
            } else {
                fails(
                    next.0,
                    next.1,
                    BackendErrorKind::NotFound,
                    "Clipboard entry ID is unknown or stale"@,
                )
            },
    {
        match self.resolve(id.as_str()) {
            Ok(binding) => (
                EntryJob {
                    purpose,
                    id,
                    revision,
                    max_bytes,
                    stage: JobStage::Loading { binding },
                },
                JobAction::Load { raw_id: binding.raw_id },
            ),
            Err(error) => (
                EntryJob { purpose, id, revision, max_bytes, stage: JobStage::Over },
                JobAction::Done(Err(error)),
            ),
        }
    }

    /// The entry was read again.
    fn job_loaded(&mut self, job: EntryJob, binding: IdentityBinding, loaded: Loaded) -> (next: (
        EntryJob,
        JobAction,
    ))
        requires
            old(self).wf(),
        ensures
            final(self).wf(),
            next.0.continues(job),
            exists|result: BackendResult<ResolvedEntry>| #[trigger]
                selects(
                    *old(self),
                    *final(self),
                    job.id@,
                    job.revision,
                    binding,
                    loaded,
                    result,
                ) && match result {
                    Ok(resolved) => selected_next(job, binding.raw_id, resolved, next.0, next.1),
                    Err(error) => fails_with(next.0, next.1, error),
                },
    {
        let result = self.select(job.id.as_str(), job.revision, binding, loaded);
        assert(selects(
            *old(self),
            *self,
            job.id@,
            job.revision,
            binding,
            loaded,
            result,
        ));
        let resolved = match result {
            Ok(resolved) => resolved,
            Err(error) => {
                return job.failed(error);
            },
        };
        match job.purpose {
            Purpose::Remove => {
                let exchange = ipc::remove(binding.raw_id, &resolved.proof);
                (job.at(JobStage::Sending), JobAction::Send(exchange))
            },
            Purpose::SetFavorite(value) => {
                let exchange = ipc::favorite(binding.raw_id, &resolved.proof, value);
                (job.at(JobStage::Sending), JobAction::Send(exchange))
            },
            _ => {
                let limit = effective_limit(job.read_limit());
                (
                    job.at(JobStage::Reading { summary: resolved.summary }),
                    JobAction::Read { raw_id: binding.raw_id, limit },
                )
            },
        }
    }
}

/// The bytes that publish a link to a URL.
fn link(url: &str) -> (uri: Vec<u8>)
    ensures
        uri@ == link_bytes(url@),
{
    let mut uri: Vec<u8> = Vec::new();
    bytes::append(&mut uri, url.as_bytes());
    bytes::append(&mut uri, "\r\n".as_bytes());
    assert(uri@ =~= link_bytes(url@));
    uri
}

impl RingboardBackend {
    /// It is known what the content of the entry means.
    fn job_resolved(
        &mut self,
        job: EntryJob,
        summary: EntrySummary,
        bytes: Vec<u8>,
        resolved: ResolvedContent,
    ) -> (next: (EntryJob, JobAction))
        requires
            old(self).wf(),
            resolved.image is Some && resolved.image->0 is LocalFile ==> resolved.files@.len() > 0,
        ensures
            final(self).wf(),
            next.0.continues(job),
            resolved_next(
                *old(self),
                job,
                summary,
                bytes@,
                resolved,
                *final(self),
                next.0,
                next.1,
            ),
    {
        let max_bytes = job.max_bytes;
        match job.purpose {
            Purpose::Restore => {
                if matches!(summary.kind, EntryKind::Image) && !matches!(
                    resolved.kind,
                    EntryKind::Image
                ) {
                    return job.rejected(
                        "Clipboard image file is missing, unsafe, invalid, or exceeds the size limit",
                    );
                }
                let action = match resolved.default_publication() {
                    Publication::File { mime, path } => JobAction::PublishFile {
                        mime: mime.to_owned(),
                        path: bytes::first_bytes(path, path.len()),
                        max_bytes,
                    },
                    Publication::Bytes { mime } => JobAction::PublishBytes {
                        mime: mime.to_owned(),
                        content: bytes,
                        max_bytes,
                    },
                };
                (job.at(JobStage::Publishing), action)
            },
            Purpose::ImageAsFile => {
                let path = match &resolved.image {
                    Some(ResolvedImage::LocalFile(source)) => &source.path,
                    Some(ResolvedImage::Inline { .. }) => {
                        let mime = resolved.mime().to_owned();
                        let extension = image_extension(mime.as_str()).to_owned();
                        let image = bytes::first_bytes(bytes.as_slice(), bytes.len());
                        return (
                            job.at(JobStage::Writing { summary, mime, image: bytes }),
                            JobAction::WriteImage { extension, image },
                        );
                    },
                    None => {
                        return job.rejected("Only image entries support this action");
                    },
                };
                match text::text_of(path.as_slice()) {
                    Some(known) => self.artifacts.activate_if_generated(known),
                    None => self.artifacts.clear_active_selection(),
                }
                match content::local_url(resolved.files[0].uri.as_str()) {
                    Some(url) => {
                        let shown = classification::lossy(path.as_slice());
                        (
                            job.at(JobStage::Linking { path: shown, created: false }),
                            JobAction::PublishLink { uri: link(url.as_str()), max_bytes },
                        )
                    },
                    None => (
                        job.at(JobStage::Over),
                        JobAction::Done(Err(operation_error("Could not create image file URI"))),
                    ),
                }
            },
            _ => {
                let limit = effective_limit(job.read_limit());
                match &resolved.image {
                    Some(ResolvedImage::LocalFile(source)) => (
                        job.at(
                            JobStage::ReadingFile {
                                revision: summary.revision,
                                mime: source.mime.clone(),
                            },
                        ),
                        JobAction::ReadFile {
                            path: bytes::first_bytes(source.path.as_slice(), source.path.len()),
                            limit,
                        },
                    ),
                    Some(ResolvedImage::Inline { .. }) => {
                        let extension = image_extension(resolved.mime()).to_owned();
                        (
                            job.at(JobStage::Staging { revision: summary.revision }),
                            JobAction::Stage { extension, image: bytes },
                        )
                    },
                    None => job.rejected("Only image entries support this action"),
                }
            },
        }
    }

    /// The image was written to a file of the daemon's own.
    fn job_written(
        &mut self,
        job: EntryJob,
        summary: EntrySummary,
        mime: String,
        image: Vec<u8>,
        path: String,
        now: u64,
    ) -> (next: (EntryJob, JobAction))
        requires
            old(self).wf(),
        ensures
            final(self).wf(),
            next.0.continues(job),
            written_next(
                *old(self),
                job,
                summary,
                mime@,
                image@,
                path@,
                now,
                *final(self),
                next.0,
                next.1,
            ),
    {
        match self.artifacts.register(
            path.as_str(),
            summary.id.as_str(),
            mime.as_str(),
            image.as_slice(),
            now,
        ) {
            Ok(_) => (job.at(JobStage::Saving { path }), JobAction::SaveRegistry),
            Err(error) => (job.at(JobStage::Discarding { error }), JobAction::RemoveFile(path)),
        }
    }

    /// The record of the file was saved, or could not be.
    fn job_saved(&mut self, job: EntryJob, path: String, saved: BackendResult<()>) -> (next: (
        EntryJob,
        JobAction,
    ))
        requires
            old(self).wf(),
        ensures
            final(self).wf(),
            next.0.continues(job),
            saved_next(*old(self), job, path, saved, *final(self), next.0, next.1),
    {
        let max_bytes = job.max_bytes;
        match self.artifacts.registered(path.as_str(), saved) {
            Ok(_) => {},
            Err(error) => {
                return (job.at(JobStage::Discarding { error }), JobAction::RemoveFile(path));
            },
        }
        match content::file_url(path.as_str()) {
            Some(url) => (
                job.at(JobStage::Linking { path, created: true }),
                JobAction::PublishLink { uri: link(url.as_str()), max_bytes },
            ),
            None => {
                self.artifacts.forget(path.as_str());
                let error = operation_error("Could not create image file URI");
                (job.at(JobStage::Discarding { error }), JobAction::RemoveFile(path))
            },
        }
    }
}

/// `after` knows of a file that `before` does not, made from an entry, on the
/// clipboard.
pub open spec fn put_on_record(
    before: RingboardBackend,
    after: RingboardBackend,
    path: Seq<char>,
    source: Seq<char>,
    mime: Seq<char>,
    image: Seq<u8>,
    now: u64,
) -> bool {
    let records = after.artifacts.records();
    &&& after.ids@ == before.ids@
    &&& after.revision == before.revision
    &&& after.summaries == before.summaries
    &&& after.artifacts.same_setup(before.artifacts)
    &&& records.len() > 0
    &&& records.drop_last() == artifacts::without(
        before.artifacts.records(),
        artifacts::normal(path),
    )
    &&& records.last().path@ == artifacts::normal(path)
    &&& records.last().source_entry_id@ == source
    &&& records.last().image_identity@ == content::image_identity_of(mime, image)
    &&& records.last().created_at == now
    &&& after.artifacts.active() == Some(artifacts::normal(path))
}

/// `after` has taken a file off the record.
pub open spec fn given_up(before: RingboardBackend, after: RingboardBackend, path: Seq<char>) -> bool {
    let normal = artifacts::normal(path);
    &&& after.ids@ == before.ids@
    &&& after.revision == before.revision
    &&& after.summaries == before.summaries
    &&& after.artifacts.same_setup(before.artifacts)
    &&& after.artifacts.records() == artifacts::without(before.artifacts.records(), normal)
    &&& after.artifacts.active() == if before.artifacts.active() == Some(normal) {
        None
    } else {
        before.artifacts.active()
    }
}

/// The job removes this file, and then fails.
pub open spec fn discards(
    next: EntryJob,
    action: JobAction,
    path: Seq<char>,
    kind: BackendErrorKind,
    message: Seq<char>,
) -> bool {
    &&& next.stage matches JobStage::Discarding { error } && error.is(kind, message)
    &&& action matches JobAction::RemoveFile(removed) && removed@ == path
}

/// What is done once the image was written to this file.
pub open spec fn written_next(
    before: RingboardBackend,
    job: EntryJob,
    summary: EntrySummary,
    mime: Seq<char>,
    image: Seq<u8>,
    path: Seq<char>,
    now: u64,
    after: RingboardBackend,
    next: EntryJob,
    action: JobAction,
) -> bool {
    if !artifacts::owned(before.artifacts.root(), artifacts::normal(path)) {
        &&& unchanged(before, after)
        &&& discards(
            next,
            action,
            path,
            BackendErrorKind::OperationFailed,
            "Generated clipboard file path is outside daemon ownership"@,
        )
    } else {
        &&& put_on_record(before, after, path, summary.id@, mime, image, now)
        &&& next.stage matches JobStage::Saving { path: of } && of@ == path
        &&& action is SaveRegistry
    }
}

/// `after` has taken back that a file was put on record: it could not be saved.
pub open spec fn taken_back(
    before: RingboardBackend,
    after: RingboardBackend,
    path: Seq<char>,
) -> bool {
    &&& after.ids@ == before.ids@
    &&& after.revision == before.revision
    &&& after.summaries == before.summaries
    &&& after.artifacts.same_setup(before.artifacts)
    &&& after.artifacts.records() == artifacts::without(
        before.artifacts.records(),
        artifacts::normal(path),
    )
    &&& after.artifacts.active() is None
}

/// What is done once the record of the file was saved, or could not be.
pub open spec fn saved_next(
    before: RingboardBackend,
    job: EntryJob,
    path: String,
    saved: BackendResult<()>,
    after: RingboardBackend,
    next: EntryJob,
    action: JobAction,
) -> bool {
    match saved {
        Err(error) => {
            &&& taken_back(before, after, path@)
            &&& next.stage == (JobStage::Discarding { error })
            &&& action == JobAction::RemoveFile(path)
        },
        Ok(_) => if backend::absolute(path@) {
            &&& unchanged(before, after)
            &&& links(job, next, action, path_url(path@)->0, path@, true)
        } else {
            &&& given_up(before, after, path@)
            &&& discards(
                next,
                action,
                path@,
                BackendErrorKind::OperationFailed,
                "Could not create image file URI"@,
            )
        },
    }
}

/// What `event` makes of a job at the moment `now`, in seconds.
pub open spec fn job_advanced(
    before: RingboardBackend,
    job: EntryJob,
    event: JobEvent,
    now: u64,
    after: RingboardBackend,
    next: EntryJob,
    action: JobAction,
) -> bool {
    &&& next.continues(job)
    &&& match (job.stage, event) {
        (JobStage::Loading { binding }, JobEvent::Loaded(loaded)) => exists|
            result: BackendResult<ResolvedEntry>,
        | #[trigger]
            selects(before, after, job.id@, job.revision, binding, loaded, result) && match result {
                Ok(resolved) => selected_next(job, binding.raw_id, resolved, next, action),
                Err(error) => fails_with(next, action, error),
            },
        (JobStage::Reading { summary }, JobEvent::Content(file)) => {
            &&& unchanged(before, after)
            &&& read_next(job, summary, file, next, action)
        },
        (JobStage::Probing { summary, content }, JobEvent::Probed(probes)) => exists|
            resolved: ResolvedContent,
        | #[trigger]
            resolved.resolves(
                summary.mime@,
                content@,
                selection::limit_of(job.limit()),
                probes@,
            ) && resolved_next(
                before,
                job,
                summary,
                content@,
                resolved,
                after,
                next,
                action,
            ),
        (JobStage::Publishing, JobEvent::Published(Ok(_))) => {
            &&& selection_replaced(before, after)
            &&& completes(next, action, "copy"@, "Entry published to the Wayland clipboard"@)
        },
        (JobStage::Writing { summary, mime, image }, JobEvent::Written(Ok(path))) => written_next(
            before,
            job,
            summary,
            mime@,
            image@,
            path@,
            now,
            after,
            next,
            action,
        ),
        (JobStage::Saving { path }, JobEvent::Saved(saved)) => saved_next(
            before,
            job,
            path,
            saved,
            after,
            next,
            action,
        ),
        (JobStage::Linking { path, created }, JobEvent::Published(Ok(_))) => {
            &&& forgotten(before, after)
            &&& after.artifacts == before.artifacts
            &&& next.stage is Over
            &&& action matches JobAction::Done(Ok(JobResult::Operation(operation)))
                && is_completed(
                operation,
                "image-as-file"@,
                if created {
                    "Image file copied"@
                } else {
                    "Image file link copied"@
                },
            ) && operation.path == Some(path)
        },
        (JobStage::Linking { path, created: true }, JobEvent::Published(Err(error))) => {
            &&& given_up(before, after, path@)
            &&& next.stage == (JobStage::Discarding { error })
            &&& action == JobAction::RemoveFile(path)
        },
        (JobStage::Discarding { error }, JobEvent::Removed) => {
            &&& unchanged(before, after)
            &&& fails_with(next, action, error)
        },
        (JobStage::ReadingFile { revision, mime }, JobEvent::Content(file)) => {
            &&& unchanged(before, after)
            &&& match readable(file, job.limit()) {
                Some(content) => {
                    &&& next.stage == (JobStage::Staging { revision })
                    &&& action matches JobAction::Stage { extension, image } && extension@
                        == content::extension_of(mime@) && image@ == content
                },
                None => unreadable(file, job.limit(), next, action),
            }
        },
        (JobStage::Staging { revision }, JobEvent::Staged(Ok((input, output)))) => {
            &&& unchanged(before, after)
            &&& next.stage is Over
            &&& action == JobAction::Done(
                Ok(
                    JobResult::Staged(
                        AnnotationStage {
                            input,
                            output,
                            opaque_id: job.id,
                            revision,
                            max_bytes: job.limit(),
                        },
                    ),
                ),
            )
        },
        (JobStage::Sending, JobEvent::Sent(Ok(_))) => {
            &&& forgotten(before, after)
            &&& after.artifacts == before.artifacts
            &&& match job.purpose {
                Purpose::SetFavorite(value) => completes(
                    next,
                    action,
                    if value {
                        "favorite"@
                    } else {
                        "unfavorite"@
                    },
                    "Favorite state updated"@,
                ),
                _ => completes(next, action, "delete"@, "Clipboard entry deleted"@),
            }
        },
        (JobStage::Publishing, JobEvent::Published(Err(error))) => unchanged(before, after)
            && fails_with(next, action, error),
        (JobStage::Linking { .. }, JobEvent::Published(Err(error))) => unchanged(before, after)
            && fails_with(next, action, error),
        (JobStage::Writing { .. }, JobEvent::Written(Err(error))) => unchanged(before, after)
            && fails_with(next, action, error),
        (JobStage::Staging { .. }, JobEvent::Staged(Err(error))) => unchanged(before, after)
            && fails_with(next, action, error),
        (JobStage::Sending, JobEvent::Sent(Err(error))) => unchanged(before, after) && fails_with(
            next,
            action,
            error,
        ),
        _ => unchanged(before, after) && fails(
            next,
            action,
            BackendErrorKind::OperationFailed,
            "Clipboard operation is out of order"@,
        ),
    }
}

/// What a file holds, where it could be read and is not too large.
pub open spec fn readable(file: FileContent, limit: u64) -> Option<Seq<u8>> {
    match file.content {
        Ok(content) => if file.size <= selection::limit_of(limit) && content@.len()
            <= selection::limit_of(limit) {
            Some(content@)
        } else {
            None
        },
        Err(_) => None,
    }
}

/// The job fails because of what came of reading a file.
pub open spec fn unreadable(
    file: FileContent,
    limit: u64,
    next: EntryJob,
    action: JobAction,
) -> bool {
    &&& next.stage is Over
    &&& action matches JobAction::Done(Err(error)) && if file.size > selection::limit_of(limit) {
        selection::too_large(file.size, limit, error)
    } else {
        match file.content {
            Ok(content) => selection::too_large(content@.len() as u64, limit, error),
            Err(message) => error.is(BackendErrorKind::OperationFailed, message@),
        }
    }
}

/// `paths` are those of the files that content names.
pub open spec fn names_paths(
    paths: Seq<Option<Vec<u8>>>,
    mime: Seq<char>,
    content: Seq<u8>,
) -> bool {
    let files = content::named_files(mime, content);
    &&& paths.len() == files.len()
    &&& forall|i: int|
        #![trigger paths[i]]
        0 <= i < paths.len() ==> match paths[i] {
            Some(path) => files[i].path == Some(path@),
            None => files[i].path is None,
        }
}

/// What is done once the content of the entry was read.
pub open spec fn read_next(
    job: EntryJob,
    summary: EntrySummary,
    file: FileContent,
    next: EntryJob,
    action: JobAction,
) -> bool {
    match readable(file, job.limit()) {
        None => unreadable(file, job.limit(), next, action),
        Some(bytes) => if (job.purpose is ImageAsFile || job.purpose is Annotate)
            && !(summary.kind is Image) {
            fails(
                next,
                action,
                BackendErrorKind::InvalidData,
                "Only image entries support this action"@,
            )
        } else {
            &&& next.stage matches JobStage::Probing { summary: of, content } && of == summary
                && content@ == bytes
            &&& action matches JobAction::Probe(paths) && names_paths(
                paths@,
                summary.mime@,
                bytes,
            )
        },
    }
}

impl RingboardBackend {
    /// The content of the entry was read.
    fn job_read(job: EntryJob, summary: EntrySummary, file: FileContent) -> (next: (
        EntryJob,
        JobAction,
    ))
        ensures
            next.0.continues(job),
            read_next(job, summary, file, next.0, next.1),
    {
        let limit = job.read_limit();
        let bytes = match read_selection(file, limit) {
            Ok(bytes) => bytes,
            Err(error) => {
                return job.failed(error);
            },
        };
        if matches!(job.purpose, Purpose::ImageAsFile | Purpose::Annotate) && !matches!(
            summary.kind,
            EntryKind::Image
        ) {
            return job.rejected("Only image entries support this action");
        }
        let paths = ResolvedContent::paths_to_probe(summary.mime.as_str(), bytes.as_slice());
        (job.at(JobStage::Probing { summary, content: bytes }), JobAction::Probe(paths))
    }

    /// Takes in what a job was given, and says what it needs next.
    pub fn advance_job(&mut self, job: EntryJob, event: JobEvent, now: u64) -> (next: (
        EntryJob,
        JobAction,
    ))
        requires
            old(self).wf(),
        ensures
            final(self).wf(),
            job_advanced(*old(self), job, event, now, *final(self), next.0, next.1),
    {
        let EntryJob { purpose, id, revision: expected, max_bytes, stage } = job;
        let job = EntryJob { purpose, id, revision: expected, max_bytes, stage: JobStage::Over };
        match (stage, event) {
            (JobStage::Loading { binding }, JobEvent::Loaded(loaded)) => self.job_loaded(
                job,
                binding,
                loaded,
            ),
            (JobStage::Reading { summary }, JobEvent::Content(file)) => RingboardBackend::job_read(
                job,
                summary,
                file,
            ),
            (JobStage::Probing { summary, content }, JobEvent::Probed(probes)) => {
                let limit = effective_limit(job.read_limit());
                let resolved = ResolvedContent::resolve(
                    summary.mime.as_str(),
                    content.as_slice(),
                    limit,
                    probes.as_slice(),
                );
                assert(resolved.resolves(
                    summary.mime@,
                    content@,
                    selection::limit_of(job.limit()),
                    probes@,
                ));
                self.job_resolved(job, summary, content, resolved)
            },
            (JobStage::Publishing, JobEvent::Published(Ok(_))) => {
                self.selection_changed();
                let operation = OperationResult::completed(
                    "copy",
                    "Entry published to the Wayland clipboard",
                );
                (job, JobAction::Done(Ok(JobResult::Operation(operation))))
            },
            (
                JobStage::Writing { summary, mime, image },
                JobEvent::Written(Ok(path)),
            ) => self.job_written(job, summary, mime, image, path, now),
            (JobStage::Saving { path }, JobEvent::Saved(saved)) => self.job_saved(job, path, saved),
            (JobStage::Linking { path, created }, JobEvent::Published(Ok(_))) => {
                self.clear_identity_state();
                let message = if created {
                    "Image file copied"
                } else {
                    "Image file link copied"
                };
                let mut operation = OperationResult::completed("image-as-file", message);
                operation.path = Some(path);
                (job, JobAction::Done(Ok(JobResult::Operation(operation))))
            },
            (JobStage::Linking { path, created: true }, JobEvent::Published(Err(error))) => {
                self.artifacts.forget(path.as_str());
                (job.at(JobStage::Discarding { error }), JobAction::RemoveFile(path))
            },
            (JobStage::Discarding { error }, JobEvent::Removed) => job.failed(error),
            (JobStage::ReadingFile { revision, mime }, JobEvent::Content(file)) => {
                match read_selection(file, job.read_limit()) {
                    Ok(image) => {
                        let extension = image_extension(mime.as_str()).to_owned();
                        (
                            job.at(JobStage::Staging { revision }),
                            JobAction::Stage { extension, image },
                        )
                    },
                    Err(error) => job.failed(error),
                }
            },
            (JobStage::Staging { revision }, JobEvent::Staged(Ok((input, output)))) => {
                let staged = AnnotationStage {
                    input,
                    output,
                    opaque_id: job.id.clone(),
                    revision,
                    max_bytes: job.read_limit(),
                };
                (job, JobAction::Done(Ok(JobResult::Staged(staged))))
            },
            (JobStage::Sending, JobEvent::Sent(Ok(_))) => {
                self.clear_identity_state();
                let operation = match job.purpose {
                    Purpose::SetFavorite(true) => OperationResult::completed(
                        "favorite",
                        "Favorite state updated",
                    ),
                    Purpose::SetFavorite(false) => OperationResult::completed(
                        "unfavorite",
                        "Favorite state updated",
                    ),
                    _ => OperationResult::completed("delete", "Clipboard entry deleted"),
                };
                (job, JobAction::Done(Ok(JobResult::Operation(operation))))
            },
            (
                JobStage::Publishing | JobStage::Linking { .. },
                JobEvent::Published(Err(error)),
            ) => job.failed(error),
            (JobStage::Writing { .. }, JobEvent::Written(Err(error))) => job.failed(error),
            (JobStage::Staging { .. }, JobEvent::Staged(Err(error))) => job.failed(error),
            (JobStage::Sending, JobEvent::Sent(Err(error))) => job.failed(error),
            _ => (
                job,
                JobAction::Done(Err(operation_error("Clipboard operation is out of order"))),
            ),
        }
    }
}

/// The server is asked to change an entry only where the entry was just read
/// and is the one that the caller saw; the request carries the proof of the
/// state that was read.
pub proof fn changes_are_made_to_what_was_read(
    before: RingboardBackend,
    job: EntryJob,
    event: JobEvent,
    now: u64,
    after: RingboardBackend,
    next: EntryJob,
    action: JobAction,
)
    requires
        job_advanced(before, job, event, now, after, next, action),
        action is Send,
    ensures
        event matches JobEvent::Loaded(Loaded::Entry(resolved)) && resolved.summary.id@ == job.id@
            && (job.revision matches Some(revision) ==> resolved.summary.revision == revision)
            && exists|op: u8, raw_id: u64| #[trigger]
            ipc::request_packet(op, raw_id, resolved.proof@, Seq::empty()) == action->Send_0.packet(),
{
    match (job.stage, event) {
        (JobStage::Loading { binding }, JobEvent::Loaded(loaded)) => {
            let result = choose|result: BackendResult<ResolvedEntry>| #[trigger]
                selects(before, after, job.id@, job.revision, binding, loaded, result)
                    && match result {
                    Ok(resolved) => selected_next(job, binding.raw_id, resolved, next, action),
                    Err(error) => fails_with(next, action, error),
                };
            assert(result is Ok);
        },
        _ => {
            assert(false);
        },
    }
}

/// A link to a file that was made for it is published only once the record of the
/// file was saved.
pub proof fn links_are_published_on_record(
    before: RingboardBackend,
    job: EntryJob,
    event: JobEvent,
    now: u64,
    after: RingboardBackend,
    next: EntryJob,
    action: JobAction,
)
    requires
        job_advanced(before, job, event, now, after, next, action),
        action is PublishLink,
        next.stage matches JobStage::Linking { created: true, .. },
    ensures
        job.stage is Saving,
        event matches JobEvent::Saved(Ok(_)),
{
}

/// Where the record of a file cannot be saved, the file is taken off the record
/// and removed, nothing is published, and the request fails.
pub proof fn a_file_that_is_not_on_record_is_removed(
    before: RingboardBackend,
    job: EntryJob,
    path: String,
    error: BackendError,
    now: u64,
    after: RingboardBackend,
    next: EntryJob,
    action: JobAction,
    last: RingboardBackend,
    end: EntryJob,
    outcome: JobAction,
)
    requires
        job.stage == (JobStage::Saving { path }),
        job_advanced(before, job, JobEvent::Saved(Err(error)), now, after, next, action),
        job_advanced(after, next, JobEvent::Removed, now, last, end, outcome),
    ensures
        action == JobAction::RemoveFile(path),
        !after.artifacts.knows(artifacts::normal(path@)),
        after.artifacts.active() is None,
        last.artifacts == after.artifacts,
        outcome == JobAction::Done(Err(error)),
{
    artifacts::without_does_not_know(before.artifacts.records(), artifacts::normal(path@));
}

/// Where a file was made for a link and the link cannot be published, the file
/// is taken off the record and removed, and the request fails.
pub proof fn a_failed_link_leaves_no_file(
    before: RingboardBackend,
    job: EntryJob,
    path: String,
    error: BackendError,
    now: u64,
    after: RingboardBackend,
    next: EntryJob,
    action: JobAction,
)
    requires
        job.stage == (JobStage::Linking { path, created: true }),
        job_advanced(
            before,
            job,
            JobEvent::Published(Err(error)),
            now,
            after,
            next,
            action,
        ),
    ensures
        action == JobAction::RemoveFile(path),
        next.stage == (JobStage::Discarding { error }),
        !after.artifacts.knows(artifacts::normal(path@)),
{
    artifacts::without_does_not_know(before.artifacts.records(), artifacts::normal(path@));
}

} // verus!
