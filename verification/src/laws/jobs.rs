//! What is done with one entry, step by step: putting it on the clipboard, as a file
//! or as it is, and editing it.
use crate::backend::{BackendError, BackendResult};
use crate::model::{EntrySummary, OperationResult};
use crate::ringboard::content;
use crate::ringboard::content::FileProbe;
use crate::ringboard::mutation;
use crate::ringboard::mutation::{
    EntryJob, JobAction, JobEvent, JobResult, JobStage, Loaded, Purpose,
};
use crate::ringboard::operation;
use crate::ringboard::operation::{
    annotation_event, Cancellation, OperationCompletion, OperationControl, OperationTask,
    Operations, Phase,
};
use crate::ringboard::projection::{IdentityBinding, ResolvedEntry};
use crate::ringboard::replacement;
use crate::ringboard::replacement::{
    ReplaceAction, ReplaceEvent, ReplaceJob, ReplacePurpose, ReplaceStage, Replaced,
};
use crate::ringboard::RingboardBackend;
use crate::selection::FileContent;
use vstd::prelude::*;
use vstd::string::*;
use vstd::utf8::*;

verus! {

/// Something is begun with the entry that the identifier stands for, exactly where it
/// stands for one.
pub proof fn jobs_begin_with_the_entry(
    backend: RingboardBackend,
    purpose: Purpose,
    id: String,
    revision: Option<u64>,
    max_bytes: u64,
    next: (EntryJob, JobAction),
)
    requires
        call_ensures(RingboardBackend::begin_job, (&backend, purpose, id, revision, max_bytes), next),
    ensures
        backend.ids@.contains_key(id@) ==> next.1 == (JobAction::Load {
            raw_id: backend.ids@[id@].raw_id,
        }) && next.0.stage == (JobStage::Loading { binding: backend.ids@[id@] }),
        !backend.ids@.contains_key(id@) ==> (next.1 matches JobAction::Done(Err(error))
            && error.kind is NotFound),
        next.0.purpose == purpose,
        next.0.id@ == id@,
        next.0.revision == revision,
        next.0.max_bytes == max_bytes,
{
}

/// The most bytes that are read: what was allowed, at most 64 MiB, and 32 MiB of an
/// image to be edited.
pub open spec fn allowed(job: EntryJob) -> int {
    let most: int = if job.purpose is Annotate {
        33_554_432
    } else {
        67_108_864
    };
    if job.max_bytes < most {
        job.max_bytes as int
    } else {
        most
    }
}

/// An entry that goes on the clipboard or into a file is read whole, from where it is
/// stored; nothing is read that was not selected.
pub proof fn selected_entries_are_read(
    before: RingboardBackend,
    job: EntryJob,
    binding: IdentityBinding,
    resolved: ResolvedEntry,
    now: u64,
    after: RingboardBackend,
    next: EntryJob,
    action: JobAction,
)
    requires
        job.stage == (JobStage::Loading { binding }),
        job.purpose is Restore || job.purpose is ImageAsFile || job.purpose is Annotate,
        mutation::job_advanced(
            before,
            job,
            JobEvent::Loaded(Loaded::Entry(resolved)),
            now,
            after,
            next,
            action,
        ),
    ensures
        ({
            let right = resolved.summary.id@ == job.id@ && resolved.summary.revision
                == binding.revision && (job.revision is None || job.revision->0
                == resolved.summary.revision);
            &&& right ==> action == (JobAction::Read {
                raw_id: binding.raw_id,
                limit: allowed(job) as u64,
            }) && next.stage == (JobStage::Reading { summary: resolved.summary })
            &&& !right ==> (action matches JobAction::Done(Err(error)) && error.kind is Stale)
        }),
{
}

/// What was read goes on unchanged where it is within the limit; where it is not, or
/// could not be read, the job fails. Only images become files or are edited.
pub proof fn what_was_read_goes_on(
    before: RingboardBackend,
    job: EntryJob,
    summary: EntrySummary,
    file: FileContent,
    now: u64,
    after: RingboardBackend,
    next: EntryJob,
    action: JobAction,
)
    requires
        job.stage == (JobStage::Reading { summary }),
        mutation::job_advanced(before, job, JobEvent::Content(file), now, after, next, action),
    ensures
        ({
            let fits = file.content is Ok && file.size <= allowed(job) && file.content->Ok_0@.len()
                <= allowed(job);
            let suits = summary.kind is Image || !(job.purpose is ImageAsFile
                || job.purpose is Annotate);
            &&& fits && suits ==> action is Probe && (next.stage matches JobStage::Probing {
                summary: of,
                content,
            } && of == summary && content@ == file.content->Ok_0@)
            &&& !(fits && suits) ==> (action matches JobAction::Done(Err(_)))
        }),
{
}

/// Restoring an entry publishes what was read of it, or the image file that it names,
/// within what was allowed; only an image whose file is gone is not restored.
pub proof fn restoring_publishes_what_was_read(
    before: RingboardBackend,
    job: EntryJob,
    summary: EntrySummary,
    content: Vec<u8>,
    probes: Vec<FileProbe>,
    now: u64,
    after: RingboardBackend,
    next: EntryJob,
    action: JobAction,
)
    requires
        job.stage == (JobStage::Probing { summary, content }),
        job.purpose is Restore,
        mutation::job_advanced(before, job, JobEvent::Probed(probes), now, after, next, action),
    ensures
        match action {
            JobAction::PublishBytes { mime, content: sent, max_bytes } => sent@ == content@
                && max_bytes == job.max_bytes && (content::sniffed_mime(content@) matches Some(actual)
                ==> mime@ == actual) && (content::sniffed_mime(content@) is None
                && summary.mime@.len() > 0 ==> mime@ == summary.mime@),
            JobAction::PublishFile { mime, path, max_bytes } => max_bytes == job.max_bytes
                && content::sniffed_mime(content@) is None && content::named_files(
                summary.mime@,
                content@,
            ).len() == 1 && content::named_files(summary.mime@, content@)[0].path == Some(path@)
                && probes@.len() > 0 && probes@[0].regular && (probes@[0].image matches Some(image)
                && image.mime@ == mime@),
            JobAction::Done(Err(error)) => summary.kind is Image && error.kind is InvalidData,
            _ => false,
        },
        !(summary.kind is Image) ==> action is PublishBytes || action is PublishFile,
        content::sniffed_mime(content@) is Some ==> action is PublishBytes,
        !(action is Done) ==> next.stage is Publishing,
        after.ids@ == before.ids@,
{
}

/// What was put on the clipboard is told once it is there, and what was shown before
/// counts no more; where it could not be put there, that is told and nothing changes.
pub proof fn restored_entries_are_told(
    before: RingboardBackend,
    job: EntryJob,
    published: BackendResult<()>,
    now: u64,
    after: RingboardBackend,
    next: EntryJob,
    action: JobAction,
)
    requires
        job.stage is Publishing,
        mutation::job_advanced(
            before,
            job,
            JobEvent::Published(published),
            now,
            after,
            next,
            action,
        ),
    ensures
        published is Ok ==> (action matches JobAction::Done(Ok(JobResult::Operation(operation)))
            && operation.action@ == "copy"@ && operation.status@ == "completed"@
            && operation.warning is None && operation.path is None),
        published is Ok ==> forall|id: Seq<char>| !(#[trigger] after.ids@.contains_key(id)),
        published is Ok ==> after.artifacts.active() is None && after.artifacts.records()
            == before.artifacts.records(),
        published matches Err(error) ==> action == JobAction::Done(Err(error)),
        published is Err ==> after.ids@ == before.ids@,
{
}

/// An image becomes a file with the same content, is edited as it is, or as the file
/// that it names is; nothing but an image does.
pub proof fn images_become_files_unchanged(
    before: RingboardBackend,
    job: EntryJob,
    summary: EntrySummary,
    content: Vec<u8>,
    probes: Vec<FileProbe>,
    now: u64,
    after: RingboardBackend,
    next: EntryJob,
    action: JobAction,
)
    requires
        job.stage == (JobStage::Probing { summary, content }),
        job.purpose is ImageAsFile || job.purpose is Annotate,
        mutation::job_advanced(before, job, JobEvent::Probed(probes), now, after, next, action),
    ensures
        content::sniffed_mime(content@) is Some && job.purpose is ImageAsFile ==> (
        action matches JobAction::WriteImage { image, .. } && image@ == content@) && (
        next.stage matches JobStage::Writing { summary: of, image, .. } && of == summary && image@
            == content@),
        content::sniffed_mime(content@) is Some && job.purpose is Annotate ==> (
        action matches JobAction::Stage { image, .. } && image@ == content@) && next.stage == (
        JobStage::Staging { revision: summary.revision }),
        content::sniffed_mime(content@) == Some("image/jpeg"@) && job.purpose is ImageAsFile
            && !("image/jpeg"@.contains(';')) ==> (action matches JobAction::WriteImage { extension, .. }
            && extension@ == "jpg"@),
        content::sniffed_mime(content@) is None && !(action is Done) ==> content::named_files(
            summary.mime@,
            content@,
        ).len() == 1 && probes@.len() > 0 && probes@[0].regular && probes@[0].image is Some
            && probes@[0].size <= allowed(job),
        job.purpose is Annotate && action is ReadFile ==> (action matches JobAction::ReadFile {
            path,
            limit,
        } && limit == allowed(job) && content::named_files(summary.mime@, content@)[0].path == Some(
            path@,
        )),
        job.purpose is Annotate ==> after.ids@ == before.ids@ && after.artifacts
            == before.artifacts,
        !(action is PublishBytes || action is PublishFile || action is Send),
{
    crate::text::index_of_is_first("image/jpeg"@, ';');
    assert("image/jpeg"@.take("image/jpeg"@.len() as int) =~= "image/jpeg"@);
}

/// A file that was made for an image is put on record, with the entry that it was
/// made of and the moment, before a link to it is published: the URL of the file, and
/// a line end.
pub proof fn links_follow_the_record(
    before: RingboardBackend,
    job: EntryJob,
    path: String,
    saved: BackendResult<()>,
    now: u64,
    after: RingboardBackend,
    next: EntryJob,
    action: JobAction,
)
    requires
        job.stage == (JobStage::Saving { path }),
        mutation::job_advanced(before, job, JobEvent::Saved(saved), now, after, next, action),
    ensures
        saved is Err ==> (action matches JobAction::RemoveFile(removed) && removed@ == path@),
        saved is Ok && path@.len() > 0 && path@[0] == '/' ==> (action matches JobAction::PublishLink {
            uri,
            max_bytes,
        } && max_bytes == job.max_bytes && uri@ == encode_utf8(
            content::file_path_url(encode_utf8(path@))->0,
        ) + seq![0x0du8, 0x0a]),
        saved is Ok && !(path@.len() > 0 && path@[0] == '/') ==> action is RemoveFile,
{
    reveal_strlit("\r\n");
    line_ends_are_two_bytes();
}

proof fn line_ends_are_two_bytes()
    ensures
        encode_utf8("\r\n"@) == seq![0x0du8, 0x0a],
{
    reveal_strlit("\r\n");
    let end = "\r\n"@;
    assert(is_ascii_chars(end));
    is_ascii_chars_encode_utf8(end);
    assert(encode_utf8(end) =~= seq![0x0du8, 0x0a]);
}

/// A link that was published is told with the path of its file; one that was not
/// leaves no file behind that was made for it, and the failure is what went wrong.
pub proof fn links_are_told_with_their_path(
    before: RingboardBackend,
    job: EntryJob,
    path: String,
    created: bool,
    published: BackendResult<()>,
    now: u64,
    after: RingboardBackend,
    next: EntryJob,
    action: JobAction,
)
    requires
        job.stage == (JobStage::Linking { path, created }),
        mutation::job_advanced(
            before,
            job,
            JobEvent::Published(published),
            now,
            after,
            next,
            action,
        ),
    ensures
        published is Ok ==> (action matches JobAction::Done(Ok(JobResult::Operation(operation)))
            && operation.action@ == "image-as-file"@ && operation.status@ == "completed"@ && (
        operation.path matches Some(told) && told@ == path@)),
        published is Err && created ==> (action matches JobAction::RemoveFile(removed) && removed@
            == path@) && next.stage == (JobStage::Discarding { error: published->Err_0 }),
        published is Err && !created ==> action == JobAction::Done(Err(published->Err_0)),
{
}

/// A job that failed after it made a file fails with what went wrong first.
pub proof fn failures_are_kept(
    before: RingboardBackend,
    job: EntryJob,
    error: BackendError,
    now: u64,
    after: RingboardBackend,
    next: EntryJob,
    action: JobAction,
)
    requires
        job.stage == (JobStage::Discarding { error }),
        mutation::job_advanced(before, job, JobEvent::Removed, now, after, next, action),
    ensures
        action == JobAction::Done(Err(error)),
        next.stage is Over,
{
}

/// What is handed out to be edited says which entry and which state of it the edit
/// will replace, and how large it may be.
pub proof fn edits_know_what_they_replace(
    before: RingboardBackend,
    job: EntryJob,
    revision: u64,
    input: String,
    output: String,
    now: u64,
    after: RingboardBackend,
    next: EntryJob,
    action: JobAction,
)
    requires
        job.stage == (JobStage::Staging { revision }),
        job.purpose is Annotate,
        mutation::job_advanced(
            before,
            job,
            JobEvent::Staged(Ok((input, output))),
            now,
            after,
            next,
            action,
        ),
    ensures
        action matches JobAction::Done(Ok(JobResult::Staged(stage))) && stage.input@ == input@
            && stage.output@ == output@ && stage.opaque_id@ == job.id@ && stage.revision
            == revision && stage.max_bytes == if job.max_bytes < 33_554_432 {
            job.max_bytes
        } else {
            33_554_432
        },
{
}

/// Once the server has replaced an entry, what took its place is read from there,
/// shown under its own identifier, and put on the clipboard.
pub proof fn replaced_entries_are_shown_and_published(
    before: RingboardBackend,
    job: ReplaceJob,
    event: ReplaceEvent,
    now: u64,
    after: RingboardBackend,
    next: ReplaceJob,
    action: ReplaceAction,
)
    requires
        replacement::replace_advanced(before, job, event, now, after, next, action),
    ensures
        (job.stage matches ReplaceStage::Sending { raw_id }) && event == ReplaceEvent::Sent(Ok(()))
            ==> action == (ReplaceAction::Load { raw_id: job.stage->Sending_raw_id })
            && after.ids@.dom().is_empty(),
        (job.stage is Sending && event matches ReplaceEvent::Sent(Err(error))) ==> action
            == ReplaceAction::Done(Err(event->Sent_0->Err_0)) && after.ids@ == before.ids@,
        job.stage is Reloading && (event matches ReplaceEvent::Loaded(Loaded::Entry(resolved)))
            ==> action == (ReplaceAction::ReadHead {
            raw_id: job.stage->Reloading_raw_id,
            limit: 262_145,
        }) && after.ids@.contains_key(event->Loaded_0->Entry_0.summary.id@)
            && after.ids@[event->Loaded_0->Entry_0.summary.id@].raw_id
            == job.stage->Reloading_raw_id,
        job.stage is Probing && job.purpose is Edit && event is Probed ==> action == (
        ReplaceAction::Restore {
            id: job.stage->Probing_summary.id,
            revision: job.stage->Probing_summary.revision,
            max_bytes: 262_144,
        }),
        job.stage is Probing && job.purpose is Annotation && event is Probed ==> action
            == ReplaceAction::ReadOutput,
        job.stage is Restoring && event is Restored ==> (action matches ReplaceAction::Done(
            Ok(Replaced::Edit(result)),
        ) && result.entry == job.stage->details && (result.selection_published
            <==> event->Restored_0 is Ok)),
        job.stage is Saving && event == ReplaceEvent::Saved(Ok(())) && job.purpose is Annotation
            ==> action == (ReplaceAction::PublishOutput { max_bytes: job.purpose->max_bytes }),
        job.stage is Publishing && event == ReplaceEvent::Published(Ok(())) ==> (
        action matches ReplaceAction::Done(Ok(Replaced::Annotation(completion)))
            && completion.warning is None),
        job.stage is Publishing && job.purpose is Annotation && event is Published
            && event->Published_0 is Err ==> (action matches ReplaceAction::Done(
            Ok(Replaced::Annotation(completion)),
        ) && completion.warning is Some),
{
}

/// A replacement begins with the entry that the identifier stands for.
pub proof fn replacements_begin_with_the_entry(
    backend: RingboardBackend,
    purpose: ReplacePurpose,
    id: String,
    revision: u64,
    mime: String,
    next: (ReplaceJob, ReplaceAction),
)
    requires
        call_ensures(
            RingboardBackend::begin_replacement,
            (&backend, purpose, id, revision, mime),
            next,
        ),
    ensures
        backend.ids@.contains_key(id@) ==> next.1 == (ReplaceAction::Load {
            raw_id: backend.ids@[id@].raw_id,
        }),
        !backend.ids@.contains_key(id@) ==> (next.1 matches ReplaceAction::Done(Err(error))
            && error.kind is NotFound),
        next.0.id@ == id@,
        next.0.revision == revision,
        next.0.mime@ == mime@,
        next.0.purpose == purpose,
{
}

/// The right to finish an operation and the right to cancel it are there while it is
/// being worked on, and gone once either was taken or it is over.
pub proof fn operations_are_finished_or_cancelled(
    before: OperationControl,
    committed: OperationControl,
    begun: bool,
    dropped: OperationControl,
    cancelled: bool,
    over: bool,
)
    requires
        exists|asked: &mut OperationControl|
            *asked == before && *final(asked) == committed && #[trigger] call_ensures(
                OperationControl::begin_commit,
                (asked,),
                begun,
            ),
        exists|asked: &mut OperationControl|
            *asked == before && *final(asked) == dropped && #[trigger] call_ensures(
                OperationControl::cancel,
                (asked,),
                cancelled,
            ),
        call_ensures(OperationControl::wait, (&before,), over),
    ensures
        begun <==> before.phase == Phase::Editing,
        cancelled <==> before.phase == Phase::Editing,
        begun ==> committed.phase == Phase::Committing,
        !begun ==> committed == before,
        cancelled ==> dropped.phase == Phase::Cancelled,
        !cancelled ==> dropped == before,
        over <==> before.phase == Phase::Finished,
{
}

/// A new operation stands behind those under way, which stay as they are; a second
/// screenshot is refused while one is being taken.
pub proof fn operations_are_launched(
    before: Operations,
    id: String,
    action: &str,
    files: Vec<String>,
    after: Operations,
    result: BackendResult<()>,
)
    requires
        exists|asked: &mut Operations|
            *asked == before && *final(asked) == after && #[trigger] call_ensures(
                Operations::launch,
                (asked, id, action, files),
                result,
            ),
    ensures
        result is Err <==> action@ == "screenshot"@ && exists|i: int|
            0 <= i < before.tasks@.len() && (#[trigger] before.tasks@[i]).action@ == "screenshot"@,
        result is Err ==> after.tasks@ == before.tasks@,
        result is Ok ==> after.tasks@.len() == before.tasks@.len() + 1,
        result is Ok ==> forall|i: int|
            0 <= i < before.tasks@.len() ==> #[trigger] after.tasks@[i] == before.tasks@[i],
        result is Ok ==> after.tasks@.last().id@ == id@ && after.tasks@.last().action@ == action@
            && after.tasks@.last().files == files && after.tasks@.last().control.phase
            == Phase::Editing,
{
    if result is Ok {
        assert forall|i: int| 0 <= i < before.tasks@.len() implies #[trigger] after.tasks@[i]
            == before.tasks@[i] by {
            assert(after.tasks@.drop_last()[i] == before.tasks@[i]);
        }
    }
}

proof fn the_first_task_is_found(tasks: Seq<OperationTask>, id: Seq<char>)
    ensures
        0 <= operation::task_index(tasks, id) <= tasks.len(),
        operation::task_index(tasks, id) < tasks.len() ==> tasks[operation::task_index(
            tasks,
            id,
        )].id@ == id,
        forall|i: int|
            0 <= i < operation::task_index(tasks, id) ==> (#[trigger] tasks[i]).id@ != id,
    decreases tasks.len(),
{
    if tasks.len() > 0 && tasks[0].id@ != id {
        let rest = tasks.drop_first();
        the_first_task_is_found(rest, id);
        assert forall|i: int| 0 <= i < operation::task_index(tasks, id) implies (
        #[trigger] tasks[i]).id@ != id by {
            if i > 0 {
                assert(rest[i - 1] == tasks[i]);
            }
        }
    }
}

/// An operation under an identifier that no other has is cancelled exactly while it is
/// being worked on: then it is gone, and is told as cancelled with the files to be
/// removed. The others stay.
pub proof fn cancelled_operations_are_gone(
    before: Operations,
    id: &str,
    at: int,
    after: Operations,
    cancelled: Option<Cancellation>,
)
    requires
        0 <= at < before.tasks@.len(),
        before.tasks@[at].id@ == id@,
        forall|i: int| 0 <= i < at ==> (#[trigger] before.tasks@[i]).id@ != id@,
        exists|asked: &mut Operations|
            *asked == before && *final(asked) == after && #[trigger] call_ensures(
                Operations::cancel_operation,
                (asked, id),
                cancelled,
            ),
    ensures
        cancelled is Some <==> before.tasks@[at].control.phase == Phase::Editing,
        cancelled is None ==> after.tasks@ == before.tasks@,
        cancelled matches Some(end) ==> after.tasks@ == before.tasks@.remove(at) && end.files
            == before.tasks@[at].files && end.event.id@ == id@ && end.event.status@ == "cancelled"@
            && end.event.action@ == before.tasks@[at].action@,
{
    the_first_task_is_found(before.tasks@, id@);
    let found = operation::task_index(before.tasks@, id@);
    if found < at {
        assert(before.tasks@[found].id@ != id@);
    }
    assert(found == at);
}

/// Only one can tell the end of an operation: whoever claims it takes it out, with
/// its files, and one that is not under way cannot be claimed.
pub proof fn ends_are_claimed_once(
    before: Operations,
    id: &str,
    after: Operations,
    files: Option<Vec<String>>,
)
    requires
        exists|asked: &mut Operations|
            *asked == before && *final(asked) == after && #[trigger] call_ensures(
                Operations::claim_terminal_event,
                (asked, id),
                files,
            ),
    ensures
        files is Some <==> exists|i: int|
            0 <= i < before.tasks@.len() && (#[trigger] before.tasks@[i]).id@ == id@,
        files is None ==> after.tasks@ == before.tasks@,
        files matches Some(files) ==> exists|i: int|
            0 <= i < before.tasks@.len() && (#[trigger] before.tasks@[i]).id@ == id@
                && before.tasks@[i].files == files && after.tasks@ == before.tasks@.remove(i),
{
    the_first_task_is_found(before.tasks@, id@);
    let found = operation::task_index(before.tasks@, id@);
    if found < before.tasks@.len() {
        assert(before.tasks@[found].id@ == id@);
    }
}

/// The end of an image edit is told as it went: completed, with a warning where only
/// part was done, or failed with what went wrong.
pub proof fn edits_end_as_they_went(
    id: String,
    result: BackendResult<OperationCompletion>,
    event: OperationResult,
)
    requires
        call_ensures(annotation_event, (id, result), event),
    ensures
        event.id@ == id@,
        event.action@ == "annotate"@,
        result matches Ok(completion) ==> event.status@ == "completed"@ && event.message@
            == completion.message@ && event.warning == completion.warning,
        result matches Err(error) ==> event.status@ == "failed"@ && event.message@
            == error.message@ && event.warning is None,
{
}

/// Something else on the clipboard makes what was shown count no more, and no file of
/// the daemon's own is taken to be on it.
pub proof fn other_selections_make_what_was_shown_old(
    before: RingboardBackend,
    after: RingboardBackend,
)
    requires
        exists|asked: &mut RingboardBackend|
            *asked == before && *final(asked) == after && #[trigger] call_ensures(
                RingboardBackend::selection_changed,
                (asked,),
                (),
            ),
    ensures
        forall|id: Seq<char>| !(#[trigger] after.ids@.contains_key(id)),
        after.summaries.projection is None,
        after.artifacts.active() is None,
        after.artifacts.records() == before.artifacts.records(),
        after.revision == before.revision,
{
}

/// Whoever waits for an operation waits until it is finished.
pub proof fn operations_are_waited_for(
    before: OperationControl,
    over: bool,
    after: OperationControl,
    finished: bool,
)
    requires
        call_ensures(OperationControl::wait, (&before,), over),
        exists|asked: &mut OperationControl|
            *asked == before && *final(asked) == after && #[trigger] call_ensures(
                OperationControl::finish,
                (asked,),
                (),
            ),
        call_ensures(OperationControl::wait, (&after,), finished),
    ensures
        over <==> before.phase == Phase::Finished,
        finished,
{
}

} // verus!
