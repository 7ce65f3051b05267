//! What is under way waits for the answer to what it asked, and keeps what it was given.
use crate::api;
use crate::api::{ApiAction, ApiEvent, ApiService, Pending, Request, StoreCall};
use crate::backend::BackendError;
use crate::history_search;
use crate::history_search::{Search, SearchAction, SearchEvent};
use crate::model::EntrySummary;
use crate::ringboard::content::FileProbe;
use crate::ringboard::deletion;
use crate::ringboard::deletion::{
    CleanupAction, CleanupEvent, CleanupJob, DeleteAction, DeleteEvent, DeleteJob,
};
use crate::ringboard::details;
use crate::ringboard::details::{Glance, GlanceAction, GlanceEvent, GlanceJob, GlanceStage, Seen};
use crate::ringboard::mutation;
use crate::ringboard::mutation::{EntryJob, JobAction, JobEvent, JobResult, JobStage};
use crate::ringboard::replacement;
use crate::ringboard::replacement::{ReplaceAction, ReplaceEvent, ReplaceJob, ReplaceStage};
use crate::ringboard::RingboardBackend;
use crate::selection::FileContent;
use vstd::prelude::*;
use vstd::string::*;
use vstd::utf8::*;

verus! {

/// Something that is done with an entry is over exactly once its outcome is told, and
/// waits for what it asked for until then.
pub proof fn jobs_wait_for_what_they_asked(
    before: RingboardBackend,
    job: EntryJob,
    event: JobEvent,
    now: u64,
    after: RingboardBackend,
    next: EntryJob,
    action: JobAction,
)
    requires
        mutation::job_advanced(before, job, event, now, after, next, action),
    ensures
        action is Done <==> next.stage is Over,
        action is Read <==> next.stage is Reading,
        action is Probe <==> next.stage is Probing,
        action is PublishBytes || action is PublishFile <==> next.stage is Publishing,
        action is WriteImage <==> next.stage is Writing,
        action is SaveRegistry <==> next.stage is Saving,
        action is PublishLink <==> next.stage is Linking,
        action is RemoveFile <==> next.stage is Discarding,
        action is ReadFile <==> next.stage is ReadingFile,
        action is Stage <==> next.stage is Staging,
        action is Send <==> next.stage is Sending,
        !(next.stage is Loading),
        next.purpose == job.purpose && next.id == job.id && next.revision == job.revision
            && next.max_bytes == job.max_bytes,
{
}

/// A failure with a file of its own on the disk is told once the file is gone, and it is
/// that failure; nothing is taken to be on the clipboard meanwhile.
pub proof fn files_are_removed_before_a_failure_is_told(
    before: RingboardBackend,
    job: EntryJob,
    event: JobEvent,
    error: BackendError,
    path: String,
    now: u64,
    between: RingboardBackend,
    removing: EntryJob,
    removal: JobAction,
    later: u64,
    after: RingboardBackend,
    next: EntryJob,
    action: JobAction,
)
    requires
        mutation::job_advanced(before, job, event, now, between, removing, removal),
        job.stage == (JobStage::Saving { path }) && event == JobEvent::Saved(Err(error))
            || job.stage == (JobStage::Linking { path, created: true }) && event
            == JobEvent::Published(Err(error)),
        mutation::job_advanced(between, removing, JobEvent::Removed, later, after, next, action),
    ensures
        removal == JobAction::RemoveFile(path),
        action == JobAction::Done(Err(error)),
        event is Saved ==> between.artifacts.active() is None,
        after.artifacts == between.artifacts,
{
}

/// An image that is edited is staged in the revision that was read, with the content
/// that was read of the file that it is.
pub proof fn images_are_staged_as_they_were_read(
    before: RingboardBackend,
    job: EntryJob,
    revision: u64,
    mime: String,
    file: FileContent,
    now: u64,
    between: RingboardBackend,
    staging: EntryJob,
    asked: JobAction,
    files: (String, String),
    later: u64,
    after: RingboardBackend,
    next: EntryJob,
    action: JobAction,
)
    requires
        job.stage == (JobStage::ReadingFile { revision, mime }),
        mutation::job_advanced(
            before,
            job,
            JobEvent::Content(file),
            now,
            between,
            staging,
            asked,
        ),
        asked is Stage,
        mutation::job_advanced(
            between,
            staging,
            JobEvent::Staged(Ok(files)),
            later,
            after,
            next,
            action,
        ),
    ensures
        action matches JobAction::Done(Ok(JobResult::Staged(stage))) && stage.revision == revision
            && stage.opaque_id == job.id && stage.input == files.0 && stage.output == files.1,
{
}

/// What was read of an entry is what its meaning is found out from, and an entry that is
/// put on the clipboard again is put there with those bytes.
pub proof fn entries_are_published_as_they_were_read(
    before: RingboardBackend,
    job: EntryJob,
    summary: EntrySummary,
    file: FileContent,
    now: u64,
    between: RingboardBackend,
    probing: EntryJob,
    asked: JobAction,
    probes: Vec<FileProbe>,
    later: u64,
    after: RingboardBackend,
    next: EntryJob,
    action: JobAction,
)
    requires
        job.purpose is Restore,
        job.stage == (JobStage::Reading { summary }),
        mutation::job_advanced(
            before,
            job,
            JobEvent::Content(file),
            now,
            between,
            probing,
            asked,
        ),
        asked is Probe,
        mutation::job_advanced(
            between,
            probing,
            JobEvent::Probed(probes),
            later,
            after,
            next,
            action,
        ),
    ensures
        action matches JobAction::PublishBytes { content, max_bytes, .. } ==> file.content is Ok
            && content@ == file.content->Ok_0@ && max_bytes == job.max_bytes,
        action is PublishBytes || action is PublishFile || action is Done,
{
}

/// A replacement is over exactly once its outcome is told, and waits for what it asked
/// for until then, at the place that it was begun at.
pub proof fn replacements_wait_for_what_they_asked(
    before: RingboardBackend,
    job: ReplaceJob,
    event: ReplaceEvent,
    now: u64,
    after: RingboardBackend,
    next: ReplaceJob,
    action: ReplaceAction,
)
    requires
        replacement::replace_advanced(before, job, event, now, after, next, action),
    ensures
        action is Done <==> next.stage is Over,
        action is Send <==> next.stage is Sending,
        action is Load <==> next.stage is Reloading,
        action is ReadHead <==> next.stage is Heading,
        action is Probe <==> next.stage is Probing,
        action is Restore <==> next.stage is Restoring,
        action is ReadOutput <==> next.stage is ReadingOutput,
        action is SaveRegistry <==> next.stage is Saving,
        action is PublishOutput <==> next.stage is Publishing,
        !(next.stage is Loading),
        next.stage matches ReplaceStage::Reloading { raw_id } ==> action == (ReplaceAction::Load {
            raw_id,
        }) && job.stage == (ReplaceStage::Sending { raw_id }),
        next.purpose == job.purpose && next.id == job.id && next.revision == job.revision
            && next.mime == job.mime,
{
}

/// What took the place of an entry is what is put on the clipboard and told: the text as
/// it was read again, or the image that was edited, as an echo of that entry.
pub proof fn what_took_the_place_is_published(
    before: RingboardBackend,
    job: ReplaceJob,
    summary: EntrySummary,
    head: Vec<u8>,
    now: u64,
    between: RingboardBackend,
    probing: ReplaceJob,
    asked: ReplaceAction,
    probes: Vec<FileProbe>,
    later: u64,
    after: RingboardBackend,
    next: ReplaceJob,
    action: ReplaceAction,
)
    requires
        job.stage == (ReplaceStage::Heading { summary }),
        replacement::replace_advanced(
            before,
            job,
            ReplaceEvent::Head(Ok(head)),
            now,
            between,
            probing,
            asked,
        ),
        replacement::replace_advanced(
            between,
            probing,
            ReplaceEvent::Probed(probes),
            later,
            after,
            next,
            action,
        ),
    ensures
        job.purpose is Edit ==> action == (ReplaceAction::Restore {
            id: summary.id,
            revision: summary.revision,
            max_bytes: 262_144,
        }),
        job.purpose is Edit ==> (next.stage matches ReplaceStage::Restoring { details }
            && details.entry == summary && (details.preview_truncated <==> head@.len()
            > 262_144) && (head@.len() <= 262_144 && valid_utf8(head@) ==> (
        details.text matches Some(text) && text@ == decode_utf8(head@)))),
        job.purpose is Annotation ==> action is ReadOutput && next.stage == (
        ReplaceStage::ReadingOutput { source: summary.id }),
{
}

/// A deletion is over exactly once its outcome is told; until then it reads the entries
/// one by one, each at its place, and then waits for the server.
pub proof fn deletions_wait_for_what_they_asked(
    before: RingboardBackend,
    job: DeleteJob,
    event: DeleteEvent,
    after: RingboardBackend,
    next: DeleteJob,
    action: DeleteAction,
)
    requires
        deletion::delete_advanced(before, job, event, after, next, action),
    ensures
        action is Done <==> next.stage is Over,
        action is Send <==> next.stage is Sending,
        action is Load <==> next.stage is Loading,
        next.stage matches deletion::DeleteStage::Loading { binding } ==> action == (
        DeleteAction::Load { raw_id: binding.raw_id }) && next.proven@.len() == job.proven@.len() + 1
            && next.proven@.len() < job.targets@.len() && after.ids@.contains_pair(
            job.targets@[next.proven@.len() as int].opaque_id@,
            binding,
        ),
        action is Send ==> next.proven@.len() == job.proven@.len() + 1 && next.proven@.len()
            >= job.targets@.len(),
        next.targets == job.targets,
{
}

/// Clearing is over exactly once its outcome is told, and goes through its steps in
/// order until then: no step is left out, and files are deleted once for what no entry
/// refers to, and once for all of them where the history is wiped.
pub proof fn clearing_waits_for_what_it_asked(
    before: RingboardBackend,
    job: CleanupJob,
    event: CleanupEvent,
    now: u64,
    after: RingboardBackend,
    next: CleanupJob,
    action: CleanupAction,
)
    requires
        deletion::cleanup_advanced(before, job, event, now, after, next, action),
    ensures
        action is Done <==> next.stage is Over,
        action is ClearCaches <==> next.stage is Clearing,
        action is Collect <==> next.stage is Collecting,
        action is Delete <==> next.stage is Pruning || next.stage is Erasing,
        action is SaveRegistry <==> next.stage is Pruned || next.stage is Erased,
        !(next.stage is Sending),
        next.stage is Clearing ==> job.stage is Sending,
        next.stage is Collecting ==> job.stage is Clearing,
        next.stage is Pruning ==> job.stage is Collecting,
        next.stage is Pruned ==> job.stage is Pruning,
        next.stage is Erasing ==> job.stage is Pruned && job.wipe,
        next.stage is Erased ==> job.stage is Erasing,
        action matches CleanupAction::Done(Ok(_)) ==> job.stage is Pruned && !job.wipe
            || job.stage is Erased,
{
}

/// A look at an entry is over exactly once what was seen is told, and waits for what it
/// asked for until then.
pub proof fn looks_wait_for_what_they_asked(
    before: RingboardBackend,
    job: GlanceJob,
    event: GlanceEvent,
    after: RingboardBackend,
    next: GlanceJob,
    action: GlanceAction,
)
    requires
        details::glance_advanced(before, job, event, after, next, action),
    ensures
        action is Done <==> next.stage is Over,
        action is ReadHead <==> next.stage is Heading,
        action is Probe <==> next.stage is Probing,
        !(action is Load) && !(next.stage is Loading),
        next.glance == job.glance && next.id == job.id && next.revision == job.revision,
{
}

/// What is shown of an entry is what was read of it, and whether there is more.
pub proof fn looks_show_the_beginning_that_was_read(
    before: RingboardBackend,
    job: GlanceJob,
    max_text_bytes: usize,
    summary: EntrySummary,
    head: Vec<u8>,
    between: RingboardBackend,
    probing: GlanceJob,
    asked: GlanceAction,
    probes: Vec<FileProbe>,
    after: RingboardBackend,
    next: GlanceJob,
    action: GlanceAction,
)
    requires
        job.glance == (Glance::Details { max_text_bytes }),
        max_text_bytes <= 262_144,
        job.stage == (GlanceStage::Heading { summary }),
        details::glance_advanced(
            before,
            job,
            GlanceEvent::Head(Ok(head)),
            between,
            probing,
            asked,
        ),
        details::glance_advanced(
            between,
            probing,
            GlanceEvent::Probed(probes),
            after,
            next,
            action,
        ),
    ensures
        action matches GlanceAction::Done(Ok(Seen::Details(shown))) && shown.entry == summary && (
        shown.preview_truncated <==> head@.len() > max_text_bytes) && (head@.len()
            <= max_text_bytes && valid_utf8(head@) ==> (shown.text matches Some(text) && text@
            == decode_utf8(head@))),
{
}

/// A search waits for what it asked for: pages while it collects, the order of the
/// entries while it ranks, and the state of the history before and after.
pub proof fn searches_wait_for_what_they_asked(
    key: Seq<u8>,
    before: Search,
    event: SearchEvent,
    elapsed: u64,
    after: Search,
    action: SearchAction,
)
    requires
        history_search::search_advanced(key, before, event, elapsed, after, action),
    ensures
        action is Done <==> after.stage is Over,
        action is Query <==> after.stage is Collecting,
        action is Rank <==> after.stage is Ranking,
        action is Token <==> after.stage is Confirming || after.stage is Finishing,
        after.stage is Ranking ==> before.stage is Confirming,
        after.stage is Confirming ==> before.stage is Collecting,
        after.stage is Finishing ==> before.stage is Ranking,
        action matches SearchAction::Done(Ok(_)) ==> before.stage is Finishing,
{
}

/// What a request waits for is the answer to `action`.
pub open spec fn answers_fit(pending: Pending, action: ApiAction) -> bool {
    match action {
        ApiAction::Done(_) => pending is Over,
        ApiAction::Limits => pending is Settings,
        ApiAction::Exists(_) => pending is LaunchExists,
        ApiAction::Launch(_) => pending is Launched,
        ApiAction::Rank(_) => pending is Search,
        ApiAction::Settings(_) => pending is SetPaused || pending is Update || pending is WipeFence
            || pending is WipeRecovery,
        ApiAction::Store(call) => match call {
            StoreCall::ChangeToken => pending is Search,
            StoreCall::Query(_) => pending is Query || pending is Search,
            StoreCall::Revision { .. } => pending is ThumbnailRevision || pending is CommitRevision,
            StoreCall::Details { .. } => pending is Details || pending is ActionDetails
                || pending is EditDetails,
            StoreCall::Thumbnail { .. } => pending is Thumbnail,
            StoreCall::Screenshot { .. } | StoreCall::Interactive { .. } | StoreCall::Publish {
                ..
            } | StoreCall::PublishFiles { .. } | StoreCall::RemoveMany(_) => pending is Operation,
            StoreCall::Mutate { .. } => pending is Mutated || pending is Pasted || pending is Wiped,
            StoreCall::Replace(_) => pending is Replaced,
        },
    }
}

/// A request waits for the answer to what it asked first, and is over where nothing was
/// asked.
pub proof fn requests_wait_for_what_they_asked(
    before: ApiService,
    request: Request,
    owner: Option<String>,
    now: u64,
    after: ApiService,
    pending: Pending,
    action: ApiAction,
)
    requires
        api::began(before, request, owner, now, after, pending, action),
    ensures
        answers_fit(pending, action),
{
}

/// A request that goes on waits for the answer to what it asked next, under the name and
/// in the session that it was made with.
pub proof fn requests_go_on_waiting_for_what_they_asked(
    before: ApiService,
    waiting: Pending,
    event: ApiEvent,
    now: u64,
    after: ApiService,
    pending: Pending,
    action: ApiAction,
)
    requires
        api::resumed(before, waiting, event, now, after, pending, action),
    ensures
        answers_fit(pending, action),
        pending matches Pending::Mutated { action: name } ==> (
        waiting matches Pending::ActionDetails { params, .. } && params.action == name),
        pending matches Pending::Pasted { action: name, session_id } ==> (
        waiting matches Pending::ActionDetails { params, .. } && params.action == name
            && params.session_id == Some(session_id)),
        pending matches Pending::Launched { action: name } ==> (
        waiting matches Pending::ActionDetails { params, .. } && params.action == name) || (
        waiting matches Pending::LaunchExists { action: of, .. } && of == name),
        pending is Wiped ==> waiting == (Pending::WipeFence { paused: true }),
        pending matches Pending::WipeRecovery { outcome, .. } ==> (waiting is Wiped && event
            == ApiEvent::Operation(outcome)) || (waiting matches Pending::WipeRecovery {
            outcome: of,
            ..
        } && of == outcome),
        waiting is Over ==> pending is Over,
{
}

/// What begins waits for what it asks first: the entry where there is one, or, where
/// something is to be cleared, the server or what is kept apart.
pub proof fn beginnings_wait_for_what_they_ask(
    backend: RingboardBackend,
    purpose: mutation::Purpose,
    replacing: replacement::ReplacePurpose,
    glance: Glance,
    id: String,
    revision: Option<u64>,
    exact: u64,
    mime: String,
    max_bytes: u64,
    targets: Vec<crate::backend::EntryTarget>,
    wipe: bool,
    job: (EntryJob, JobAction),
    replacement_begun: (ReplaceJob, ReplaceAction),
    look: (GlanceJob, GlanceAction),
    deleting: (DeleteJob, DeleteAction),
    clearing: (CleanupJob, CleanupAction),
)
    requires
        call_ensures(
            RingboardBackend::begin_job,
            (&backend, purpose, id, revision, max_bytes),
            job,
        ),
        call_ensures(
            RingboardBackend::begin_replacement,
            (&backend, replacing, id, exact, mime),
            replacement_begun,
        ),
        call_ensures(RingboardBackend::begin_glance, (&backend, glance, id, revision), look),
        call_ensures(RingboardBackend::begin_deletion, (&backend, targets), deleting),
        call_ensures(deletion::begin_cleanup, (wipe,), clearing),
    ensures
        job.1 is Load <==> job.0.stage is Loading,
        job.1 is Done <==> job.0.stage is Over,
        job.1 is Load || job.1 is Done,
        job.0.purpose == purpose && job.0.id == id && job.0.revision == revision && job.0.max_bytes
            == max_bytes,
        replacement_begun.1 is Load <==> replacement_begun.0.stage is Loading,
        replacement_begun.1 is Done <==> replacement_begun.0.stage is Over,
        replacement_begun.1 is Load || replacement_begun.1 is Done,
        replacement_begun.0.purpose == replacing && replacement_begun.0.id == id
            && replacement_begun.0.revision == exact && replacement_begun.0.mime == mime,
        look.1 is Load <==> look.0.stage is Loading,
        look.1 is Done <==> look.0.stage is Over,
        look.1 is Load || look.1 is Done,
        look.0.glance == glance && look.0.id == id && look.0.revision == revision,
        deleting.1 is Load <==> deleting.0.stage is Loading,
        deleting.1 is Send <==> deleting.0.stage is Sending,
        deleting.1 is Done <==> deleting.0.stage is Over,
        deleting.0.targets == targets && deleting.0.proven@.len() == 0,
        clearing.1 is Send <==> clearing.0.stage is Sending,
        clearing.1 is ClearCaches <==> clearing.0.stage is Clearing,
        clearing.1 is Send <==> wipe,
        clearing.1 is ClearCaches <==> !wipe,
        clearing.0.wipe == wipe,
{
}

/// What is told as done has no warning, and a path only where a link was made; nothing of
/// the daemon's own is taken to be on the clipboard once an entry is on it.
pub proof fn done_is_done_without_a_warning(
    before: RingboardBackend,
    job: EntryJob,
    event: JobEvent,
    now: u64,
    after: RingboardBackend,
    next: EntryJob,
    action: JobAction,
)
    requires
        mutation::job_advanced(before, job, event, now, after, next, action),
    ensures
        action matches JobAction::Done(Ok(JobResult::Operation(operation))) ==> operation.status@
            == "completed"@ && operation.warning is None && (operation.path is Some
            <==> job.stage is Linking),
        job.stage is Publishing && event == JobEvent::Published(Ok(()))
            ==> after.artifacts.active() is None && after.artifacts.records()
            == before.artifacts.records(),
{
}

/// An edit that could not be put on the clipboard is told as an edit all the same, and
/// makes what was shown old; one that was put there changes nothing more.
pub proof fn unpublished_edits_make_what_was_shown_old(
    before: RingboardBackend,
    job: ReplaceJob,
    publication: crate::backend::BackendResult<()>,
    now: u64,
    after: RingboardBackend,
    next: ReplaceJob,
    action: ReplaceAction,
)
    requires
        job.stage is Restoring,
        replacement::replace_advanced(
            before,
            job,
            ReplaceEvent::Restored(publication),
            now,
            after,
            next,
            action,
        ),
    ensures
        action matches ReplaceAction::Done(Ok(replacement::Replaced::Edit(result)))
            && result.selection_published == (publication is Ok) && result.entry
            == job.stage->details,
        publication is Err ==> forall|id: Seq<char>| !(#[trigger] after.ids@.contains_key(id)),
        publication is Ok ==> after.ids@ == before.ids@,
        after.artifacts == before.artifacts,
{
}

/// A look reads one byte more than it shows, so that it knows whether there is more; for
/// a thumbnail it reads 64 KiB, and for the revision nothing.
pub proof fn looks_read_one_byte_more(
    before: RingboardBackend,
    job: GlanceJob,
    event: GlanceEvent,
    after: RingboardBackend,
    next: GlanceJob,
    action: GlanceAction,
)
    requires
        job.stage is Loading,
        details::glance_advanced(before, job, event, after, next, action),
    ensures
        action matches GlanceAction::ReadHead { raw_id, limit } ==> raw_id
            == job.stage->Loading_binding.raw_id && (job.glance matches Glance::Details {
            max_text_bytes,
        } ==> limit == if max_text_bytes <= 262_144 {
            max_text_bytes + 1
        } else {
            262_145
        }) && (job.glance is Thumbnail ==> limit == 65_536),
        job.glance is Revision ==> action is Done,
{
}

} // verus!
