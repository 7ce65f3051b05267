//! Deleting several entries at once, clearing what the daemon keeps, and wiping
//! the history.
use crate::backend::{BackendErrorKind, BackendResult, EntryTarget};
use crate::model::OperationResult;
use crate::ringboard::artifacts;
use crate::ringboard::artifacts::{ArtifactRecord, ArtifactRegistry, Deletion};
use crate::ringboard::ipc;
use crate::ringboard::ipc::{PolicyExchange, Target};
use crate::ringboard::mutation;
use crate::ringboard::mutation::Loaded;
use crate::ringboard::projection::{IdentityBinding, ResolvedEntry};
use crate::ringboard::screenshot::operation_error;
use crate::ringboard::RingboardBackend;
use crate::text;
use vstd::hash_set::*;
use vstd::prelude::*;
use vstd::string::*;

verus! {

/// Entries that are deleted together. All of them are read and found to be the
/// ones that the caller saw before any is deleted.
pub struct DeleteJob {
    pub targets: Vec<EntryTarget>,
    /// The entries that were read, in order.
    pub proven: Vec<Target>,
    pub stage: DeleteStage,
}

/// What a deletion waits for.
pub enum DeleteStage {
    /// The first entry that was not read yet.
    Loading { binding: IdentityBinding },
    /// The server.
    Sending,
    Over,
}

/// What a deletion needs next.
pub enum DeleteAction {
    Load { raw_id: u64 },
    /// The request, with the list of entries in a file.
    Send { exchange: PolicyExchange, list: Vec<u8> },
    /// Nothing: this is the outcome.
    Done(BackendResult<OperationResult>),
}

/// What a deletion was given.
pub enum DeleteEvent {
    Loaded(Loaded),
    Sent(BackendResult<()>),
}

/// What is told of so many deleted entries.
pub open spec fn deleted_message(count: nat) -> Seq<char> {
    text::decimal(count) + " clipboard "@ + if count == 1 {
        "entry"@
    } else {
        "entries"@
    } + " deleted"@
}

/// What is needed next, once these entries were read: the next one, or, once
/// all were read, the server.
pub open spec fn proceeds(
    backend: RingboardBackend,
    targets: Seq<EntryTarget>,
    proven: Seq<Target>,
    next: DeleteJob,
    action: DeleteAction,
) -> bool {
    if proven.len() < targets.len() {
        let id = targets[proven.len() as int].opaque_id@;
        if backend.ids@.contains_key(id) {
            let binding = backend.ids@[id];
            &&& next.stage == (DeleteStage::Loading { binding })
            &&& action == (DeleteAction::Load { raw_id: binding.raw_id })
        } else {
            &&& next.stage is Over
            &&& action matches DeleteAction::Done(Err(error)) && error.is(
                BackendErrorKind::NotFound,
                "Clipboard entry ID is unknown or stale"@,
            )
        }
    } else if 1 <= proven.len() <= ipc::MAX_TARGETS {
        &&& next.stage is Sending
        &&& action matches DeleteAction::Send { exchange, list } && exchange.version()
            == ipc::POLICY_VERSION && exchange.packet() == ipc::request_packet(
            ipc::OP_REMOVE_MANY,
            0,
            Seq::new(32, |i: int| 0u8),
            Seq::empty(),
        ) && list@ == ipc::targets_file(proven)
    } else {
        &&& next.stage is Over
        &&& action matches DeleteAction::Done(Err(error)) && error.is(
            BackendErrorKind::Unavailable,
            ipc::ipc_message("Invalid deletion count"@),
        )
    }
}

/// What is needed next, once one more entry was read.
pub open spec fn reads_on(
    backend: RingboardBackend,
    targets: Seq<EntryTarget>,
    proven: Seq<Target>,
    raw_id: u64,
    result: BackendResult<ResolvedEntry>,
    next: DeleteJob,
    action: DeleteAction,
) -> bool {
    match result {
        Err(error) => next.stage is Over && action == DeleteAction::Done(Err(error)),
        Ok(resolved) => {
            &&& next.proven@ == proven.push(Target { id: raw_id, proof: resolved.proof })
            &&& proceeds(backend, targets, next.proven@, next, action)
        },
    }
}

/// What `event` makes of a deletion.
pub open spec fn delete_advanced(
    before: RingboardBackend,
    job: DeleteJob,
    event: DeleteEvent,
    after: RingboardBackend,
    next: DeleteJob,
    action: DeleteAction,
) -> bool {
    &&& next.targets == job.targets
    &&& match (job.stage, event) {
        (DeleteStage::Loading { binding }, DeleteEvent::Loaded(loaded)) => {
            let target = job.targets@[job.proven@.len() as int];
            exists|result: BackendResult<ResolvedEntry>| #[trigger]
                mutation::selects(
                    before,
                    after,
                    target.opaque_id@,
                    Some(target.expected_revision),
                    binding,
                    loaded,
                    result,
                ) && reads_on(
                    after,
                    job.targets@,
                    job.proven@,
                    binding.raw_id,
                    result,
                    next,
                    action,
                )
        },
        (DeleteStage::Sending, DeleteEvent::Sent(Ok(_))) => {
            &&& mutation::forgotten(before, after)
            &&& after.artifacts == before.artifacts
            &&& next.stage is Over
            &&& action matches DeleteAction::Done(Ok(operation)) && mutation::is_completed(
                operation,
                "delete-many"@,
                deleted_message(job.targets@.len()),
            )
        },
        (DeleteStage::Sending, DeleteEvent::Sent(Err(error))) => {
            &&& mutation::unchanged(before, after)
            &&& next.stage is Over
            &&& action == DeleteAction::Done(Err(error))
        },
        _ => {
            &&& mutation::unchanged(before, after)
            &&& next.stage is Over
            &&& action matches DeleteAction::Done(Err(error)) && error.is(
                BackendErrorKind::OperationFailed,
                "Clipboard operation is out of order"@,
            )
        },
    }
}

impl DeleteJob {
    pub open spec fn wf(self) -> bool {
        self.stage is Loading ==> self.proven@.len() < self.targets@.len()
    }
}

impl RingboardBackend {
    /// What is needed next, once these entries were read.
    fn next_deletion(&self, targets: Vec<EntryTarget>, proven: Vec<Target>) -> (next: (
        DeleteJob,
        DeleteAction,
    ))
        requires
            proven@.len() <= targets@.len(),
        ensures
            next.0.wf(),
            next.0.targets == targets,
            next.0.proven == proven,
            proceeds(*self, targets@, proven@, next.0, next.1),
    {
        let at: usize = proven.len();
        if at < targets.len() {
            return match self.resolve(targets[at].opaque_id.as_str()) {
                Ok(binding) => (
                    DeleteJob { targets, proven, stage: DeleteStage::Loading { binding } },
                    DeleteAction::Load { raw_id: binding.raw_id },
                ),
                Err(error) => (
                    DeleteJob { targets, proven, stage: DeleteStage::Over },
                    DeleteAction::Done(Err(error)),
                ),
            };
        }
        match ipc::remove_many(proven.as_slice()) {
            Ok((exchange, list)) => (
                DeleteJob { targets, proven, stage: DeleteStage::Sending },
                DeleteAction::Send { exchange, list },
            ),
            Err(error) => (
                DeleteJob { targets, proven, stage: DeleteStage::Over },
                DeleteAction::Done(Err(error)),
            ),
        }
    }

    /// Begins to delete entries that were shown.
    pub fn begin_deletion(&self, targets: Vec<EntryTarget>) -> (next: (DeleteJob, DeleteAction))
        ensures
            next.0.wf(),
            next.0.targets == targets,
            next.0.proven@.len() == 0,
            proceeds(*self, targets@, Seq::empty(), next.0, next.1),
    {
        let proven: Vec<Target> = Vec::new();
        assert(proven@ =~= Seq::empty());
        self.next_deletion(targets, proven)
    }

    /// The next entry was read.
    fn deletion_loaded(
        &mut self,
        targets: Vec<EntryTarget>,
        proven: Vec<Target>,
        binding: IdentityBinding,
        loaded: Loaded,
    ) -> (next: (DeleteJob, DeleteAction))
        requires
            old(self).wf(),
            proven@.len() < targets@.len(),
        ensures
            final(self).wf(),
            next.0.wf(),
            next.0.targets == targets,
            exists|result: BackendResult<ResolvedEntry>| #[trigger]
                mutation::selects(
                    *old(self),
                    *final(self),
                    targets@[proven@.len() as int].opaque_id@,
                    Some(targets@[proven@.len() as int].expected_revision),
                    binding,
                    loaded,
                    result,
                ) && reads_on(
                    *final(self),
                    targets@,
                    proven@,
                    binding.raw_id,
                    result,
                    next.0,
                    next.1,
                ),
    {
        let at: usize = proven.len();
        let result = self.select(
            targets[at].opaque_id.as_str(),
            Some(targets[at].expected_revision),
            binding,
            loaded,
        );
        assert(mutation::selects(
            *old(self),
            *self,
            targets@[at as int].opaque_id@,
            Some(targets@[at as int].expected_revision),
            binding,
            loaded,
            result,
        ));
        match result {
            Err(error) => (
                DeleteJob { targets, proven, stage: DeleteStage::Over },
                DeleteAction::Done(Err(error)),
            ),
            Ok(resolved) => {
                let mut more = proven;
                more.push(Target { id: binding.raw_id, proof: resolved.proof });
                self.next_deletion(targets, more)
            },
        }
    }

    /// Takes in what a deletion was given, and says what it needs next.
    pub fn advance_deletion(&mut self, job: DeleteJob, event: DeleteEvent) -> (next: (
        DeleteJob,
        DeleteAction,
    ))
        requires
            old(self).wf(),
            job.wf(),
        ensures
            final(self).wf(),
            next.0.wf(),
            delete_advanced(*old(self), job, event, *final(self), next.0, next.1),
    {
        let DeleteJob { targets, proven, stage } = job;
        match (stage, event) {
            (DeleteStage::Loading { binding }, DeleteEvent::Loaded(loaded)) => {
                self.deletion_loaded(targets, proven, binding, loaded)
            },
            (DeleteStage::Sending, DeleteEvent::Sent(Ok(_))) => {
                self.clear_identity_state();
                let count: u64 = targets.len() as u64;
                let noun = if count == 1 {
                    "entry"
                } else {
                    "entries"
                };
                let mut message = text::format_u64(count);
                message.append(" clipboard ");
                message.append(noun);
                message.append(" deleted");
                assert(message@ =~= deleted_message(targets@.len()));
                let operation = OperationResult::completed("delete-many", message.as_str());
                (
                    DeleteJob { targets, proven, stage: DeleteStage::Over },
                    DeleteAction::Done(Ok(operation)),
                )
            },
            (DeleteStage::Sending, DeleteEvent::Sent(Err(error))) => (
                DeleteJob { targets, proven, stage: DeleteStage::Over },
                DeleteAction::Done(Err(error)),
            ),
            _ => (
                DeleteJob { targets, proven, stage: DeleteStage::Over },
                DeleteAction::Done(Err(operation_error("Clipboard operation is out of order"))),
            ),
        }
    }
}

/// The server is asked to delete nothing before every entry was read and found
/// to be the one that the caller saw; then it is asked to delete them all.
pub proof fn deletions_are_validated_as_a_whole(
    before: RingboardBackend,
    job: DeleteJob,
    event: DeleteEvent,
    after: RingboardBackend,
    next: DeleteJob,
    action: DeleteAction,
)
    requires
        job.wf(),
        delete_advanced(before, job, event, after, next, action),
        action is Send,
    ensures
        next.proven@.len() == job.targets@.len(),
        event matches DeleteEvent::Loaded(Loaded::Entry(resolved)) && ({
            let last = job.targets@.last();
            resolved.summary.id@ == last.opaque_id@ && resolved.summary.revision
                == last.expected_revision
        }),
        action->list@ == ipc::targets_file(next.proven@),
{
}

/// The records that are left, once these files were deleted or not.
pub open spec fn pruned(
    records: Seq<ArtifactRecord>,
    outcomes: Seq<(String, Deletion)>,
) -> Seq<ArtifactRecord>
    decreases outcomes.len(),
{
    if outcomes.len() == 0 {
        records
    } else {
        let before = pruned(records, outcomes.drop_last());
        if outcomes.last().1 is Failed {
            before
        } else {
            artifacts::without(before, outcomes.last().0@)
        }
    }
}

/// How many files were deleted.
pub open spec fn deleted(outcomes: Seq<(String, Deletion)>) -> nat
    decreases outcomes.len(),
{
    if outcomes.len() == 0 {
        0
    } else {
        deleted(outcomes.drop_last()) + if outcomes.last().1 is Deleted {
            1nat
        } else {
            0
        }
    }
}

/// Takes note of which files were deleted; how many.
fn prune_all(artifacts: &mut ArtifactRegistry, outcomes: &Vec<(String, Deletion)>) -> (count: u64)
    requires
        old(artifacts).wf(),
    ensures
        final(artifacts).wf(),
        final(artifacts).same_setup(*old(artifacts)),
        final(artifacts).active() == old(artifacts).active(),
        final(artifacts).records() == pruned(old(artifacts).records(), outcomes@),
        count == deleted(outcomes@),
{
    let mut count: u64 = 0;
    let mut at: usize = 0;
    let length: usize = outcomes.len();
    assert(outcomes@.take(0) =~= Seq::empty());
    while at < length
        invariant
            length == outcomes@.len(),
            at <= length,
            count <= at,
            artifacts.wf(),
            artifacts.same_setup(*old(artifacts)),
            artifacts.active() == old(artifacts).active(),
            artifacts.records() == pruned(old(artifacts).records(), outcomes@.take(at as int)),
            count == deleted(outcomes@.take(at as int)),
        decreases length - at,
    {
        assert(outcomes@.take(at + 1).drop_last() =~= outcomes@.take(at as int));
        if artifacts.prune(outcomes[at].0.as_str(), outcomes[at].1) {
            count = count + 1;
        }
        at = at + 1;
    }
    assert(outcomes@.take(at as int) =~= outcomes@);
    count
}

/// Clearing what the daemon keeps, or wiping the history and that.
pub struct CleanupJob {
    pub wipe: bool,
    pub stage: CleanupStage,
}

/// What clearing waits for.
#[derive(Debug, Clone, Copy, PartialEq, Eq, Structural)]
pub enum CleanupStage {
    /// The server, which wipes the history.
    Sending,
    /// Thumbnails and temporary files to be removed.
    Clearing,
    /// The files that entries refer to.
    Collecting,
    /// Files to which no entry refers to be deleted.
    Pruning,
    /// The records to be saved, once so many files were deleted.
    Pruned { removed: u64 },
    /// All files of the daemon's own to be deleted.
    Erasing,
    /// The records to be saved, once those were deleted.
    Erased,
    Over,
}

/// What clearing needs next.
pub enum CleanupAction {
    Send(PolicyExchange),
    /// Remove thumbnails and temporary files.
    ClearCaches,
    /// The files that entries refer to.
    Collect,
    /// Delete these files.
    Delete(Vec<String>),
    /// Save the records of the daemon's own files, as they are now.
    SaveRegistry,
    /// Nothing: this is the outcome.
    Done(BackendResult<OperationResult>),
}

/// What clearing was given.
pub enum CleanupEvent {
    Sent(BackendResult<()>),
    Cleared(BackendResult<()>),
    Collected(BackendResult<StringHashSet>),
    Deleted(BackendResult<Vec<(String, Deletion)>>),
    Saved(BackendResult<()>),
}

/// What is told of cleared caches.
pub open spec fn cleared_message(removed: nat) -> Seq<char> {
    "Clipboard caches cleared; "@ + text::decimal(removed)
        + " unreferenced generated files removed"@
}

/// `after` differs from `before` in the files on record alone.
pub open spec fn records_pruned(
    before: RingboardBackend,
    after: RingboardBackend,
    outcomes: Seq<(String, Deletion)>,
) -> bool {
    &&& after.ids@ == before.ids@
    &&& after.revision == before.revision
    &&& after.summaries == before.summaries
    &&& after.artifacts.same_setup(before.artifacts)
    &&& after.artifacts.active() == before.artifacts.active()
    &&& after.artifacts.records() == pruned(before.artifacts.records(), outcomes)
}

/// What `event` makes of clearing at the moment `now`, in seconds.
pub open spec fn cleanup_advanced(
    before: RingboardBackend,
    job: CleanupJob,
    event: CleanupEvent,
    now: u64,
    after: RingboardBackend,
    next: CleanupJob,
    action: CleanupAction,
) -> bool {
    &&& next.wipe == job.wipe
    &&& match (job.stage, event) {
        (CleanupStage::Sending, CleanupEvent::Sent(Ok(_))) => {
            &&& mutation::unchanged(before, after)
            &&& next.stage is Clearing
            &&& action is ClearCaches
        },
        (CleanupStage::Clearing, CleanupEvent::Cleared(Ok(_))) => {
            &&& mutation::unchanged(before, after)
            &&& next.stage is Collecting
            &&& action is Collect
        },
        (CleanupStage::Collecting, CleanupEvent::Collected(Ok(referenced))) => {
            &&& mutation::unchanged(before, after)
            &&& next.stage is Pruning
            &&& action matches CleanupAction::Delete(paths) && artifacts::path_views(paths@)
                == before.artifacts.records().filter(
                |r: ArtifactRecord|
                    !artifacts::protected(
                        r,
                        referenced@,
                        before.artifacts.active(),
                        artifacts::PRUNE_GRACE_SECONDS,
                        now,
                    ),
            ).map_values(|r: ArtifactRecord| r.path@)
        },
        (CleanupStage::Pruning, CleanupEvent::Deleted(Ok(outcomes))) => {
            &&& records_pruned(before, after, outcomes@)
            &&& next.stage matches CleanupStage::Pruned { removed } && removed == deleted(outcomes@)
            &&& action is SaveRegistry
        },
        (CleanupStage::Pruned { removed }, CleanupEvent::Saved(Ok(_))) => if job.wipe {
            &&& after.ids@ == before.ids@
            &&& after.revision == before.revision
            &&& after.summaries == before.summaries
            &&& after.artifacts.root() == before.artifacts.root()
            &&& after.artifacts.records() == before.artifacts.records()
            &&& after.artifacts.echoes().len() == 0
            &&& after.artifacts.active() is None
            &&& next.stage is Erasing
            &&& action matches CleanupAction::Delete(paths) && artifacts::path_views(paths@)
                == after.artifacts.records().map_values(|r: ArtifactRecord| r.path@)
        } else {
            &&& mutation::unchanged(before, after)
            &&& next.stage is Over
            &&& action matches CleanupAction::Done(Ok(operation)) && mutation::is_completed(
                operation,
                "cleanup"@,
                cleared_message(removed as nat),
            )
        },
        (CleanupStage::Erasing, CleanupEvent::Deleted(Ok(outcomes))) => {
            &&& records_pruned(before, after, outcomes@)
            &&& next.stage is Erased
            &&& action is SaveRegistry
        },
        (CleanupStage::Erased, CleanupEvent::Saved(Ok(_))) => {
            &&& mutation::forgotten(before, after)
            &&& after.artifacts == before.artifacts
            &&& next.stage is Over
            &&& action matches CleanupAction::Done(Ok(operation)) && mutation::is_completed(
                operation,
                "wipe"@,
                "Clipboard history cleared"@,
            )
        },
        (
            CleanupStage::Pruned { .. } | CleanupStage::Erased,
            CleanupEvent::Saved(Err(error)),
        ) => {
            &&& mutation::unchanged(before, after)
            &&& next.stage is Over
            &&& action == CleanupAction::Done(Err(error))
        },
        (CleanupStage::Sending, CleanupEvent::Sent(Err(error))) => {
            &&& mutation::unchanged(before, after)
            &&& next.stage is Over
            &&& action == CleanupAction::Done(Err(error))
        },
        (CleanupStage::Clearing, CleanupEvent::Cleared(Err(error))) => {
            &&& mutation::unchanged(before, after)
            &&& next.stage is Over
            &&& action == CleanupAction::Done(Err(error))
        },
        (CleanupStage::Collecting, CleanupEvent::Collected(Err(error))) => {
            &&& mutation::unchanged(before, after)
            &&& next.stage is Over
            &&& action == CleanupAction::Done(Err(error))
        },
        (
            CleanupStage::Pruning | CleanupStage::Erasing,
            CleanupEvent::Deleted(Err(error)),
        ) => {
            &&& mutation::unchanged(before, after)
            &&& next.stage is Over
            &&& action == CleanupAction::Done(Err(error))
        },
        _ => {
            &&& mutation::unchanged(before, after)
            &&& next.stage is Over
            &&& action matches CleanupAction::Done(Err(error)) && error.is(
                BackendErrorKind::OperationFailed,
                "Clipboard operation is out of order"@,
            )
        },
    }
}

/// Begins to clear what the daemon keeps, or, with the history, all of it.
pub fn begin_cleanup(wipe: bool) -> (next: (CleanupJob, CleanupAction))
    ensures
        next.0.wipe == wipe,
        if wipe {
            &&& next.0.stage is Sending
            &&& next.1 matches CleanupAction::Send(exchange) && exchange.version()
                == ipc::POLICY_VERSION && exchange.packet() == ipc::request_packet(
                ipc::OP_WIPE,
                0,
                Seq::new(32, |i: int| 0u8),
                Seq::empty(),
            )
        } else {
            &&& next.0.stage is Clearing
            &&& next.1 is ClearCaches
        },
{
    if wipe {
        (
            CleanupJob { wipe, stage: CleanupStage::Sending },
            CleanupAction::Send(ipc::wipe()),
        )
    } else {
        (CleanupJob { wipe, stage: CleanupStage::Clearing }, CleanupAction::ClearCaches)
    }
}

impl RingboardBackend {
    /// Takes in what clearing was given, and says what it needs next.
    pub fn advance_cleanup(&mut self, job: CleanupJob, event: CleanupEvent, now: u64) -> (next: (
        CleanupJob,
        CleanupAction,
    ))
        requires
            old(self).wf(),
        ensures
            final(self).wf(),
            cleanup_advanced(*old(self), job, event, now, *final(self), next.0, next.1),
    {
        let wipe: bool = job.wipe;
        let (stage, action) = match (job.stage, event) {
            (CleanupStage::Sending, CleanupEvent::Sent(Ok(_))) => (
                CleanupStage::Clearing,
                CleanupAction::ClearCaches,
            ),
            (CleanupStage::Clearing, CleanupEvent::Cleared(Ok(_))) => (
                CleanupStage::Collecting,
                CleanupAction::Collect,
            ),
            (CleanupStage::Collecting, CleanupEvent::Collected(Ok(referenced))) => {
                let paths = self.artifacts.reconcile(&referenced, now);
                (CleanupStage::Pruning, CleanupAction::Delete(paths))
            },
            (CleanupStage::Pruning, CleanupEvent::Deleted(Ok(outcomes))) => {
                let removed: u64 = prune_all(&mut self.artifacts, &outcomes);
                (CleanupStage::Pruned { removed }, CleanupAction::SaveRegistry)
            },
            (CleanupStage::Pruned { removed }, CleanupEvent::Saved(Ok(_))) => {
                if wipe {
                    let paths = self.artifacts.clear_all(now);
                    (CleanupStage::Erasing, CleanupAction::Delete(paths))
                } else {
                    let mut message = text::join(
                        "Clipboard caches cleared; ",
                        text::format_u64(removed).as_str(),
                    );
                    message.append(" unreferenced generated files removed");
                    assert(message@ =~= cleared_message(removed as nat));
                    let operation = OperationResult::completed("cleanup", message.as_str());
                    (CleanupStage::Over, CleanupAction::Done(Ok(operation)))
                }
            },
            (CleanupStage::Erasing, CleanupEvent::Deleted(Ok(outcomes))) => {
                prune_all(&mut self.artifacts, &outcomes);
                (CleanupStage::Erased, CleanupAction::SaveRegistry)
            },
            (CleanupStage::Erased, CleanupEvent::Saved(Ok(_))) => {
                self.clear_identity_state();
                let operation = OperationResult::completed("wipe", "Clipboard history cleared");
                (CleanupStage::Over, CleanupAction::Done(Ok(operation)))
            },
            (
                CleanupStage::Pruned { .. } | CleanupStage::Erased,
                CleanupEvent::Saved(Err(error)),
            ) => (CleanupStage::Over, CleanupAction::Done(Err(error))),
            (CleanupStage::Sending, CleanupEvent::Sent(Err(error))) => (
                CleanupStage::Over,
                CleanupAction::Done(Err(error)),
            ),
            (CleanupStage::Clearing, CleanupEvent::Cleared(Err(error))) => (
                CleanupStage::Over,
                CleanupAction::Done(Err(error)),
            ),
            (CleanupStage::Collecting, CleanupEvent::Collected(Err(error))) => (
                CleanupStage::Over,
                CleanupAction::Done(Err(error)),
            ),
            (
                CleanupStage::Pruning | CleanupStage::Erasing,
                CleanupEvent::Deleted(Err(error)),
            ) => (CleanupStage::Over, CleanupAction::Done(Err(error))),
            _ => (
                CleanupStage::Over,
                CleanupAction::Done(Err(operation_error("Clipboard operation is out of order"))),
            ),
        };
        (CleanupJob { wipe, stage }, action)
    }
}

} // verus!
