//! What the server makes of what the daemon asks it for, and what the daemon makes
//! of the answers.
use crate::backend::BackendResult;
use crate::policy;
use crate::policy::{
    addition_outcome, policy_outcome, policy_proof, promotion_outcome, proof_needed, Admission,
    Allocator, CaptureStep, Incoming, PolicyStep, Promotion, Removal, Storage,
};
use crate::ringboard::capture::ingest_request;
use crate::ringboard::deletion;
use crate::ringboard::deletion::{
    begin_cleanup, CleanupAction, CleanupJob, DeleteAction, DeleteEvent, DeleteJob, DeleteStage,
};
use crate::ringboard::ipc;
use crate::ringboard::ipc::{
    read_capture, read_limits, read_reply, EngineLimits, PolicyExchange, Target,
};
use crate::ringboard::mutation;
use crate::ringboard::mutation::{
    EntryJob, JobAction, JobEvent, JobResult, JobStage, Loaded, Purpose,
};
use crate::ringboard::projection::{IdentityBinding, ResolvedEntry};
use crate::ringboard::replacement;
use crate::ringboard::replacement::{ReplaceAction, ReplaceEvent, ReplaceJob, ReplaceStage};
use crate::ringboard::RingboardBackend;
use vstd::bytes::*;
use vstd::prelude::*;
use vstd::string::*;
use vstd::utf8::*;

verus! {

/// A request without a MIME type, as the server takes it apart.
proof fn plain_requests_are_understood(op: u8, id: u64, proof: Seq<u8>)
    requires
        proof.len() == 32,
    ensures
        ({
            let packet = ipc::request_packet(op, id, proof, Seq::empty());
            &&& packet.len() == 46
            &&& policy::well_formed(packet)
            &&& packet[4] == op
            &&& spec_u64_from_le_bytes(packet.subrange(5, 13)) == id
            &&& packet.subrange(13, 45) == proof
            &&& packet[45] == 0
        }),
{
    let nothing = Seq::<char>::empty();
    assert(encode_utf8(nothing) =~= Seq::<u8>::empty());
    policy::requests_are_understood(op, id, proof, nothing);
    lemma_auto_spec_u64_to_from_le_bytes();
}

/// What the server does for a request follows from the bytes of the request: the
/// fifth names what is asked, the next eight the entry, and the next thirty-two are
/// the proof of its state, without which one entry is never changed. Whatever is
/// asked of an entry in its proven state is done.
pub proof fn the_server_does_what_the_bytes_say(
    server: Allocator,
    request: &[u8],
    has_file: bool,
    stored: Option<[u8; 32]>,
    step: PolicyStep,
)
    requires
        call_ensures(Allocator::policy_request, (&server, request, has_file, stored), step),
    ensures
        !(step is Reply) ==> request@.len() >= 46 && request@[0] == 0x43 && request@[1] == 0x44
            && request@[2] == 0x50 && request@[3] == 0x31 && request@.len() == 46 + request@[45],
        step matches PolicyStep::Replace { id, mime } ==> request@[4] == 1 && has_file && id
            == spec_u64_from_le_bytes(request@.subrange(5, 13)) && encode_utf8(mime@)
            == request@.skip(46),
        step matches PolicyStep::Remove { id } ==> request@[4] == 2 && id
            == spec_u64_from_le_bytes(request@.subrange(5, 13)),
        step matches PolicyStep::MoveToFront { id, favorite } ==> request@[4] == (if favorite {
            3u8
        } else {
            4u8
        }) && id == spec_u64_from_le_bytes(request@.subrange(5, 13)),
        step is RemoveAll ==> request@[4] == 5,
        step is RemoveMany ==> request@[4] == 6 && has_file,
        step is Replace || step is Remove || step is MoveToFront ==> stored is Some
            && stored->0@ == request@.subrange(13, 45),
        step matches PolicyStep::Reply(status) ==> status == 1 || status == 2,
        // A request that is whole and proven is not turned down.
        request@.len() == 46 && request@.take(4) == seq![0x43u8, 0x44, 0x50, 0x31] && request@[45]
            == 0 && stored is Some && stored->0@ == request@.subrange(13, 45) ==> {
            &&& request@[4] == 1 && has_file ==> step is Replace
            &&& request@[4] == 2 ==> step is Remove
            &&& request@[4] == 3 ==> step is MoveToFront
            &&& request@[4] == 4 ==> step is MoveToFront
            &&& request@[4] == 5 ==> step is RemoveAll
            &&& request@[4] == 6 && has_file ==> step is RemoveMany
        },
        // One that names a state that the entry is not in is answered as stale.
        request@.len() == 46 && request@.take(4) == seq![0x43u8, 0x44, 0x50, 0x31] && request@[45]
            == 0 && 1 <= request@[4] <= 4 && !(stored is Some && stored->0@ == request@.subrange(
            13,
            45,
        )) ==> step == PolicyStep::Reply(1),
{
    let r = request@;
    if r.len() >= 4 {
        assert(r.take(4)[0] == r[0] && r.take(4)[1] == r[1] && r.take(4)[2] == r[2] && r.take(4)[3]
            == r[3]);
    }
    if policy::well_formed(r) {
        decode_utf8_encode_utf8(r.skip(46));
    }
    if r.len() == 46 {
        let nothing = Seq::<char>::empty();
        assert(encode_utf8(nothing) =~= Seq::<u8>::empty());
        assert(r.skip(46) =~= Seq::<u8>::empty());
        encode_utf8_valid_utf8(nothing);
    }
}

/// The server computes the proof of an entry for every request that changes one.
pub proof fn changes_of_one_entry_are_proven(
    server: Allocator,
    request: &[u8],
    has_file: bool,
    stored: Option<[u8; 32]>,
    step: PolicyStep,
    needed: Option<u64>,
)
    requires
        call_ensures(Allocator::policy_request, (&server, request, has_file, stored), step),
        call_ensures(proof_needed, (request,), needed),
    ensures
        step matches PolicyStep::Replace { id, .. } ==> needed == Some(id),
        step matches PolicyStep::Remove { id } ==> needed == Some(id),
        step matches PolicyStep::MoveToFront { id, .. } ==> needed == Some(id),
        step is RemoveAll || step is RemoveMany ==> needed is None,
{
}

/// A request to delete or to pin an entry is understood by the server as just that:
/// the entry that was shown is removed, or moved among the favourites or out of
/// them, where it still is in the state that was read. Nothing else is sent.
pub proof fn deletions_and_pins_do_what_they_say(
    before: RingboardBackend,
    job: EntryJob,
    event: JobEvent,
    now: u64,
    after: RingboardBackend,
    next: EntryJob,
    action: JobAction,
    exchange: PolicyExchange,
)
    requires
        mutation::job_advanced(before, job, event, now, after, next, action),
        action == JobAction::Send(exchange),
    ensures
        exchange.version() == 0xc1,
        exchange.packet().len() == 46,
        job.stage matches JobStage::Loading { binding } && event matches JobEvent::Loaded(
            Loaded::Entry(resolved),
        ) && match job.purpose {
            Purpose::Remove => exchange.packet()[4] == 2 && forall|has_file: bool, step: PolicyStep|
                #[trigger] policy::decides(exchange.packet(), has_file, Some(resolved.proof), step)
                    ==> step == (PolicyStep::Remove { id: binding.raw_id }),
            Purpose::SetFavorite(value) => exchange.packet()[4] == (if value {
                3u8
            } else {
                4u8
            }) && forall|has_file: bool, step: PolicyStep| #[trigger]
                policy::decides(exchange.packet(), has_file, Some(resolved.proof), step) ==> step
                    == (PolicyStep::MoveToFront { id: binding.raw_id, favorite: value }),
            _ => false,
        },
{
    match (job.stage, event) {
        (JobStage::Loading { binding }, JobEvent::Loaded(loaded)) => {
            let result = choose|result: BackendResult<ResolvedEntry>| #[trigger]
                mutation::selects(before, after, job.id@, job.revision, binding, loaded, result)
                    && match result {
                    Ok(resolved) => mutation::selected_next(
                        job,
                        binding.raw_id,
                        resolved,
                        next,
                        action,
                    ),
                    Err(error) => mutation::fails_with(next, action, error),
                };
            let resolved = result->Ok_0;
            plain_requests_are_understood(2, binding.raw_id, resolved.proof@);
            plain_requests_are_understood(3, binding.raw_id, resolved.proof@);
            plain_requests_are_understood(4, binding.raw_id, resolved.proof@);
        },
        _ => {
            assert(false);
        },
    }
}

/// Where the entry is read as it was shown, the server is asked to delete or pin
/// it; where it is another one by now, or gone, nothing is asked, and the request
/// fails.
pub proof fn entries_are_changed_only_as_they_were_shown(
    before: RingboardBackend,
    job: EntryJob,
    binding: IdentityBinding,
    loaded: Loaded,
    now: u64,
    after: RingboardBackend,
    next: EntryJob,
    action: JobAction,
)
    requires
        job.stage == (JobStage::Loading { binding }),
        mutation::job_advanced(before, job, JobEvent::Loaded(loaded), now, after, next, action),
        job.purpose is Remove || job.purpose is SetFavorite,
    ensures
        loaded matches Loaded::Entry(resolved) && resolved.summary.id@ == job.id@
            && resolved.summary.revision == binding.revision && (job.revision is None
            || job.revision == Some(resolved.summary.revision)) ==> action is Send
            && next.stage is Sending,
        !(loaded is Entry) ==> action matches JobAction::Done(Err(_)),
        loaded matches Loaded::Entry(resolved) && (resolved.summary.id@ != job.id@
            || resolved.summary.revision != binding.revision || (job.revision is Some
            && job.revision != Some(resolved.summary.revision))) ==> (action matches JobAction::Done(
            Err(error),
        ) && error.kind is Stale) && !after.ids@.contains_key(job.id@),
{
}

/// Once the server has done what it was asked, the request is told as done under
/// its own name, and what was shown is looked at anew; where it has not, the
/// reason is passed on.
pub proof fn changes_are_told_as_they_went(
    before: RingboardBackend,
    job: EntryJob,
    sent: BackendResult<()>,
    now: u64,
    after: RingboardBackend,
    next: EntryJob,
    action: JobAction,
)
    requires
        job.stage is Sending,
        job.purpose is Remove || job.purpose is SetFavorite,
        mutation::job_advanced(before, job, JobEvent::Sent(sent), now, after, next, action),
    ensures
        next.stage is Over,
        match sent {
            Err(error) => action == JobAction::Done(Err(error)) && after.ids@ == before.ids@,
            Ok(_) => {
                &&& after.ids@ == Map::<Seq<char>, IdentityBinding>::empty()
                &&& after.summaries.projection is None
                &&& action matches JobAction::Done(Ok(JobResult::Operation(operation)))
                    && operation.status@ == "completed"@ && operation.warning is None
                    && operation.action@ == match job.purpose {
                    Purpose::SetFavorite(true) => "favorite"@,
                    Purpose::SetFavorite(false) => "unfavorite"@,
                    _ => "delete"@,
                }
            },
        },
{
}

/// A request to replace an entry is understood by the server as just that: the
/// entry that was shown is replaced where it stands, where it still is in the state
/// that was read, and stored under the MIME type of the edit; plain text is stored
/// without one.
pub proof fn edits_replace_the_entry_in_place(
    before: RingboardBackend,
    job: ReplaceJob,
    event: ReplaceEvent,
    now: u64,
    after: RingboardBackend,
    next: ReplaceJob,
    action: ReplaceAction,
    exchange: PolicyExchange,
)
    requires
        replacement::replace_advanced(before, job, event, now, after, next, action),
        action == ReplaceAction::Send(exchange),
    ensures
        exchange.version() == 0xc1,
        exchange.packet()[4] == 1,
        job.stage matches ReplaceStage::Loading { binding } && event matches ReplaceEvent::Loaded(
            Loaded::Entry(resolved),
        ) && next.stage == (ReplaceStage::Sending { raw_id: binding.raw_id }) && forall|
            step: PolicyStep,
        | #[trigger]
            policy::decides(exchange.packet(), true, Some(resolved.proof), step) ==> (
            step matches PolicyStep::Replace { id, mime } && id == binding.raw_id && (if ipc::plaintext(
                job.mime@,
            ) {
                mime@.len() == 0
            } else {
                mime@ == job.mime@
            })),
{
    match (job.stage, event) {
        (ReplaceStage::Loading { binding }, ReplaceEvent::Loaded(loaded)) => {
            let result = choose|result: BackendResult<ResolvedEntry>| #[trigger]
                mutation::selects(
                    before,
                    after,
                    job.id@,
                    Some(job.revision),
                    binding,
                    loaded,
                    result,
                ) && match result {
                    Err(error) => replacement::fails_with(next, action, error),
                    Ok(resolved) => replacement::asks_to_replace(
                        job,
                        binding.raw_id,
                        resolved,
                        next,
                        action,
                    ),
                };
            let resolved = result->Ok_0;
            let mime = ipc::stored_mime_of(job.mime@);
            policy::requests_are_understood(1, binding.raw_id, resolved.proof@, mime);
        },
        _ => {
            assert(false);
        },
    }
}

/// Where the entry is read as it was shown, the server is asked to replace it,
/// unless the MIME type is longer than any store keeps; where it is another one by
/// now, or gone, nothing is asked.
pub proof fn entries_are_replaced_only_as_they_were_shown(
    before: RingboardBackend,
    job: ReplaceJob,
    binding: IdentityBinding,
    loaded: Loaded,
    now: u64,
    after: RingboardBackend,
    next: ReplaceJob,
    action: ReplaceAction,
)
    requires
        job.stage == (ReplaceStage::Loading { binding }),
        replacement::replace_advanced(
            before,
            job,
            ReplaceEvent::Loaded(loaded),
            now,
            after,
            next,
            action,
        ),
    ensures
        loaded matches Loaded::Entry(resolved) && resolved.summary.id@ == job.id@
            && resolved.summary.revision == binding.revision && resolved.summary.revision
            == job.revision && (ipc::plaintext(job.mime@) || encode_utf8(job.mime@).len() <= 96)
            ==> action is Send,
        !(loaded is Entry) ==> action matches ReplaceAction::Done(Err(_)),
        loaded matches Loaded::Entry(resolved) && (resolved.summary.id@ != job.id@
            || resolved.summary.revision != binding.revision || resolved.summary.revision
            != job.revision) ==> (action matches ReplaceAction::Done(Err(error))
            && error.kind is Stale),
{
    assert(encode_utf8(Seq::<char>::empty()) =~= Seq::<u8>::empty());
}

/// Entries that are deleted together are named to the server one by one, in the
/// order in which they were asked for, each with the proof of the state that was
/// read. The server reads just those from the list.
pub proof fn lists_name_the_entries_that_were_read(
    backend: RingboardBackend,
    targets: Seq<crate::backend::EntryTarget>,
    proven: Seq<Target>,
    next: DeleteJob,
    exchange: PolicyExchange,
    list: Vec<u8>,
    server: Allocator,
    file: &[u8],
    read: Vec<Target>,
)
    requires
        deletion::proceeds(
            backend,
            targets,
            proven,
            next,
            DeleteAction::Send { exchange, list },
        ),
        file@ == list@,
        call_ensures(Allocator::policy_remove_many, (&server, true, file), Ok(read)),
    ensures
        proven.len() >= targets.len(),
        exchange.version() == 0xc1,
        exchange.packet()[4] == 6,
        forall|stored: Option<[u8; 32]>, step: PolicyStep| #[trigger]
            policy::decides(exchange.packet(), true, stored, step) ==> step is RemoveMany,
        read@.len() == proven.len(),
        forall|i: int|
            #![trigger read@[i]]
            0 <= i < read@.len() ==> read@[i].id == proven[i].id && read@[i].proof@
                == proven[i].proof@,
{
    plain_requests_are_understood(6, 0, Seq::new(32, |i: int| 0u8));
    policy::targets_are_understood(read@, proven);
}

/// A list that names entries is not turned down: the server reads it.
pub proof fn lists_are_read(
    backend: RingboardBackend,
    targets: Seq<crate::backend::EntryTarget>,
    proven: Seq<Target>,
    next: DeleteJob,
    exchange: PolicyExchange,
    list: Vec<u8>,
    server: Allocator,
    file: &[u8],
    read: Result<Vec<Target>, u8>,
)
    requires
        deletion::proceeds(
            backend,
            targets,
            proven,
            next,
            DeleteAction::Send { exchange, list },
        ),
        file@ == list@,
        call_ensures(Allocator::policy_remove_many, (&server, true, file), read),
    ensures
        read is Ok,
{
    assert(file@ == ipc::targets_file(proven));
}

/// Each entry that is deleted with others is read first, and named with the place
/// and the proof that were read; the next one is read only then, and the server is
/// asked only once all were read.
pub proof fn every_entry_of_a_deletion_is_read(
    before: RingboardBackend,
    job: DeleteJob,
    binding: IdentityBinding,
    loaded: Loaded,
    after: RingboardBackend,
    next: DeleteJob,
    action: DeleteAction,
)
    requires
        job.wf(),
        job.stage == (DeleteStage::Loading { binding }),
        deletion::delete_advanced(before, job, DeleteEvent::Loaded(loaded), after, next, action),
    ensures
        next.targets@ == job.targets@,
        action is Send ==> job.proven@.len() + 1 == job.targets@.len(),
        !(action is Done) ==> next.proven@.len() == job.proven@.len() + 1 && (
        loaded matches Loaded::Entry(resolved) && next.proven@.last().id == binding.raw_id
            && next.proven@.last().proof == resolved.proof && resolved.summary.id@
            == job.targets@[job.proven@.len() as int].opaque_id@ && resolved.summary.revision
            == job.targets@[job.proven@.len() as int].expected_revision) && forall|i: int|
            0 <= i < job.proven@.len() ==> next.proven@[i] == #[trigger] job.proven@[i],
        action matches DeleteAction::Load { raw_id } ==> job.proven@.len() + 1 < job.targets@.len()
            && after.ids@.contains_key(job.targets@[(job.proven@.len() + 1) as int].opaque_id@) && raw_id
            == after.ids@[job.targets@[(job.proven@.len() + 1) as int].opaque_id@].raw_id,
        action matches DeleteAction::Done(done) ==> done is Err,
{
}

/// What is deleted together is told as done only once the server has done it, with
/// how many there were.
pub proof fn deletions_are_told_as_they_went(
    before: RingboardBackend,
    job: DeleteJob,
    sent: BackendResult<()>,
    after: RingboardBackend,
    next: DeleteJob,
    action: DeleteAction,
)
    requires
        job.stage is Sending,
        deletion::delete_advanced(before, job, DeleteEvent::Sent(sent), after, next, action),
    ensures
        match sent {
            Err(error) => action == DeleteAction::Done(Err(error)) && after.ids@ == before.ids@,
            Ok(_) => {
                &&& after.ids@ == Map::<Seq<char>, IdentityBinding>::empty()
                &&& after.summaries.projection is None
                &&& action matches DeleteAction::Done(Ok(operation)) && operation.status@
                    == "completed"@ && operation.action@ == "delete-many"@
                    && operation.message@.take(
                    crate::text::decimal(job.targets@.len()).len() as int,
                ) == crate::text::decimal(job.targets@.len())
            },
        },
{
    let count = crate::text::decimal(job.targets@.len());
    let message = deletion::deleted_message(job.targets@.len());
    assert(message.take(count.len() as int) =~= count);
}

/// The proof of what is stored is the one that the target carries.
pub open spec fn proven_by(target: Target, stored: Option<[u8; 32]>) -> bool {
    match stored {
        Some(proof) => proof@ == target.proof@,
        None => false,
    }
}

/// The server deletes, of a list, every entry that it names, where all of them are
/// in their proven states and none is named twice; otherwise none.
pub proof fn lists_are_deleted_whole(
    targets: &[Target],
    proofs: &[Option<[u8; 32]>],
    removal: Result<Removal, u8>,
)
    requires
        call_ensures(Removal::of_targets, (targets, proofs), removal),
        proofs@.len() == targets@.len(),
    ensures
        forall|i: int|
            #![trigger targets@[i]]
            0 <= i < targets@.len() && removal is Ok ==> proven_by(targets@[i], proofs@[i]),
        removal is Ok ==> forall|i: int, j: int|
            #![trigger targets@[i], targets@[j]]
            0 <= i < j < targets@.len() ==> targets@[i].id != targets@[j].id,
        removal is Err ==> (exists|i: int|
            0 <= i < targets@.len() && !proven_by(#[trigger] targets@[i], proofs@[i])) || (exists|i: int, j: int|
            0 <= i < j < targets@.len() && (#[trigger] targets@[i]).id == (
            #[trigger] targets@[j]).id),
        removal matches Ok(removal) ==> removal.ids().len() == targets@.len() && forall|i: int|
            #![trigger targets@[i]]
            0 <= i < targets@.len() ==> removal.ids()[i] == targets@[i].id,
        removal matches Err(status) ==> status == 1,
{
    assert forall|i: int|
        #![trigger targets@[i]]
        0 <= i < targets@.len() && removal is Ok implies proven_by(targets@[i], proofs@[i]) by {
        assert(policy::is_proof(proofs@[i], targets@[i].proof@));
    }
}

/// Wiping the history asks the server to remove every entry, before anything of
/// the daemon's own is cleared; clearing the caches alone asks it for nothing.
pub proof fn wipes_remove_everything(wipe: bool, begun: (CleanupJob, CleanupAction))
    requires
        call_ensures(begin_cleanup, (wipe,), begun),
    ensures
        begun.0.wipe == wipe,
        !wipe ==> begun.1 is ClearCaches,
        wipe ==> (begun.1 matches CleanupAction::Send(exchange) && exchange.version() == 0xc1
            && exchange.packet()[4] == 5 && forall|
            has_file: bool,
            stored: Option<[u8; 32]>,
            step: PolicyStep,
        | #[trigger]
            policy::decides(exchange.packet(), has_file, stored, step) ==> step is RemoveAll),
{
    plain_requests_are_understood(5, 0, Seq::new(32, |i: int| 0u8));
}

/// What is captured is stored once, as it is: where the entry that was found equal
/// still holds the same content under the same MIME type, that entry is promoted,
/// else the content is added under its MIME type. The server takes nothing beyond
/// its limit.
pub proof fn captures_are_promoted_or_added(
    content: &[u8],
    mime: &str,
    candidate: Option<u64>,
    exchange: PolicyExchange,
    server: Allocator,
    request: &[u8],
    incoming: Incoming,
    stored: Option<[u8; 32]>,
    step: CaptureStep,
    kept: &[u8],
    proof: [u8; 32],
)
    requires
        call_ensures(ingest_request, (content, mime, candidate), Some(Ok(exchange))),
        request@ == exchange.packet(),
        incoming.content is Some,
        incoming.content->0@ == content@,
        incoming.inspected == Some((true, content@.len() as u64)),
        server.capture_limit is Some,
        call_ensures(
            Allocator::policy_capture,
            (&server, request, &incoming, stored),
            step,
        ),
        kept@ == if ipc::plaintext(mime@) {
            Seq::<u8>::empty()
        } else {
            encode_utf8(mime@)
        },
        call_ensures(policy_proof, (content, kept), proof),
        candidate != Some(u64::MAX),
    ensures
        exchange.version() == 0xc2,
        request@[4] == 8,
        content@.len() > server.capture_limit->0 ==> step is Reply,
        content@.len() <= server.capture_limit->0 ==> if candidate is Some && stored is Some
            && stored->0@ == proof@ {
            step == (CaptureStep::Promote { id: candidate->0 })
        } else {
            step matches CaptureStep::Add { mime: under } && under@ == mime@
        },
{
    assert(encode_utf8(Seq::<char>::empty()) =~= Seq::<u8>::empty());
    let id = match candidate {
        Some(id) => id,
        None => u64::MAX,
    };
    policy::requests_are_understood(8, id, proof@, mime@);
}

/// Content goes to the store unless it is larger than 64 MiB or its MIME type
/// longer than 96 bytes.
pub proof fn captures_are_handed_over(
    content: &[u8],
    mime: &str,
    candidate: Option<u64>,
    request: Option<BackendResult<PolicyExchange>>,
)
    requires
        call_ensures(ingest_request, (content, mime, candidate), request),
    ensures
        request is None <==> content@.len() > 67_108_864,
        content@.len() <= 67_108_864 ==> (request->0 is Ok <==> encode_utf8(mime@).len() <= 96),
{
}

/// Bytes are admitted exactly where they came in a regular file that is, and says
/// it is, within the limit.
pub proof fn admission_goes_by_the_limit(
    server: Allocator,
    incoming: Incoming,
    admission: Admission,
)
    requires
        call_ensures(Allocator::policy_admit, (&server, &incoming), admission),
    ensures
        admission is Admitted <==> exists|length: u64|
            incoming.inspected == Some((true, length)) && server.capture_limit is Some && length
                <= server.capture_limit->0 && incoming.content is Some
                && incoming.content->0@.len() <= server.capture_limit->0,
        server.capture_limit is None ==> admission is Failed,
{
}

/// What the storage said reaches the daemon as it was: a change that was made is
/// done, an entry that was not there is stale, and anything else is neither.
pub proof fn outcomes_reach_the_daemon(
    outcome: Storage,
    status: u8,
    response: &[u8],
    told: BackendResult<()>,
)
    requires
        call_ensures(policy_outcome, (outcome,), status),
        response@ == seq![0x43u8, 0x44, 0x52, 0x31, status],
        call_ensures(read_reply, (response,), told),
    ensures
        outcome is Done ==> told is Ok,
        outcome is Missing ==> (told matches Err(error) && error.kind is Stale),
        outcome is Failed ==> (told matches Err(error) && error.kind is Unavailable),
{
    assert(response@.take(4) =~= ipc::reply_magic());
}

/// A reply that is not one of the server's, or not whole, is never taken for
/// success.
pub proof fn only_replies_are_believed(response: &[u8], told: BackendResult<()>)
    requires
        call_ensures(read_reply, (response,), told),
    ensures
        told is Ok <==> response@ == seq![0x43u8, 0x44, 0x52, 0x31, 0u8],
{
    if response@.len() == 5 && response@.take(4) == ipc::reply_magic() && response@[4] == 0 {
        assert(response@[0] == response@.take(4)[0]);
        assert(response@[1] == response@.take(4)[1]);
        assert(response@[2] == response@.take(4)[2]);
        assert(response@[3] == response@.take(4)[3]);
        assert(response@ =~= seq![0x43u8, 0x44, 0x52, 0x31, 0u8]);
    }
    if response@ == seq![0x43u8, 0x44, 0x52, 0x31, 0u8] {
        assert(response@.take(4) =~= ipc::reply_magic());
    }
}

/// A capture that was added is known to the daemon by its place in the main ring,
/// one that was promoted by its new place; where storing failed, the daemon knows
/// that it does not know.
pub proof fn stored_captures_are_known_by_their_place(
    index: Option<u32>,
    added: [u8; 13],
    outcome: Promotion,
    mime: String,
    promoted: CaptureStep,
    response: &[u8],
    told: BackendResult<Option<u64>>,
)
    requires
        call_ensures(addition_outcome, (index,), added),
        call_ensures(promotion_outcome, (outcome, mime), promoted),
        call_ensures(read_capture, (response,), told),
    ensures
        response@ == added@ && index is Some ==> told == Ok::<
            Option<u64>,
            crate::backend::BackendError,
        >(Some((4_294_967_296 + index->0) as u64)),
        response@ == added@ && index is None ==> told is Err,
        outcome matches Promotion::Moved(id) ==> (promoted matches CaptureStep::Reply(reply) && (
        response@ == reply@ ==> told == Ok::<Option<u64>, crate::backend::BackendError>(Some(id)))),
        outcome is Missing ==> promoted == (CaptureStep::Add { mime }),
        outcome is Failed ==> (promoted matches CaptureStep::Reply(reply) && (response@ == reply@
            ==> told is Err)),
{
    if index is Some {
        policy::capture_replies_are_understood(0, (4_294_967_296 + index->0) as u64);
    }
    policy::capture_replies_are_understood(3, 0);
    if let Promotion::Moved(id) = outcome {
        policy::capture_replies_are_understood(0, id);
    }
}

/// The limits that the daemon reads are those that the server enforces; an engine
/// without a capture limit takes no captures.
pub proof fn limits_reach_the_daemon(
    server: Allocator,
    reply: [u8; 20],
    response: &[u8],
    limits: BackendResult<EngineLimits>,
)
    requires
        call_ensures(Allocator::policy_limits, (&server,), reply),
        response@ == reply@,
        call_ensures(read_limits, (response,), limits),
        server.capture_limit != Some(0u64),
    ensures
        limits matches Ok(limits) && limits.max_entries == server.main_capacity
            && limits.max_favorites == server.favorites_capacity && limits.max_entry_bytes
            == server.capture_limit,
{
    policy::limits_are_understood(server);
}

/// The proof of an entry that the daemon sends is the one that the server computes
/// from what is stored.
pub proof fn both_sides_prove_alike(
    content: &[u8],
    mime: &str,
    digest: [u8; 32],
    proof: [u8; 32],
    kept: &[u8],
    computed: [u8; 32],
)
    requires
        call_ensures(crate::ringboard::identity::content_digest, (content,), digest),
        call_ensures(ipc::content_proof, (&digest, mime), proof),
        kept@ == encode_utf8(mime@),
        call_ensures(policy_proof, (content, kept), computed),
    ensures
        proof@ == computed@,
{
}

/// Plain text is stored without a type, under whatever name it comes; anything else is
/// stored under its own.
pub proof fn plain_text_is_stored_without_a_type(mime: &str, stored: String)
    requires
        call_ensures(crate::ringboard::ipc::storage_mime, (mime,), stored),
    ensures
        mime@ == "text/plain"@ || mime@ == "text/plain;charset=utf-8"@ || mime@.len() == 0
            ==> stored@.len() == 0,
        stored@.len() > 0 ==> stored@ == mime@,
        mime@.len() > 27 ==> stored@ == mime@,
        mime@.len() > 0 && mime@[0] != 't' && mime@[0] != 'T' && mime@[0] != 's' && mime@[0] != 'S'
            && mime@[0] != 'u' && mime@[0] != 'U' ==> stored@ == mime@,
{
    reveal_strlit("");
    reveal_strlit("text");
    reveal_strlit("string");
    reveal_strlit("utf8_string");
    reveal_strlit("text/plain");
    reveal_strlit("text/plain;charset=utf-8");
    reveal_strlit("text/plain;charset=us-ascii");
    reveal_strlit("text/plain;charset=unicode");
}

/// A request is sent only to a server that answers with the version that it was greeted
/// with, and then as it is.
pub proof fn requests_are_sent_to_the_right_server(
    exchange: PolicyExchange,
    greeting: u8,
    answer: &[u8],
    sent: BackendResult<&[u8]>,
    ready: PolicyExchange,
)
    requires
        call_ensures(PolicyExchange::greeting, (&exchange,), greeting),
        call_ensures(PolicyExchange::negotiated, (&exchange, answer), sent),
        call_ensures(crate::ringboard::ipc::capture_ready, (), ready),
    ensures
        greeting == exchange.version(),
        sent is Ok <==> answer@.len() == 1 && answer@[0] == greeting,
        sent matches Ok(packet) ==> packet@ == exchange.packet(),
        sent matches Err(error) ==> error.kind is Unavailable,
        ready.version() == 0xc2,
{
    if answer@.len() == 1 && answer@[0] == greeting {
        assert(answer@ =~= seq![greeting]);
    }
}

/// Every entry of a history is deleted in its turn; the first that could not be ends it.
pub proof fn entries_are_deleted_in_turn(
    ids: Vec<u64>,
    removal: policy::Removal,
    before: policy::Removal,
    outcome: policy::Storage,
    after: policy::Removal,
)
    requires
        call_ensures(policy::Removal::of_all, (ids,), removal),
        exists|asked: &mut policy::Removal|
            *asked == before && *final(asked) == after && #[trigger] call_ensures(
                policy::Removal::record,
                (asked, outcome),
                (),
            ),
    ensures
        removal.ids() == ids@ && removal.removed() == 0 && !removal.failed(),
        after.ids() == before.ids(),
        outcome is Done ==> after.removed() == before.removed() + 1 && !after.failed(),
        !(outcome is Done) ==> after.removed() == before.removed() && after.failed(),
{
}

} // verus!
