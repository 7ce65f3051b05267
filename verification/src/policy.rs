//! The policy extension of the Ringboard server: what it makes of a request,
//! and what it answers.
//!
//! The server's storage does the work; each function here takes what the
//! storage said and gives what is to be done or answered next.
use crate::bytes;
use crate::ringboard::identity;
use crate::ringboard::ipc;
use crate::ringboard::ipc::Target;
use crate::text;
use clipboard_history_core::protocol::{composite_id, RingKind};
use vstd::bytes::*;
use vstd::prelude::*;
use vstd::string::*;
use vstd::utf8::*;

verus! {

/// Done.
pub const COMMITTED: u8 = 0;

/// The entry is not there, or not in the proven state.
pub const STALE: u8 = 1;

/// Refused before anything was changed, or failed.
pub const REJECTED: u8 = 2;

/// It is not known what was changed.
pub const UNCERTAIN: u8 = 3;

/// What one operation of the storage gave.
#[derive(Debug, Clone, Copy, PartialEq, Eq, Structural)]
pub enum Storage {
    Done,
    Missing,
    Failed,
}

/// A request as it was understood.
pub struct PolicyRequest {
    pub op: u8,
    pub id: u64,
    pub expected: [u8; 32],
    pub mime: String,
}

/// The packet is whole, and its MIME type is text of at most 96 bytes.
pub open spec fn well_formed(request: Seq<u8>) -> bool {
    &&& request.len() >= 46
    &&& request.take(4) == ipc::request_magic()
    &&& request[45] <= 96
    &&& request.len() == 46 + request[45]
    &&& valid_utf8(request.skip(46))
}

/// `parsed` is what `request` says.
pub open spec fn says(request: Seq<u8>, parsed: PolicyRequest) -> bool {
    &&& parsed.op == request[4]
    &&& parsed.id == spec_u64_from_le_bytes(request.subrange(5, 13))
    &&& parsed.expected@ == request.subrange(13, 45)
    &&& encode_utf8(parsed.mime@) == request.skip(46)
    &&& parsed.mime@ == decode_utf8(request.skip(46))
}

fn array_from(bytes: &[u8], from: usize) -> (result: [u8; 32])
    requires
        from + 32 <= bytes@.len(),
    ensures
        result@ == bytes@.subrange(from as int, from + 32),
{
    let length: usize = bytes.len();
    let mut result: [u8; 32] = [0;32];
    for i in 0..32usize
        invariant
            from + 32 <= bytes@.len() == length,
            result@.len() == 32,
            forall|j: int| 0 <= j < i ==> result@[j] == bytes@[from + j],
    {
        result[i] = bytes[from + i];
    }
    assert(result@ =~= bytes@.subrange(from as int, from + 32));
    result
}

/// Understands a request.
pub fn decode(request: &[u8]) -> (parsed: Option<PolicyRequest>)
    ensures
        parsed is Some <==> well_formed(request@),
        parsed matches Some(parsed) ==> says(request@, parsed),
{
    if request.len() < 46 {
        return None;
    }
    if !(request[0] == 0x43 && request[1] == 0x44 && request[2] == 0x50 && request[3] == 0x31) {
        proof {
            if request@.take(4) == ipc::request_magic() {
                assert(request@.take(4)[0] == 0x43 && request@.take(4)[1] == 0x44
                    && request@.take(4)[2] == 0x50 && request@.take(4)[3] == 0x31);
            }
        }
        return None;
    }
    assert(request@.take(4) =~= ipc::request_magic());
    let length: usize = request[45] as usize;
    if request.len() != 46 + length || length > 96 {
        return None;
    }
    let tail = bytes::copy_range(request, 46, request.len());
    assert(tail@ =~= request@.skip(46));
    match text::text_of(tail.as_slice()) {
        Some(mime) => {
            let id_bytes = bytes::copy_range(request, 5, 13);
            Some(
                PolicyRequest {
                    op: request[4],
                    id: u64_from_le_bytes(id_bytes.as_slice()),
                    expected: array_from(request, 13),
                    mime: mime.to_owned(),
                },
            )
        },
        None => None,
    }
}

/// What the server does for a request.
pub enum PolicyStep {
    Reply(u8),
    Replace { id: u64, mime: String },
    Remove { id: u64 },
    MoveToFront { id: u64, favorite: bool },
    RemoveAll,
    RemoveMany,
}

/// The request asks for a change of one proven entry.
pub open spec fn proven_change(request: Seq<u8>) -> bool {
    well_formed(request) && (request[4] == 1 || request[45] == 0) && 1 <= request[4] <= 4
}

/// The entry whose proof the server has to compute for a request, if any.
pub fn proof_needed(request: &[u8]) -> (id: Option<u64>)
    ensures
        id == (if proven_change(request@) {
            Some(spec_u64_from_le_bytes(request@.subrange(5, 13)))
        } else {
            None
        }),
{
    match decode(request) {
        Some(parsed) => {
            if (parsed.op == 1 || request[45] == 0) && 1 <= parsed.op && parsed.op <= 4 {
                Some(parsed.id)
            } else {
                None
            }
        },
        None => None,
    }
}

/// The storage found an entry, and this is its proof.
pub open spec fn is_proof(stored: Option<[u8; 32]>, proof: Seq<u8>) -> bool {
    stored matches Some(found) && found@ == proof
}

/// The proof that the storage found is the one that the request expects.
pub open spec fn proven(request: Seq<u8>, stored: Option<[u8; 32]>) -> bool {
    is_proof(stored, request.subrange(13, 45))
}

/// `step` is what the server does for `request`, given whether a file came with
/// it and what the proof of the entry is.
pub open spec fn decides(
    request: Seq<u8>,
    has_file: bool,
    stored: Option<[u8; 32]>,
    step: PolicyStep,
) -> bool {
    let id = spec_u64_from_le_bytes(request.subrange(5, 13));
    if !well_formed(request) || (request[4] != 1 && request[45] != 0) {
        step == PolicyStep::Reply(REJECTED)
    } else if 1 <= request[4] <= 4 && !proven(request, stored) {
        step == PolicyStep::Reply(STALE)
    } else if request[4] == 1 && has_file {
        step matches PolicyStep::Replace { id: target, mime } && target == id && mime@
            == decode_utf8(request.skip(46))
    } else if request[4] == 2 {
        step == PolicyStep::Remove { id }
    } else if request[4] == 3 {
        step == PolicyStep::MoveToFront { id, favorite: true }
    } else if request[4] == 4 {
        step == PolicyStep::MoveToFront { id, favorite: false }
    } else if request[4] == 5 {
        step == PolicyStep::RemoveAll
    } else if request[4] == 6 && has_file {
        step == PolicyStep::RemoveMany
    } else {
        step == PolicyStep::Reply(REJECTED)
    }
}

/// The server's storage, as far as the extension looks at it.
pub struct Allocator {
    pub main_capacity: u32,
    pub favorites_capacity: u32,
    /// The capture limit, where it can be read.
    pub capture_limit: Option<u64>,
}

/// What came with a request that brings bytes.
pub struct Incoming {
    /// Whether it is a regular file, and how long it says it is, where that
    /// could be found out.
    pub inspected: Option<(bool, u64)>,
    /// What was read of it, one byte past the limit at most, where it could be
    /// read.
    pub content: Option<Vec<u8>>,
}

/// Whether bytes may be taken.
#[derive(Debug, Clone, Copy, PartialEq, Eq, Structural)]
pub enum Admission {
    Admitted,
    Refused,
    Failed,
}

/// What the server does for a capture.
pub enum CaptureStep {
    Reply([u8; 13]),
    Promote { id: u64 },
    Add { mime: String },
}

/// The answer to a capture.
pub open spec fn capture_reply(status: u8, id: u64) -> Seq<u8> {
    ipc::reply_magic() + seq![status] + spec_u64_to_le_bytes(id)
}

fn encode_capture_reply(status: u8, id: u64) -> (reply: [u8; 13])
    ensures
        reply@ == capture_reply(status, id),
{
    let bytes = u64_to_le_bytes(id);
    let reply: [u8; 13] = [
        0x43,
        0x44,
        0x52,
        0x31,
        status,
        bytes[0],
        bytes[1],
        bytes[2],
        bytes[3],
        bytes[4],
        bytes[5],
        bytes[6],
        bytes[7],
    ];
    assert(reply@ =~= capture_reply(status, id));
    reply
}

/// `composite_id` of the main ring: the ring in the upper half, the place in the
/// lower.
#[verifier::external_body]
pub(crate) fn main_id(index: u32) -> (id: u64)
    ensures
        id == 0x1_0000_0000 + index,
{
    composite_id(RingKind::Main, index)
}

/// The proof of content that arrives under `mime`.
pub open spec fn arriving_proof(content: Seq<u8>, mime: Seq<char>) -> Seq<u8> {
    ipc::proof_of(
        identity::content_digest_of(content),
        encode_utf8(ipc::stored_mime_of(mime)),
    )
}

impl Allocator {
    /// The limits that the server answers with; an unreadable limit is 0.
    pub open spec fn limits_reply(self) -> Seq<u8> {
        ipc::limits_magic() + spec_u32_to_le_bytes(self.main_capacity) + spec_u32_to_le_bytes(
            self.favorites_capacity,
        ) + spec_u64_to_le_bytes(
            match self.capture_limit {
                Some(limit) => limit,
                None => 0,
            },
        )
    }

    /// The limits that the server answers with.
    pub fn policy_limits(&self) -> (reply: [u8; 20])
        ensures
            reply@ == self.limits_reply(),
    {
        let main = u32_to_le_bytes(self.main_capacity);
        let favorites = u32_to_le_bytes(self.favorites_capacity);
        let limit = u64_to_le_bytes(
            match self.capture_limit {
                Some(limit) => limit,
                None => 0,
            },
        );
        let reply: [u8; 20] = [
            0x43,
            0x44,
            0x53,
            0x31,
            main[0],
            main[1],
            main[2],
            main[3],
            favorites[0],
            favorites[1],
            favorites[2],
            favorites[3],
            limit[0],
            limit[1],
            limit[2],
            limit[3],
            limit[4],
            limit[5],
            limit[6],
            limit[7],
        ];
        assert(reply@ =~= self.limits_reply());
        reply
    }

    /// What the server does for a request that changes the history. A change of
    /// one entry is made only where the entry is in the proven state.
    pub fn policy_request(&self, request: &[u8], has_file: bool, stored: Option<[u8; 32]>) -> (step:
        PolicyStep)
        ensures
            decides(request@, has_file, stored, step),
    {
        let parsed = match decode(request) {
            Some(parsed) => parsed,
            None => {
                return PolicyStep::Reply(REJECTED);
            },
        };
        if parsed.op != 1 && request[45] != 0 {
            return PolicyStep::Reply(REJECTED);
        }
        if 1 <= parsed.op && parsed.op <= 4 {
            let proven: bool = match stored {
                Some(proof) => text::same_bytes(proof.as_slice(), parsed.expected.as_slice()),
                None => false,
            };
            if !proven {
                return PolicyStep::Reply(STALE);
            }
        }
        match parsed.op {
            1 => if has_file {
                PolicyStep::Replace { id: parsed.id, mime: parsed.mime }
            } else {
                PolicyStep::Reply(REJECTED)
            },
            2 => PolicyStep::Remove { id: parsed.id },
            3 => PolicyStep::MoveToFront { id: parsed.id, favorite: true },
            4 => PolicyStep::MoveToFront { id: parsed.id, favorite: false },
            5 => PolicyStep::RemoveAll,
            6 => if has_file {
                PolicyStep::RemoveMany
            } else {
                PolicyStep::Reply(REJECTED)
            },
            _ => PolicyStep::Reply(REJECTED),
        }
    }

    /// Whether bytes may be taken: only a regular file that is, and says it is,
    /// within the limit. A limit or a file that cannot be read is a failure.
    pub open spec fn admission(self, incoming: Incoming) -> Admission {
        match self.capture_limit {
            None => Admission::Failed,
            Some(limit) => match incoming.inspected {
                None => Admission::Failed,
                Some((regular, length)) => if !regular || length > limit {
                    Admission::Refused
                } else {
                    match incoming.content {
                        None => Admission::Failed,
                        Some(content) => if content@.len() > limit {
                            Admission::Refused
                        } else {
                            Admission::Admitted
                        },
                    }
                },
            },
        }
    }

    /// Whether bytes may be taken.
    pub fn policy_admit(&self, incoming: &Incoming) -> (admission: Admission)
        ensures
            admission == self.admission(*incoming),
    {
        match self.capture_limit {
            None => Admission::Failed,
            Some(limit) => match incoming.inspected {
                None => Admission::Failed,
                Some((regular, length)) => if !regular || length > limit {
                    Admission::Refused
                } else {
                    match &incoming.content {
                        None => Admission::Failed,
                        Some(content) => if content.len() as u64 > limit {
                            Admission::Refused
                        } else {
                            Admission::Admitted
                        },
                    }
                },
            },
        }
    }

    /// What the server does for a capture. `candidate` is the proof of the entry
    /// that the request names. The bytes are admitted, and their own proof
    /// computed, before anything else.
    pub fn policy_capture(
        &self,
        request: &[u8],
        incoming: &Incoming,
        candidate: Option<[u8; 32]>,
    ) -> (step: CaptureStep)
        ensures
            self.captures(request@, *incoming, candidate, step),
    {
        let parsed = match decode(request) {
            Some(parsed) => parsed,
            None => {
                return CaptureStep::Reply(encode_capture_reply(REJECTED, 0));
            },
        };
        if parsed.op != 8 {
            return CaptureStep::Reply(encode_capture_reply(REJECTED, 0));
        }
        match self.policy_admit(incoming) {
            Admission::Failed => {
                return CaptureStep::Reply(encode_capture_reply(UNCERTAIN, 0));
            },
            Admission::Refused => {
                return CaptureStep::Reply(encode_capture_reply(REJECTED, 0));
            },
            Admission::Admitted => {},
        }
        let content = match &incoming.content {
            Some(content) => content,
            None => {
                return CaptureStep::Reply(encode_capture_reply(UNCERTAIN, 0));
            },
        };
        let stored_mime = ipc::storage_mime(parsed.mime.as_str());
        let proof = ipc::content_proof(
            &identity::content_digest(content.as_slice()),
            stored_mime.as_str(),
        );
        if !text::same_bytes(proof.as_slice(), parsed.expected.as_slice()) {
            return CaptureStep::Reply(encode_capture_reply(REJECTED, 0));
        }
        if parsed.id != u64::MAX {
            let same: bool = match candidate {
                Some(found) => text::same_bytes(found.as_slice(), proof.as_slice()),
                None => false,
            };
            if same {
                return CaptureStep::Promote { id: parsed.id };
            }
        }
        CaptureStep::Add { mime: parsed.mime }
    }

    /// `step` is what the server does for a capture.
    pub open spec fn captures(
        self,
        request: Seq<u8>,
        incoming: Incoming,
        candidate: Option<[u8; 32]>,
        step: CaptureStep,
    ) -> bool {
        let id = spec_u64_from_le_bytes(request.subrange(5, 13));
        let mime = decode_utf8(request.skip(46));
        if !well_formed(request) || request[4] != 8 || self.admission(incoming) is Refused {
            step matches CaptureStep::Reply(reply) && reply@ == capture_reply(REJECTED, 0)
        } else if self.admission(incoming) is Failed {
            step matches CaptureStep::Reply(reply) && reply@ == capture_reply(UNCERTAIN, 0)
        } else {
            let arrived = arriving_proof(incoming.content->0@, mime);
            if request.subrange(13, 45) != arrived {
                step matches CaptureStep::Reply(reply) && reply@ == capture_reply(REJECTED, 0)
            } else if id != u64::MAX && is_proof(candidate, arrived) {
                step == CaptureStep::Promote { id }
            } else {
                step matches CaptureStep::Add { mime: stored } && stored@ == mime
            }
        }
    }
}

/// What the server answers after one operation of the storage.
pub fn policy_outcome(outcome: Storage) -> (status: u8)
    ensures
        status == (match outcome {
            Storage::Done => COMMITTED,
            Storage::Missing => STALE,
            Storage::Failed => REJECTED,
        }),
{
    match outcome {
        Storage::Done => COMMITTED,
        Storage::Missing => STALE,
        Storage::Failed => REJECTED,
    }
}

/// What moving an entry to the front of its ring gave.
#[derive(Debug, Clone, Copy, PartialEq, Eq, Structural)]
pub enum Promotion {
    Moved(u64),
    Missing,
    Failed,
}

/// What follows a promotion: the answer, or the capture is added after all.
pub fn promotion_outcome(outcome: Promotion, mime: String) -> (step: CaptureStep)
    ensures
        match outcome {
            Promotion::Moved(id) => step matches CaptureStep::Reply(reply) && reply@
                == capture_reply(COMMITTED, id),
            Promotion::Missing => step == (CaptureStep::Add { mime }),
            Promotion::Failed => step matches CaptureStep::Reply(reply) && reply@ == capture_reply(
                UNCERTAIN,
                0,
            ),
        },
{
    match outcome {
        Promotion::Moved(id) => CaptureStep::Reply(encode_capture_reply(COMMITTED, id)),
        Promotion::Missing => CaptureStep::Add { mime },
        Promotion::Failed => CaptureStep::Reply(encode_capture_reply(UNCERTAIN, 0)),
    }
}

/// The answer after a capture was added to the main ring at `index`, or could
/// not be.
pub fn addition_outcome(index: Option<u32>) -> (reply: [u8; 13])
    ensures
        reply@ == (match index {
            Some(index) => capture_reply(COMMITTED, (0x1_0000_0000 + index) as u64),
            None => capture_reply(UNCERTAIN, 0),
        }),
{
    match index {
        Some(index) => encode_capture_reply(COMMITTED, main_id(index)),
        None => encode_capture_reply(UNCERTAIN, 0),
    }
}

/// The proof of a stored entry, from what the storage holds of it.
pub fn policy_proof(content: &[u8], stored_mime: &[u8]) -> (proof: [u8; 32])
    ensures
        proof@ == ipc::proof_of(identity::content_digest_of(content@), stored_mime@),
{
    ipc::proof_of_bytes(&identity::content_digest(content), stored_mime)
}

/// The targets that a file names, where it names 1 to 5000 and nothing else.
pub fn decode_targets(file: &[u8]) -> (targets: Option<Vec<Target>>)
    ensures
        match targets {
            Some(targets) => 1 <= targets@.len() <= ipc::MAX_TARGETS && file@ == ipc::targets_file(
                targets@,
            ),
            None => forall|targets: Seq<Target>|
                1 <= targets.len() <= ipc::MAX_TARGETS ==> file@ != #[trigger] ipc::targets_file(
                    targets,
                ),
        },
{
    proof {
        lemma_auto_spec_u32_to_from_le_bytes();
        lemma_auto_spec_u64_to_from_le_bytes();
        assert forall|targets: Seq<Target>|
            1 <= targets.len() <= ipc::MAX_TARGETS && file@ == #[trigger] ipc::targets_file(
                targets,
            ) implies file@.len() == 4 + targets.len() * 40 && spec_u32_from_le_bytes(
            file@.take(4),
        ) == targets.len() by {
            targets_length(targets);
            assert(file@.take(4) =~= spec_u32_to_le_bytes(targets.len() as u32));
        }
    }
    if file.len() < 4 {
        return None;
    }
    let head = bytes::first_bytes(file, 4);
    let count: usize = u32_from_le_bytes(head.as_slice()) as usize;
    if count < 1 || count > ipc::MAX_TARGETS || file.len() != 4 + count * 40 {
        return None;
    }
    let mut targets: Vec<Target> = Vec::new();
    let mut at: usize = 4;
    proof {
        assert(file@.take(4) =~= head@);
        assert(file@.take(4) =~= spec_u32_to_le_bytes(count as u32) + ipc::targets_bytes(
            targets@,
        ));
    }
    for i in 0..count
        invariant
            1 <= count <= ipc::MAX_TARGETS,
            file@.len() == 4 + count * 40,
            at == 4 + i * 40,
            targets@.len() == i,
            file@.take(at as int) == spec_u32_to_le_bytes(count as u32) + ipc::targets_bytes(
                targets@,
            ),
    {
        proof {
            lemma_auto_spec_u64_to_from_le_bytes();
        }
        let id_bytes = bytes::copy_range(file, at, at + 8);
        let target = Target {
            id: u64_from_le_bytes(id_bytes.as_slice()),
            proof: array_from(file, at + 8),
        };
        let ghost before = targets@;
        targets.push(target);
        proof {
            assert(targets@.drop_last() =~= before);
            assert(ipc::target_bytes(target) =~= file@.subrange(at as int, at + 40));
            assert(file@.take(at + 40) =~= file@.take(at as int) + file@.subrange(
                at as int,
                at + 40,
            ));
            assert(file@.take(at + 40) =~= spec_u32_to_le_bytes(count as u32)
                + ipc::targets_bytes(targets@));
        }
        at = at + 40;
    }
    assert(file@.take(at as int) =~= file@);
    Some(targets)
}

/// The file names between 1 and 5000 targets, and holds nothing else.
pub open spec fn names_targets(file: Seq<u8>) -> bool {
    exists|targets: Seq<Target>|
        1 <= targets.len() <= ipc::MAX_TARGETS && file == #[trigger] ipc::targets_file(targets)
}

impl Allocator {
    /// The entries that a request to delete several names in its file, which has
    /// to be a regular one; the answer, where it does not name them.
    pub fn policy_remove_many(&self, regular: bool, file: &[u8]) -> (targets: Result<
        Vec<Target>,
        u8,
    >)
        ensures
            match targets {
                Ok(targets) => regular && 1 <= targets@.len() <= ipc::MAX_TARGETS && file@
                    == ipc::targets_file(targets@),
                Err(status) => (!regular || !names_targets(file@)) && status == REJECTED,
            },
    {
        if !regular {
            return Err(REJECTED);
        }
        match decode_targets(file) {
            Some(targets) => Ok(targets),
            None => Err(REJECTED),
        }
    }
}

proof fn targets_length(targets: Seq<Target>)
    ensures
        ipc::targets_bytes(targets).len() == targets.len() * 40,
    decreases targets.len(),
{
    lemma_auto_spec_u64_to_from_le_bytes();
    if targets.len() > 0 {
        targets_length(targets.drop_last());
    }
}

/// No two targets are the same entry, and each is in its proven state.
pub open spec fn all_proven(targets: Seq<Target>, proofs: Seq<Option<[u8; 32]>>) -> bool {
    &&& targets.len() == proofs.len()
    &&& forall|i: int|
        #![trigger targets[i]]
        0 <= i < targets.len() ==> is_proof(proofs[i], targets[i].proof@)
    &&& forall|i: int, j: int|
        0 <= i < j < targets.len() ==> #[trigger] targets[i].id != #[trigger] targets[j].id
}

/// A deletion of several entries, all of which were validated beforehand.
pub struct Removal {
    ids: Vec<u64>,
    next: usize,
    failed: bool,
}

impl Removal {
    /// The entries that are deleted.
    pub closed spec fn ids(self) -> Seq<u64> {
        self.ids@
    }

    /// How many of them have been deleted.
    pub closed spec fn removed(self) -> nat {
        self.next as nat
    }

    /// One could not be deleted.
    pub closed spec fn failed(self) -> bool {
        self.failed
    }

    #[verifier::type_invariant]
    spec fn wf(self) -> bool {
        self.next <= self.ids@.len() && (self.failed ==> self.next < self.ids@.len())
    }

    /// Begins to delete every entry of the history.
    pub fn of_all(ids: Vec<u64>) -> (removal: Self)
        ensures
            removal.ids() == ids@,
            removal.removed() == 0,
            !removal.failed(),
    {
        Removal { ids, next: 0, failed: false }
    }

    /// Begins to delete several entries, once the proofs of all of them have
    /// been compared and no entry is named twice. Otherwise nothing is deleted.
    pub fn of_targets(targets: &[Target], proofs: &[Option<[u8; 32]>]) -> (removal: Result<
        Self,
        u8,
    >)
        requires
            proofs@.len() == targets@.len(),
        ensures
            match removal {
                Ok(removal) => all_proven(targets@, proofs@) && removal.ids().len()
                    == targets@.len() && (forall|i: int|
                    0 <= i < targets@.len() ==> removal.ids()[i] == (#[trigger] targets@[i]).id)
                    && removal.removed() == 0 && !removal.failed(),
                Err(status) => !all_proven(targets@, proofs@) && status == STALE,
            },
    {
        let mut ids: Vec<u64> = Vec::new();
        for i in 0..targets.len()
            invariant
                proofs@.len() == targets@.len(),
                ids@.len() == i,
                forall|k: int| 0 <= k < i ==> ids@[k] == (#[trigger] targets@[k]).id,
                forall|k: int|
                    #![trigger targets@[k]]
                    0 <= k < i ==> is_proof(
                        proofs@[k],
                        targets@[k].proof@,
                    ),
                forall|k: int, j: int|
                    0 <= k < j < i ==> #[trigger] targets@[k].id != #[trigger] targets@[j].id,
        {
            let id: u64 = targets[i].id;
            let mut j: usize = 0;
            while j < i
                invariant
                    j <= i < targets@.len(),
                    id == targets@[i as int].id,
                    ids@.len() == i,
                    forall|k: int| 0 <= k < i ==> ids@[k] == (#[trigger] targets@[k]).id,
                    forall|k: int| 0 <= k < j ==> (#[trigger] targets@[k]).id != id,
                decreases i - j,
            {
                if ids[j] == id {
                    assert(targets@[j as int].id == targets@[i as int].id);
                    return Err(STALE);
                }
                j = j + 1;
            }
            let proven: bool = match proofs[i] {
                Some(proof) => text::same_bytes(proof.as_slice(), targets[i].proof.as_slice()),
                None => false,
            };
            if !proven {
                assert(targets@[i as int].id == id);
                return Err(STALE);
            }
            ids.push(id);
        }
        Ok(Removal { ids, next: 0, failed: false })
    }

    /// The entry to delete next, if any is left and none has failed.
    pub fn pending(&self) -> (id: Option<u64>)
        ensures
            id == (if self.failed() || self.removed() == self.ids().len() {
                None
            } else {
                Some(self.ids()[self.removed() as int])
            }),
    {
        proof {
            use_type_invariant(self);
        }
        if self.failed || self.next == self.ids.len() {
            None
        } else {
            Some(self.ids[self.next])
        }
    }

    /// Takes note of what deleting the next entry gave. After a failure no more
    /// is deleted.
    pub fn record(&mut self, outcome: Storage)
        requires
            !old(self).failed(),
            old(self).removed() < old(self).ids().len(),
        ensures
            final(self).ids() == old(self).ids(),
            final(self).failed() == !(outcome is Done),
            final(self).removed() == old(self).removed() + (if outcome is Done {
                1int
            } else {
                0int
            }),
    {
        proof {
            use_type_invariant(&*self);
        }
        match outcome {
            Storage::Done => {
                let total: usize = self.ids.len();
                assert(self.next < total);
                self.next = self.next + 1;
            },
            _ => {
                self.failed = true;
            },
        }
    }

    /// The answer, once there is one: all deleted, or one could not be.
    pub fn status(&self) -> (status: Option<u8>)
        ensures
            status == (if self.failed() {
                Some(REJECTED)
            } else if self.removed() == self.ids().len() {
                Some(COMMITTED)
            } else {
                None
            }),
    {
        proof {
            use_type_invariant(self);
        }
        if self.failed {
            Some(REJECTED)
        } else if self.next == self.ids.len() {
            Some(COMMITTED)
        } else {
            None
        }
    }
}

/// What the ring holds at the place of the entry that is replaced.
#[derive(Debug, Clone, Copy, PartialEq, Eq, Structural)]
pub enum Previous {
    Uninitialized,
    Bucketed,
    File,
}

/// What the storage says while an entry is replaced.
#[derive(Debug, Clone, Copy, PartialEq, Eq)]
pub enum ReplaceEvent {
    /// The new content may be taken, may not be, or could not be read.
    Admission(Admission),
    /// What stands at the place, and whether MIME types are kept beside files
    /// instead of on them; or that the place is stale.
    Located(Option<(Previous, bool)>),
    /// The operation that was asked for succeeded, or failed.
    Performed(bool),
}

/// What the storage is asked for while an entry is replaced.
#[derive(Debug, Clone, Copy, PartialEq, Eq, Structural)]
pub enum ReplaceAction {
    Admit,
    Locate,
    /// Writes the new content outside both rings.
    Stage,
    /// Puts the staged file at the place, in exchange for the file there if the
    /// entry was one.
    Install { exchange: bool },
    /// Makes the ring say that the place holds a file.
    Publish,
    /// Takes the installed file back to where it was staged.
    TakeBack { exchange: bool },
    /// Deletes the staged file; a failure is of no consequence.
    Discard,
    /// Deletes what the entry held before; a failure is of no consequence.
    FreePrevious,
    /// Nothing more: the entry was replaced, or it was not.
    Finished(bool),
}

/// One replacement under way.
#[derive(Debug, Clone, Copy, PartialEq, Eq, Structural)]
pub struct Replacement {
    pub action: ReplaceAction,
    pub exchange: bool,
}

impl Replacement {
    /// Begins to replace an entry.
    pub fn begin() -> (replacement: Self)
        ensures
            replacement.action == ReplaceAction::Admit,
            !replacement.exchange,
    {
        Replacement { action: ReplaceAction::Admit, exchange: false }
    }

    /// The replacement with `action` to be done next.
    pub open spec fn at(self, action: ReplaceAction) -> Self {
        Replacement { action, ..self }
    }

    /// The replacement after the storage has answered.
    pub open spec fn after(self, event: ReplaceEvent) -> Self {
        match (self.action, event) {
            (ReplaceAction::Admit, ReplaceEvent::Admission(Admission::Admitted)) => self.at(
                ReplaceAction::Locate,
            ),
            (
                ReplaceAction::Locate,
                ReplaceEvent::Located(Some((previous, beside))),
            ) => if previous is Uninitialized || beside {
                self.at(ReplaceAction::Finished(false))
            } else {
                Replacement { action: ReplaceAction::Stage, exchange: previous is File }
            },
            (ReplaceAction::Stage, ReplaceEvent::Performed(true)) => self.at(
                ReplaceAction::Install { exchange: self.exchange },
            ),
            (ReplaceAction::Install { .. }, ReplaceEvent::Performed(true)) => self.at(
                ReplaceAction::Publish,
            ),
            (ReplaceAction::Install { .. }, _) => self.at(ReplaceAction::Discard),
            (ReplaceAction::Publish, ReplaceEvent::Performed(true)) => self.at(
                ReplaceAction::FreePrevious,
            ),
            (ReplaceAction::Publish, _) => self.at(
                ReplaceAction::TakeBack { exchange: self.exchange },
            ),
            (ReplaceAction::TakeBack { .. }, ReplaceEvent::Performed(true)) => self.at(
                ReplaceAction::Discard,
            ),
            (ReplaceAction::FreePrevious, _) => self.at(ReplaceAction::Finished(true)),
            (ReplaceAction::Finished(replaced), _) => self,
            (_, _) => self.at(ReplaceAction::Finished(false)),
        }
    }

    /// Takes note of what the storage answered, and says what to do next.
    pub fn policy_replace(&mut self, event: ReplaceEvent) -> (action: ReplaceAction)
        ensures
            *final(self) == old(self).after(event),
            action == final(self).action,
    {
        let exchange: bool = self.exchange;
        match (self.action, event) {
            (ReplaceAction::Admit, ReplaceEvent::Admission(Admission::Admitted)) => {
                self.action = ReplaceAction::Locate;
            },
            (ReplaceAction::Locate, ReplaceEvent::Located(Some((previous, beside)))) => {
                if matches!(previous, Previous::Uninitialized) || beside {
                    self.action = ReplaceAction::Finished(false);
                } else {
                    self.exchange = matches!(previous, Previous::File);
                    self.action = ReplaceAction::Stage;
                }
            },
            (ReplaceAction::Stage, ReplaceEvent::Performed(true)) => {
                self.action = ReplaceAction::Install { exchange };
            },
            (ReplaceAction::Install { .. }, ReplaceEvent::Performed(true)) => {
                self.action = ReplaceAction::Publish;
            },
            (ReplaceAction::Install { .. }, _) => {
                self.action = ReplaceAction::Discard;
            },
            (ReplaceAction::Publish, ReplaceEvent::Performed(true)) => {
                self.action = ReplaceAction::FreePrevious;
            },
            (ReplaceAction::Publish, _) => {
                self.action = ReplaceAction::TakeBack { exchange };
            },
            (ReplaceAction::TakeBack { .. }, ReplaceEvent::Performed(true)) => {
                self.action = ReplaceAction::Discard;
            },
            (ReplaceAction::FreePrevious, _) => {
                self.action = ReplaceAction::Finished(true);
            },
            (ReplaceAction::Finished(_), _) => {},
            (_, _) => {
                self.action = ReplaceAction::Finished(false);
            },
        }
        self.action
    }

    /// The replacement after several answers.
    pub open spec fn run(self, events: Seq<ReplaceEvent>) -> Self
        decreases events.len(),
    {
        if events.len() == 0 {
            self
        } else {
            self.run(events.drop_last()).after(events.last())
        }
    }

    /// The actions that were asked for along the way.
    pub open spec fn asked(self, events: Seq<ReplaceEvent>, action: ReplaceAction) -> bool {
        exists|n: int| 0 <= n <= events.len() && (#[trigger] self.run(events.take(n))).action == action
    }
}

/// However the storage answers, an entry counts as replaced exactly where the
/// new content was admitted, staged, installed and published, one after the
/// other; a replacement whose publication failed is taken back.
pub proof fn replacement_is_published_or_taken_back(events: Seq<ReplaceEvent>)
    ensures
        ({
            let start = Replacement { action: ReplaceAction::Admit, exchange: false };
            let end = start.run(events);
            &&& end.action == ReplaceAction::Finished(true) ==> start.asked(
                events,
                ReplaceAction::Publish,
            ) && start.asked(events, ReplaceAction::Install { exchange: end.exchange })
                && start.asked(events, ReplaceAction::Stage)
            &&& end.action == ReplaceAction::Finished(false) && start.asked(
                events,
                ReplaceAction::Publish,
            ) ==> start.asked(events, ReplaceAction::TakeBack { exchange: end.exchange })
        }),
{
    let start = Replacement { action: ReplaceAction::Admit, exchange: false };
    history(start, events);
}

/// What must have been asked for before `replacement` stands where it stands.
spec fn preceded(start: Replacement, events: Seq<ReplaceEvent>) -> bool {
    let here = start.run(events);
    let staged = start.asked(events, ReplaceAction::Stage);
    let installed = start.asked(events, ReplaceAction::Install { exchange: here.exchange });
    let publishing = start.asked(events, ReplaceAction::Publish);
    let back = start.asked(events, ReplaceAction::TakeBack { exchange: here.exchange });
    match here.action {
        ReplaceAction::Admit => !publishing,
        ReplaceAction::Locate => !publishing,
        ReplaceAction::Stage => staged && !publishing,
        ReplaceAction::Install { exchange } => exchange == here.exchange && staged && installed
            && !publishing,
        ReplaceAction::Publish => staged && installed && publishing,
        ReplaceAction::TakeBack { exchange } => exchange == here.exchange && back,
        ReplaceAction::Discard => publishing ==> back,
        ReplaceAction::FreePrevious => staged && installed && publishing,
        ReplaceAction::Finished(true) => staged && installed && publishing,
        ReplaceAction::Finished(false) => publishing ==> back,
    }
}

proof fn asked_grows(start: Replacement, events: Seq<ReplaceEvent>, action: ReplaceAction)
    requires
        events.len() > 0,
    ensures
        start.asked(events, action) <==> (start.asked(events.drop_last(), action) || start.run(
            events,
        ).action == action),
{
    let before = events.drop_last();
    assert(events.take(events.len() as int) =~= events);
    if start.asked(before, action) {
        let n = choose|n: int|
            0 <= n <= before.len() && (#[trigger] start.run(before.take(n))).action == action;
        assert(before.take(n) =~= events.take(n));
        assert(start.run(events.take(n)).action == action);
    }
    if start.run(events).action == action {
        assert(start.run(events.take(events.len() as int)).action == action);
    }
    if start.asked(events, action) {
        let n = choose|n: int|
            0 <= n <= events.len() && (#[trigger] start.run(events.take(n))).action == action;
        if n < events.len() {
            assert(before.take(n) =~= events.take(n));
            assert(start.run(before.take(n)).action == action);
        }
    }
}

proof fn history(start: Replacement, events: Seq<ReplaceEvent>)
    requires
        start == (Replacement { action: ReplaceAction::Admit, exchange: false }),
    ensures
        preceded(start, events),
    decreases events.len(),
{
    if events.len() == 0 {
        assert forall|n: int| 0 <= n <= events.len() implies (#[trigger] start.run(
            events.take(n),
        )).action == ReplaceAction::Admit by {
            assert(events.take(n) =~= events);
        }
    } else {
        history(start, events.drop_last());
        asked_grows(start, events, ReplaceAction::Stage);
        asked_grows(start, events, ReplaceAction::Publish);
        asked_grows(start, events, ReplaceAction::Install { exchange: true });
        asked_grows(start, events, ReplaceAction::Install { exchange: false });
        asked_grows(start, events, ReplaceAction::TakeBack { exchange: true });
        asked_grows(start, events, ReplaceAction::TakeBack { exchange: false });
    }
}

/// A request that the daemon prepares is understood by the server as it was
/// meant.
pub proof fn requests_are_understood(op: u8, id: u64, proof: Seq<u8>, mime: Seq<char>)
    requires
        proof.len() == 32,
        encode_utf8(mime).len() <= ipc::MAX_MIME_BYTES,
    ensures
        ({
            let packet = ipc::request_packet(op, id, proof, encode_utf8(mime));
            &&& well_formed(packet)
            &&& packet[4] == op
            &&& spec_u64_from_le_bytes(packet.subrange(5, 13)) == id
            &&& packet.subrange(13, 45) == proof
            &&& packet[45] == encode_utf8(mime).len()
            &&& decode_utf8(packet.skip(46)) == mime
        }),
{
    lemma_auto_spec_u64_to_from_le_bytes();
    let bytes = encode_utf8(mime);
    let packet = ipc::request_packet(op, id, proof, bytes);
    encode_utf8_valid_utf8(mime);
    encode_utf8_decode_utf8(mime);
    assert(packet.take(4) =~= ipc::request_magic());
    assert(packet.subrange(5, 13) =~= spec_u64_to_le_bytes(id));
    assert(packet.subrange(13, 45) =~= proof);
    assert(packet.skip(46) =~= bytes);
}

/// The limits that the server answers with are the limits that the daemon reads.
pub proof fn limits_are_understood(server: Allocator)
    ensures
        ({
            let reply = server.limits_reply();
            &&& reply.len() == 20
            &&& reply.take(4) == ipc::limits_magic()
            &&& ipc::limits_in(reply).max_entries == server.main_capacity
            &&& ipc::limits_in(reply).max_favorites == server.favorites_capacity
            &&& ipc::limits_in(reply).max_entry_bytes == (match server.capture_limit {
                Some(limit) => if limit != 0 {
                    Some(limit)
                } else {
                    None
                },
                None => None,
            })
        }),
{
    lemma_auto_spec_u32_to_from_le_bytes();
    lemma_auto_spec_u64_to_from_le_bytes();
    let reply = server.limits_reply();
    let limit: u64 = match server.capture_limit {
        Some(limit) => limit,
        None => 0,
    };
    assert(reply.take(4) =~= ipc::limits_magic());
    assert(reply.subrange(4, 8) =~= spec_u32_to_le_bytes(server.main_capacity));
    assert(reply.subrange(8, 12) =~= spec_u32_to_le_bytes(server.favorites_capacity));
    assert(reply.subrange(12, 20) =~= spec_u64_to_le_bytes(limit));
}

/// The answer to a capture is read back with its status and entry.
pub proof fn capture_replies_are_understood(status: u8, id: u64)
    ensures
        ({
            let reply = capture_reply(status, id);
            &&& reply.len() == 13
            &&& reply.take(4) == ipc::reply_magic()
            &&& reply[4] == status
            &&& spec_u64_from_le_bytes(reply.subrange(5, 13)) == id
        }),
{
    lemma_auto_spec_u64_to_from_le_bytes();
    let reply = capture_reply(status, id);
    assert(reply.take(4) =~= ipc::reply_magic());
    assert(reply.subrange(5, 13) =~= spec_u64_to_le_bytes(id));
}

/// The targets that the daemon sends are the targets that the server reads: no
/// two lists are sent as the same file.
pub proof fn targets_are_understood(a: Seq<Target>, b: Seq<Target>)
    requires
        a.len() <= ipc::MAX_TARGETS,
        b.len() <= ipc::MAX_TARGETS,
        ipc::targets_file(a) == ipc::targets_file(b),
    ensures
        a.len() == b.len(),
        forall|i: int|
            #![trigger a[i], b[i]]
            0 <= i < a.len() ==> a[i].id == b[i].id && a[i].proof@ == b[i].proof@,
{
    lemma_auto_spec_u32_to_from_le_bytes();
    let fa = ipc::targets_file(a);
    let fb = ipc::targets_file(b);
    assert(fa.take(4) =~= spec_u32_to_le_bytes(a.len() as u32));
    assert(fb.take(4) =~= spec_u32_to_le_bytes(b.len() as u32));
    assert(fa.skip(4) =~= ipc::targets_bytes(a));
    assert(fb.skip(4) =~= ipc::targets_bytes(b));
    same_targets(a, b);
}

proof fn same_targets(a: Seq<Target>, b: Seq<Target>)
    requires
        a.len() == b.len(),
        ipc::targets_bytes(a) == ipc::targets_bytes(b),
    ensures
        forall|i: int|
            #![trigger a[i], b[i]]
            0 <= i < a.len() ==> a[i].id == b[i].id && a[i].proof@ == b[i].proof@,
    decreases a.len(),
{
    lemma_auto_spec_u64_to_from_le_bytes();
    if a.len() > 0 {
        targets_length(a.drop_last());
        targets_length(b.drop_last());
        let fa = ipc::targets_bytes(a);
        let fb = ipc::targets_bytes(b);
        let n = (a.len() - 1) * 40;
        assert(fa.take(n) =~= ipc::targets_bytes(a.drop_last()));
        assert(fb.take(n) =~= ipc::targets_bytes(b.drop_last()));
        assert(fa.subrange(n, n + 8) =~= spec_u64_to_le_bytes(a.last().id));
        assert(fb.subrange(n, n + 8) =~= spec_u64_to_le_bytes(b.last().id));
        assert(fa.subrange(n + 8, n + 40) =~= a.last().proof@);
        assert(fb.subrange(n + 8, n + 40) =~= b.last().proof@);
        same_targets(a.drop_last(), b.drop_last());
        assert forall|i: int| #![trigger a[i], b[i]] 0 <= i < a.len() implies a[i].id == b[i].id
            && a[i].proof@ == b[i].proof@ by {
            if i < a.len() - 1 {
                assert(a.drop_last()[i] == a[i] && b.drop_last()[i] == b[i]);
            }
        }
    }
}

} // verus!
