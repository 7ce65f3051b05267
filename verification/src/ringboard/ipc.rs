//! The packets by which the daemon asks the patched Ringboard server for
//! changes. A server that does not know them is told apart before any request
//! is sent.
use crate::backend::{BackendError, BackendErrorKind, BackendResult};
use crate::bytes;
use crate::digest;
use crate::text;
use clipboard_history_core::is_plaintext_mime;
use vstd::bytes::*;
use vstd::prelude::*;
use vstd::string::*;
use vstd::utf8::*;

verus! {

/// Negotiates proven changes.
pub const POLICY_VERSION: u8 = 0xc1;

/// Negotiates proven changes and captures.
pub const CAPTURE_VERSION: u8 = 0xc2;

/// The most bytes of a MIME type in a packet.
pub const MAX_MIME_BYTES: usize = 96;

/// The most entries that one request deletes.
pub const MAX_TARGETS: usize = 5000;

pub const OP_REPLACE: u8 = 1;

pub const OP_REMOVE: u8 = 2;

pub const OP_FAVORITE: u8 = 3;

pub const OP_UNFAVORITE: u8 = 4;

pub const OP_WIPE: u8 = 5;

pub const OP_REMOVE_MANY: u8 = 6;

pub const OP_LIMITS: u8 = 7;

pub const OP_CAPTURE: u8 = 8;

/// A request begins with `CDP1`.
pub open spec fn request_magic() -> Seq<u8> {
    seq![0x43, 0x44, 0x50, 0x31]
}

/// A reply begins with `CDR1`.
pub open spec fn reply_magic() -> Seq<u8> {
    seq![0x43, 0x44, 0x52, 0x31]
}

/// A reply with limits begins with `CDS1`.
pub open spec fn limits_magic() -> Seq<u8> {
    seq![0x43, 0x44, 0x53, 0x31]
}

/// A request: what is asked, of which entry, in which state, and a MIME type.
pub open spec fn request_packet(op: u8, id: u64, proof: Seq<u8>, mime: Seq<u8>) -> Seq<u8> {
    request_magic() + seq![op] + spec_u64_to_le_bytes(id) + proof + seq![mime.len() as u8] + mime
}

/// What the proof of some content is the digest of.
pub open spec fn proof_input(content_digest: Seq<u8>, stored_mime: Seq<u8>) -> Seq<u8> {
    encode_utf8("clip-daemon:proof:v1:"@) + (content_digest + stored_mime)
}

/// The proof that an entry holds content with this digest under this MIME type.
pub open spec fn proof_of(content_digest: Seq<u8>, stored_mime: Seq<u8>) -> Seq<u8> {
    digest::sha256_of(proof_input(content_digest, stored_mime))
}

/// The proof that an entry holds content with this digest under this MIME type.
pub fn content_proof(content_digest: &[u8; 32], stored_mime: &str) -> (proof: [u8; 32])
    ensures
        proof@ == proof_of(content_digest@, encode_utf8(stored_mime@)),
{
    proof_of_bytes(content_digest, stored_mime.as_bytes())
}

/// The same, for a MIME type that is only known as bytes.
pub fn proof_of_bytes(content_digest: &[u8; 32], stored_mime: &[u8]) -> (proof: [u8; 32])
    ensures
        proof@ == proof_of(content_digest@, stored_mime@),
{
    let mut parts: Vec<u8> = Vec::new();
    bytes::append(&mut parts, content_digest.as_slice());
    bytes::append(&mut parts, stored_mime);
    assert(parts@ =~= content_digest@ + stored_mime@);
    digest::sha256(bytes::tagged("clip-daemon:proof:v1:", parts.as_slice()).as_slice())
}

/// Different content or another MIME type has a different proof input.
pub proof fn proof_input_is_injective(
    digest_a: Seq<u8>,
    mime_a: Seq<u8>,
    digest_b: Seq<u8>,
    mime_b: Seq<u8>,
)
    requires
        digest_a.len() == 32,
        digest_b.len() == 32,
        proof_input(digest_a, mime_a) == proof_input(digest_b, mime_b),
    ensures
        digest_a == digest_b,
        mime_a == mime_b,
{
    let n = encode_utf8("clip-daemon:proof:v1:"@).len() as int;
    let a = proof_input(digest_a, mime_a);
    let b = proof_input(digest_b, mime_b);
    assert(a.subrange(n, n + 32) =~= digest_a);
    assert(b.subrange(n, n + 32) =~= digest_b);
    assert(a.skip(n + 32) =~= mime_a);
    assert(b.skip(n + 32) =~= mime_b);
}

/// One of the names under which plain text is offered, in any ASCII case.
pub open spec fn plaintext(mime: Seq<char>) -> bool {
    ||| text::same_ignoring_case(mime, ""@)
    ||| text::same_ignoring_case(mime, "text"@)
    ||| text::same_ignoring_case(mime, "string"@)
    ||| text::same_ignoring_case(mime, "utf8_string"@)
    ||| text::same_ignoring_case(mime, "text/plain"@)
    ||| text::same_ignoring_case(mime, "text/plain;charset=utf-8"@)
    ||| text::same_ignoring_case(mime, "text/plain;charset=us-ascii"@)
    ||| text::same_ignoring_case(mime, "text/plain;charset=unicode"@)
}

/// `clipboard_history_core::is_plaintext_mime`: whether the name is, up to ASCII
/// case, one of the eight under which plain text is stored without a MIME type.
#[verifier::external_body]
pub(crate) fn is_plaintext(mime: &str) -> (result: bool)
    ensures
        result == plaintext(mime@),
{
    is_plaintext_mime(mime)
}

/// The MIME type that Ringboard stores for an entry.
pub open spec fn stored_mime_of(mime: Seq<char>) -> Seq<char> {
    if plaintext(mime) {
        Seq::empty()
    } else {
        mime
    }
}

/// The MIME type that Ringboard stores for an entry: none for plain text.
pub fn storage_mime(mime: &str) -> (stored: String)
    ensures
        stored@ == stored_mime_of(mime@),
{
    if is_plaintext(mime) {
        String::new()
    } else {
        mime.to_owned()
    }
}

/// What a failure of the exchange says.
pub open spec fn ipc_message(detail: Seq<char>) -> Seq<char> {
    "Ringboard policy IPC failed: "@ + detail
}

/// A failure of the exchange.
pub fn ipc_error(detail: &str) -> (error: BackendError)
    ensures
        error.is(BackendErrorKind::Unavailable, ipc_message(detail@)),
{
    BackendError::unavailable(text::join("Ringboard policy IPC failed: ", detail).as_str())
}

/// A request that is held back until the server has shown that it knows it.
pub struct PolicyExchange {
    version: u8,
    packet: Vec<u8>,
}

impl PolicyExchange {
    /// The byte that opens the exchange.
    pub closed spec fn version(self) -> u8 {
        self.version
    }

    /// The request that follows.
    pub closed spec fn packet(self) -> Seq<u8> {
        self.packet@
    }

    /// Prepares a request. A MIME type that does not fit is refused here.
    pub fn new(version: u8, op: u8, id: u64, proof: &[u8; 32], mime: &str) -> (exchange:
        BackendResult<Self>)
        ensures
            match exchange {
                Ok(exchange) => encode_utf8(mime@).len() <= MAX_MIME_BYTES && exchange.version()
                    == version && exchange.packet() == request_packet(
                    op,
                    id,
                    proof@,
                    encode_utf8(mime@),
                ),
                Err(error) => encode_utf8(mime@).len() > MAX_MIME_BYTES && error.is(
                    BackendErrorKind::Unavailable,
                    "Replacement MIME exceeds Ringboard's limit"@,
                ),
            },
    {
        let mime_bytes = mime.as_bytes();
        if mime_bytes.len() > MAX_MIME_BYTES {
            return Err(BackendError::unavailable("Replacement MIME exceeds Ringboard's limit"));
        }
        let mut packet: Vec<u8> = vec![0x43, 0x44, 0x50, 0x31];
        packet.push(op);
        bytes::append(&mut packet, u64_to_le_bytes(id).as_slice());
        bytes::append(&mut packet, proof.as_slice());
        packet.push(mime_bytes.len() as u8);
        bytes::append(&mut packet, mime_bytes);
        assert(packet@ =~= request_packet(op, id, proof@, encode_utf8(mime@)));
        Ok(PolicyExchange { version, packet })
    }

    /// The byte that opens the exchange.
    pub fn greeting(&self) -> (version: u8)
        ensures
            version == self.version(),
    {
        self.version
    }

    /// The request, once the server has repeated the byte. Any other answer
    /// means that it does not know the request, which is then never sent.
    pub fn negotiated(&self, answer: &[u8]) -> (packet: BackendResult<&[u8]>)
        ensures
            match packet {
                Ok(packet) => answer@ == seq![self.version()] && packet@ == self.packet(),
                Err(error) => answer@ != seq![self.version()] && error.is(
                    BackendErrorKind::Unavailable,
                    "Safe mutations require the clip-daemon Ringboard policy package; no history was changed"@,
                ),
            },
    {
        if answer.len() == 1 && answer[0] == self.version {
            assert(answer@ =~= seq![self.version]);
            Ok(self.packet.as_slice())
        } else {
            Err(
                BackendError::unavailable(
                    "Safe mutations require the clip-daemon Ringboard policy package; no history was changed",
                ),
            )
        }
    }
}

/// Nothing is proven of no entry.
fn no_proof() -> (proof: [u8; 32])
    ensures
        proof@ == Seq::new(32, |i: int| 0u8),
{
    let proof: [u8; 32] = [0;32];
    assert(proof@ =~= Seq::new(32, |i: int| 0u8));
    proof
}

/// Asks to replace an entry that is still in the proven state.
pub fn replace(id: u64, proof: &[u8; 32], mime: &str) -> (exchange: BackendResult<PolicyExchange>)
    ensures
        exchange is Ok <==> encode_utf8(mime@).len() <= MAX_MIME_BYTES,
        exchange matches Ok(sent) ==> sent.version() == POLICY_VERSION && sent.packet()
            == request_packet(OP_REPLACE, id, proof@, encode_utf8(mime@)),
        exchange matches Err(error) ==> error.is(
            BackendErrorKind::Unavailable,
            "Replacement MIME exceeds Ringboard's limit"@,
        ),
{
    PolicyExchange::new(POLICY_VERSION, OP_REPLACE, id, proof, mime)
}

/// The bytes of an empty text.
proof fn nothing_encodes_to_nothing()
    ensures
        encode_utf8(""@) == Seq::<u8>::empty(),
{
    reveal_strlit("");
    assert(encode_utf8(""@) =~= Seq::<u8>::empty());
}

fn plain(op: u8, id: u64, proof: &[u8; 32], version: u8) -> (exchange: PolicyExchange)
    ensures
        exchange.version() == version,
        exchange.packet() == request_packet(op, id, proof@, Seq::empty()),
{
    proof {
        nothing_encodes_to_nothing();
    }
    let mut packet: Vec<u8> = vec![0x43, 0x44, 0x50, 0x31];
    packet.push(op);
    bytes::append(&mut packet, u64_to_le_bytes(id).as_slice());
    bytes::append(&mut packet, proof.as_slice());
    packet.push(0);
    assert(packet@ =~= request_packet(op, id, proof@, Seq::empty()));
    PolicyExchange { version, packet }
}

/// Asks to remove an entry that is still in the proven state.
pub fn remove(id: u64, proof: &[u8; 32]) -> (exchange: PolicyExchange)
    ensures
        exchange.version() == POLICY_VERSION,
        exchange.packet() == request_packet(OP_REMOVE, id, proof@, Seq::empty()),
{
    plain(OP_REMOVE, id, proof, POLICY_VERSION)
}

/// Asks to move an entry that is still in the proven state among the favourites
/// or out of them.
pub fn favorite(id: u64, proof: &[u8; 32], value: bool) -> (exchange: PolicyExchange)
    ensures
        exchange.version() == POLICY_VERSION,
        exchange.packet() == request_packet(
            if value {
                OP_FAVORITE
            } else {
                OP_UNFAVORITE
            },
            id,
            proof@,
            Seq::empty(),
        ),
{
    plain(
        if value {
            OP_FAVORITE
        } else {
            OP_UNFAVORITE
        },
        id,
        proof,
        POLICY_VERSION,
    )
}

/// Asks to remove every entry.
pub fn wipe() -> (exchange: PolicyExchange)
    ensures
        exchange.version() == POLICY_VERSION,
        exchange.packet() == request_packet(
            OP_WIPE,
            0,
            Seq::new(32, |i: int| 0u8),
            Seq::empty(),
        ),
{
    plain(OP_WIPE, 0, &no_proof(), POLICY_VERSION)
}

/// Asks for the limits in force.
pub fn limits() -> (exchange: PolicyExchange)
    ensures
        exchange.version() == POLICY_VERSION,
        exchange.packet() == request_packet(
            OP_LIMITS,
            0,
            Seq::new(32, |i: int| 0u8),
            Seq::empty(),
        ),
{
    plain(OP_LIMITS, 0, &no_proof(), POLICY_VERSION)
}

/// Asks for the limits in force of a server that takes captures.
pub fn capture_ready() -> (exchange: PolicyExchange)
    ensures
        exchange.version() == CAPTURE_VERSION,
        exchange.packet() == request_packet(
            OP_LIMITS,
            0,
            Seq::new(32, |i: int| 0u8),
            Seq::empty(),
        ),
{
    plain(OP_LIMITS, 0, &no_proof(), CAPTURE_VERSION)
}

/// Asks to take a capture, as a promotion of `id` where that entry holds the
/// same.
pub fn capture(id: Option<u64>, proof: &[u8; 32], mime: &str) -> (exchange: BackendResult<
    PolicyExchange,
>)
    ensures
        exchange is Ok <==> encode_utf8(mime@).len() <= MAX_MIME_BYTES,
        exchange matches Ok(sent) ==> sent.version() == CAPTURE_VERSION && sent.packet()
            == request_packet(
            OP_CAPTURE,
            match id {
                Some(id) => id,
                None => u64::MAX,
            },
            proof@,
            encode_utf8(mime@),
        ),
        exchange matches Err(error) ==> error.is(
            BackendErrorKind::Unavailable,
            "Replacement MIME exceeds Ringboard's limit"@,
        ),
{
    let candidate: u64 = match id {
        Some(id) => id,
        None => u64::MAX,
    };
    PolicyExchange::new(CAPTURE_VERSION, OP_CAPTURE, candidate, proof, mime)
}

/// An entry to be deleted, in a proven state.
#[derive(Debug, Clone, Copy)]
pub struct Target {
    pub id: u64,
    pub proof: [u8; 32],
}

/// One target as it is sent.
pub open spec fn target_bytes(target: Target) -> Seq<u8> {
    spec_u64_to_le_bytes(target.id) + target.proof@
}

/// Targets as they are sent, one after the other.
pub open spec fn targets_bytes(targets: Seq<Target>) -> Seq<u8>
    decreases targets.len(),
{
    if targets.len() == 0 {
        Seq::empty()
    } else {
        targets_bytes(targets.drop_last()) + target_bytes(targets.last())
    }
}

/// The file that names what is to be deleted: how many, and which.
pub open spec fn targets_file(targets: Seq<Target>) -> Seq<u8> {
    spec_u32_to_le_bytes(targets.len() as u32) + targets_bytes(targets)
}

/// Asks to remove several entries that are all still in their proven states.
/// The entries are named in a file that goes with the request.
pub fn remove_many(targets: &[Target]) -> (request: BackendResult<(PolicyExchange, Vec<u8>)>)
    ensures
        match request {
            Ok((exchange, file)) => 1 <= targets@.len() <= MAX_TARGETS && exchange.version()
                == POLICY_VERSION && exchange.packet() == request_packet(
                OP_REMOVE_MANY,
                0,
                Seq::new(32, |i: int| 0u8),
                Seq::empty(),
            ) && file@ == targets_file(targets@),
            Err(error) => !(1 <= targets@.len() <= MAX_TARGETS) && error.is(
                BackendErrorKind::Unavailable,
                ipc_message("Invalid deletion count"@),
            ),
        },
{
    if targets.len() == 0 || targets.len() > MAX_TARGETS {
        return Err(ipc_error("Invalid deletion count"));
    }
    let mut file: Vec<u8> = u32_to_le_bytes(targets.len() as u32);
    let ghost head = file@;
    assert(targets@.take(0) =~= Seq::empty());
    assert(head + targets_bytes(targets@.take(0)) =~= head);
    for i in 0..targets.len()
        invariant
            file@ == head + targets_bytes(targets@.take(i as int)),
    {
        bytes::append(&mut file, u64_to_le_bytes(targets[i].id).as_slice());
        bytes::append(&mut file, targets[i].proof.as_slice());
        proof {
            assert(targets@.take(i + 1).drop_last() =~= targets@.take(i as int));
            assert(file@ =~= head + targets_bytes(targets@.take(i + 1)));
        }
    }
    assert(targets@.take(targets@.len() as int) =~= targets@);
    Ok((plain(OP_REMOVE_MANY, 0, &no_proof(), POLICY_VERSION), file))
}

/// The limits that a server enforces.
#[derive(Debug, Clone, Copy, PartialEq, Eq, Structural)]
pub struct EngineLimits {
    pub max_entries: u32,
    pub max_favorites: u32,
    pub max_entry_bytes: Option<u64>,
}

/// `response` begins with the four bytes of `magic`.
fn has_magic(response: &[u8], third: u8) -> (result: bool)
    ensures
        result == (response@.len() >= 4 && response@.take(4) == seq![0x43u8, 0x44, third, 0x31]),
{
    if response.len() < 4 {
        return false;
    }
    let result: bool = response[0] == 0x43 && response[1] == 0x44 && response[2] == third
        && response[3] == 0x31;
    proof {
        let expected = seq![0x43u8, 0x44, third, 0x31];
        if result {
            assert(response@.take(4) =~= expected);
        } else if response@.take(4) == expected {
            assert(response@.take(4)[0] == 0x43 && response@.take(4)[1] == 0x44
                && response@.take(4)[2] == third && response@.take(4)[3] == 0x31);
        }
    }
    result
}

/// The limits in a reply.
pub open spec fn limits_in(response: Seq<u8>) -> EngineLimits {
    let max = spec_u64_from_le_bytes(response.subrange(12, 20));
    EngineLimits {
        max_entries: spec_u32_from_le_bytes(response.subrange(4, 8)),
        max_favorites: spec_u32_from_le_bytes(response.subrange(8, 12)),
        max_entry_bytes: if max != 0 {
            Some(max)
        } else {
            None
        },
    }
}

/// Reads a reply with limits. A limit of zero means that there is none.
pub fn read_limits(response: &[u8]) -> (limits: BackendResult<EngineLimits>)
    ensures
        ({
            let known = response@.len() == 20 && response@.take(4) == limits_magic();
            match limits {
                Ok(limits) => known && limits == limits_in(response@),
                Err(error) => !known && error.is(
                    BackendErrorKind::Unavailable,
                    ipc_message("Engine does not expose effective retention limits"@),
                ),
            }
        }),
{
    if response.len() != 20 || !has_magic(response, 0x53) {
        return Err(ipc_error("Engine does not expose effective retention limits"));
    }
    let max_bytes: u64 = u64_from_le_bytes(bytes::copy_range(response, 12, 20).as_slice());
    Ok(
        EngineLimits {
            max_entries: u32_from_le_bytes(bytes::copy_range(response, 4, 8).as_slice()),
            max_favorites: u32_from_le_bytes(bytes::copy_range(response, 8, 12).as_slice()),
            max_entry_bytes: if max_bytes != 0 {
                Some(max_bytes)
            } else {
                None
            },
        },
    )
}

/// Reads the reply to a capture: the entry that holds it now, none where it was
/// safely refused. Anything else leaves open what happened.
pub fn read_capture(response: &[u8]) -> (outcome: BackendResult<Option<u64>>)
    ensures
        ({
            let known = response@.len() == 13 && response@.take(4) == reply_magic();
            match outcome {
                Ok(Some(id)) => known && response@[4] == 0 && id == spec_u64_from_le_bytes(
                    response@.subrange(5, 13),
                ),
                Ok(None) => known && response@[4] == 2,
                Err(error) => if known {
                    response@[4] != 0 && response@[4] != 2 && error.is(
                        BackendErrorKind::Unavailable,
                        ipc_message("Capture outcome is unknown"@),
                    )
                } else {
                    error.is(
                        BackendErrorKind::Unavailable,
                        ipc_message("Capture outcome is unknown; do not retry automatically"@),
                    )
                },
            }
        }),
{
    if response.len() != 13 || !has_magic(response, 0x52) {
        return Err(ipc_error("Capture outcome is unknown; do not retry automatically"));
    }
    match response[4] {
        0 => Ok(Some(u64_from_le_bytes(bytes::copy_range(response, 5, 13).as_slice()))),
        2 => Ok(None),
        _ => Err(ipc_error("Capture outcome is unknown")),
    }
}

/// Reads the reply to a change: done, refused because the entry had changed, or
/// neither.
pub fn read_reply(response: &[u8]) -> (outcome: BackendResult<()>)
    ensures
        ({
            let known = response@.len() == 5 && response@.take(4) == reply_magic();
            match outcome {
                Ok(_) => known && response@[4] == 0,
                Err(error) => if !known {
                    error.is(
                        BackendErrorKind::Unavailable,
                        ipc_message("Invalid policy response; refresh history before retrying"@),
                    )
                } else if response@[4] == 1 {
                    error.is(
                        BackendErrorKind::Stale,
                        "Clipboard content changed before the mutation"@,
                    )
                } else {
                    response@[4] != 0 && error.is(
                        BackendErrorKind::Unavailable,
                        ipc_message(
                            "Ringboard rejected the mutation; refresh history before retrying"@,
                        ),
                    )
                },
            }
        }),
{
    if response.len() != 5 || !has_magic(response, 0x52) {
        return Err(ipc_error("Invalid policy response; refresh history before retrying"));
    }
    match response[4] {
        0 => Ok(()),
        1 => Err(BackendError::stale("Clipboard content changed before the mutation")),
        _ => Err(ipc_error("Ringboard rejected the mutation; refresh history before retrying")),
    }
}

} // verus!
