//! Under which identifier and revision an entry is shown.
use crate::backend::{BackendError, BackendErrorKind, BackendResult};
use crate::classification::INSPECTION_LIMIT;
use crate::bytes;
use crate::digest;
use crate::stream;
use crate::stream::Read;
use crate::text;
use vstd::bytes::*;
use vstd::prelude::*;
use vstd::string::*;
use vstd::utf8::*;

verus! {

/// The largest integer that JSON readers keep exactly.
pub const MAX_SAFE_JSON_INTEGER: u64 = 9_007_199_254_740_991;

/// The beginning of an entry, and the digest of all of it.
pub struct Inspection {
    pub preview: Vec<u8>,
    pub digest: [u8; 32],
}

/// The digest under which the content of an entry is known.
pub open spec fn content_digest_of(content: Seq<u8>) -> Seq<u8> {
    digest::sha256_of(encode_utf8("clip-daemon:entry-content:v1:"@) + content)
}

/// The digest under which some content is known.
pub fn content_digest(content: &[u8]) -> (result: [u8; 32])
    ensures
        result@ == content_digest_of(content@),
{
    digest::sha256(bytes::tagged("clip-daemon:entry-content:v1:", content).as_slice())
}

/// Reads an entry of `expected_size` bytes to its end. What is kept is bounded;
/// the digest covers all of it.
pub fn inspect_entry(reads: &[Read], expected_size: u64) -> (inspection: BackendResult<Inspection>)
    ensures
        ({
            let (content, failed) = stream::read_input(reads@);
            match inspection {
                Ok(found) => !failed && content.len() == expected_size && found.preview@
                    == bytes::head_of(content, INSPECTION_LIMIT) && found.digest@ == content_digest_of(content),
                Err(error) => if failed {
                    error.is(BackendErrorKind::InvalidData, "Could not read clipboard entry"@)
                } else {
                    content.len() != expected_size && error.is(
                        BackendErrorKind::Stale,
                        "Clipboard entry changed while its identity was calculated"@,
                    )
                },
            }
        }),
{
    let content = match stream::read_all(reads) {
        Ok(content) => content,
        Err(_) => {
            return Err(
                BackendError::new(BackendErrorKind::InvalidData, "Could not read clipboard entry"),
            );
        },
    };
    if content.len() as u64 != expected_size {
        return Err(
            BackendError::stale("Clipboard entry changed while its identity was calculated"),
        );
    }
    Ok(
        Inspection {
            preview: bytes::first_bytes(content.as_slice(), INSPECTION_LIMIT),
            digest: content_digest(content.as_slice()),
        },
    )
}

/// What the fingerprint of an entry is the digest of.
pub open spec fn fingerprint_input(
    raw_id: u64,
    size: u64,
    mime: Seq<char>,
    content_digest: Seq<u8>,
) -> Seq<u8> {
    encode_utf8("clip-daemon:entry-fingerprint:v4:"@) + (spec_u64_to_le_bytes(raw_id)
        + spec_u64_to_le_bytes(size) + encode_utf8(mime) + content_digest)
}

/// The fingerprint of an entry: where it is stored, how large it is, what it is
/// and what it holds.
pub fn entry_fingerprint(raw_id: u64, size: u64, mime: &str, content_digest: &[u8; 32]) -> (result:
    [u8; 32])
    ensures
        result@ == digest::sha256_of(fingerprint_input(raw_id, size, mime@, content_digest@)),
{
    let mut parts: Vec<u8> = u64_to_le_bytes(raw_id);
    bytes::append(&mut parts, u64_to_le_bytes(size).as_slice());
    bytes::append(&mut parts, mime.as_bytes());
    bytes::append(&mut parts, content_digest.as_slice());
    digest::sha256(bytes::tagged("clip-daemon:entry-fingerprint:v4:", parts.as_slice()).as_slice())
}

/// The identifier for a fingerprint.
pub open spec fn opaque_id_of(fingerprint: Seq<u8>) -> Seq<char> {
    "entry-"@ + digest::hex_of(fingerprint.take(16))
}

/// The identifier for a fingerprint: half of it in hexadecimal.
pub fn opaque_id(fingerprint: &[u8; 32]) -> (id: String)
    ensures
        id@ == opaque_id_of(fingerprint@),
{
    let half = bytes::first_bytes(fingerprint.as_slice(), 16);
    text::join("entry-", digest::hex_encode(half.as_slice()).as_str())
}

/// The revision for a fingerprint.
pub open spec fn revision_of(fingerprint: Seq<u8>) -> int {
    let low = spec_u64_from_le_bytes(fingerprint.subrange(16, 24)) as int % 0x20_0000_0000_0000;
    if low == 0 {
        1
    } else {
        low
    }
}

/// The revision for a fingerprint: another part of it, at least 1 and small
/// enough for any JSON reader.
pub fn entry_revision(fingerprint: &[u8; 32]) -> (revision: u64)
    ensures
        revision == revision_of(fingerprint@),
        1 <= revision <= MAX_SAFE_JSON_INTEGER,
{
    let part = bytes::copy_range(fingerprint.as_slice(), 16, 24);
    let value: u64 = u64_from_le_bytes(part.as_slice());
    let low: u64 = value & MAX_SAFE_JSON_INTEGER;
    assert(value & 9_007_199_254_740_991 == value % 0x20_0000_0000_0000) by (bit_vector);
    if low == 0 {
        1
    } else {
        low
    }
}

/// What is known of a file without reading it.
#[derive(Clone, Copy, Debug, PartialEq, Eq, Structural)]
pub struct RingFileState {
    pub device: u64,
    pub inode: u64,
    pub size: u64,
    pub modified_seconds: i64,
    pub modified_nanoseconds: i64,
    pub changed_seconds: i64,
    pub changed_nanoseconds: i64,
}

impl RingFileState {
    /// What is known of the file, as bytes.
    pub open spec fn bytes(self) -> Seq<u8> {
        spec_u64_to_le_bytes(self.device) + spec_u64_to_le_bytes(self.inode)
            + spec_u64_to_le_bytes(self.size) + spec_u64_to_le_bytes(self.modified_seconds as u64)
            + spec_u64_to_le_bytes(self.modified_nanoseconds as u64) + spec_u64_to_le_bytes(
            self.changed_seconds as u64,
        ) + spec_u64_to_le_bytes(self.changed_nanoseconds as u64)
    }

    fn hash_into(self, out: &mut Vec<u8>)
        ensures
            final(out)@ == old(out)@ + self.bytes(),
    {
        bytes::append(out, u64_to_le_bytes(self.device).as_slice());
        bytes::append(out, u64_to_le_bytes(self.inode).as_slice());
        bytes::append(out, u64_to_le_bytes(self.size).as_slice());
        bytes::append(out, u64_to_le_bytes(self.modified_seconds as u64).as_slice());
        bytes::append(out, u64_to_le_bytes(self.modified_nanoseconds as u64).as_slice());
        bytes::append(out, u64_to_le_bytes(self.changed_seconds as u64).as_slice());
        bytes::append(out, u64_to_le_bytes(self.changed_nanoseconds as u64).as_slice());
        assert(out@ =~= old(out)@ + self.bytes());
    }
}

/// What the token of a state of the history is the digest of.
pub open spec fn token_input(
    main_head: u32,
    favorites_head: u32,
    main_len: u32,
    favorites_len: u32,
    main_file: RingFileState,
    favorites_file: RingFileState,
) -> Seq<u8> {
    encode_utf8("clip-daemon:history-token:v2:"@) + (spec_u32_to_le_bytes(main_head)
        + spec_u32_to_le_bytes(favorites_head) + spec_u32_to_le_bytes(main_len)
        + spec_u32_to_le_bytes(favorites_len) + main_file.bytes() + favorites_file.bytes())
}

/// A token for a state of the history, from what its two rings and their files
/// look like.
pub fn history_token_from_parts(
    main_head: u32,
    favorites_head: u32,
    main_len: u32,
    favorites_len: u32,
    main_file: RingFileState,
    favorites_file: RingFileState,
) -> (token: u64)
    ensures
        token == spec_u64_from_le_bytes(
            digest::sha256_of(
                token_input(
                    main_head,
                    favorites_head,
                    main_len,
                    favorites_len,
                    main_file,
                    favorites_file,
                ),
            ).take(8),
        ),
{
    let mut parts: Vec<u8> = u32_to_le_bytes(main_head);
    bytes::append(&mut parts, u32_to_le_bytes(favorites_head).as_slice());
    bytes::append(&mut parts, u32_to_le_bytes(main_len).as_slice());
    bytes::append(&mut parts, u32_to_le_bytes(favorites_len).as_slice());
    main_file.hash_into(&mut parts);
    favorites_file.hash_into(&mut parts);
    let digest = digest::sha256(
        bytes::tagged("clip-daemon:history-token:v2:", parts.as_slice()).as_slice(),
    );
    let head = bytes::first_bytes(digest.as_slice(), 8);
    u64_from_le_bytes(head.as_slice())
}

/// Two entries share a fingerprint input only where they are stored in the same
/// place, are as large and hold content with the same digest, and say they are
/// the same.
pub proof fn fingerprint_input_is_injective(
    raw_a: u64,
    size_a: u64,
    mime_a: Seq<char>,
    digest_a: Seq<u8>,
    raw_b: u64,
    size_b: u64,
    mime_b: Seq<char>,
    digest_b: Seq<u8>,
)
    requires
        digest_a.len() == 32,
        digest_b.len() == 32,
        fingerprint_input(raw_a, size_a, mime_a, digest_a) == fingerprint_input(
            raw_b,
            size_b,
            mime_b,
            digest_b,
        ),
    ensures
        raw_a == raw_b,
        size_a == size_b,
        mime_a == mime_b,
        digest_a == digest_b,
{
    lemma_auto_spec_u64_to_from_le_bytes();
    let head = encode_utf8("clip-daemon:entry-fingerprint:v4:"@);
    let a = fingerprint_input(raw_a, size_a, mime_a, digest_a);
    let b = fingerprint_input(raw_b, size_b, mime_b, digest_b);
    let n = head.len() as int;
    assert(a.subrange(n, n + 8) =~= spec_u64_to_le_bytes(raw_a));
    assert(b.subrange(n, n + 8) =~= spec_u64_to_le_bytes(raw_b));
    assert(a.subrange(n + 8, n + 16) =~= spec_u64_to_le_bytes(size_a));
    assert(b.subrange(n + 8, n + 16) =~= spec_u64_to_le_bytes(size_b));
    assert(a.subrange(n + 16, a.len() - 32) =~= encode_utf8(mime_a));
    assert(b.subrange(n + 16, b.len() - 32) =~= encode_utf8(mime_b));
    assert(a.subrange(a.len() - 32, a.len() as int) =~= digest_a);
    assert(b.subrange(b.len() - 32, b.len() as int) =~= digest_b);
    text::encoding_is_injective(mime_a, mime_b);
}

} // verus!
