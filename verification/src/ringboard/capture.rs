//! Handing captured content to the store: only where the store enforces the
//! same limit, and as a new state of an equal entry where there is one.
use crate::backend::{BackendErrorKind, BackendResult, MAX_WAYLAND_SELECTION_BYTES};
use crate::bytes;
use crate::ringboard::identity;
use crate::ringboard::ipc;
use crate::ringboard::ipc::{EngineLimits, PolicyExchange};
use crate::ringboard::mutation;
use crate::ringboard::RingboardBackend;
use crate::text;
use vstd::prelude::*;
use vstd::string::*;
use vstd::utf8::*;

verus! {

/// How many favourites are looked at for an equal entry, newest first.
pub const FAVORITE_WINDOW: usize = 16;

/// How many other entries are looked at for an equal entry, newest first.
pub const MAIN_WINDOW: usize = 2_048;

/// How many bytes are compared in all before the search is given up.
pub const COMPARISON_BUDGET: u64 = 134_217_728;

/// How many bytes are compared at a time.
pub const COMPARISON_CHUNK: u64 = 16_384;

/// The smaller of two numbers.
pub open spec fn least(a: u64, b: u64) -> u64 {
    if a <= b {
        a
    } else {
        b
    }
}

/// How many bytes are compared next.
pub open spec fn chunk_size(offset: u64, size: u64, budget: u64) -> u64 {
    least(least((size - offset) as u64, COMPARISON_CHUNK), budget)
}

/// The next chunk is there on both sides, and is the same.
pub open spec fn same_chunk(source: Seq<u8>, file: Seq<u8>, from: int, to: int) -> bool {
    to <= source.len() && to <= file.len() && source.subrange(from, to) == file.subrange(from, to)
}

/// Whether an entry is equal to what was captured from `offset` on, and what is
/// left of the budget. `source` is what could be read of the entry.
pub open spec fn compared(
    source: Seq<u8>,
    file: Seq<u8>,
    offset: u64,
    size: u64,
    budget: u64,
) -> (bool, u64)
    decreases size - offset,
{
    if offset >= size {
        (true, budget)
    } else {
        let count = chunk_size(offset, size, budget);
        if count == 0 {
            (false, budget)
        } else if !same_chunk(source, file, offset as int, offset + count) {
            (false, (budget - count) as u64)
        } else {
            compared(source, file, (offset + count) as u64, size, (budget - count) as u64)
        }
    }
}

/// Compares an entry with what was captured. `source` is what could be read of
/// the entry. Where the budget does not suffice, they count as different.
pub fn equal_candidate(source: &[u8], file: &[u8], size: u64, budget: &mut u64) -> (equal: bool)
    ensures
        (equal, *final(budget)) == compared(source@, file@, 0, size, *old(budget)),
{
    let mut offset: u64 = 0;
    let source_length: usize = source.len();
    let file_length: usize = file.len();
    while offset < size
        invariant
            source_length == source@.len(),
            file_length == file@.len(),
            compared(source@, file@, 0, size, *old(budget)) == compared(
                source@,
                file@,
                offset,
                size,
                *budget,
            ),
        decreases size - offset,
    {
        let mut count: u64 = size - offset;
        if count > COMPARISON_CHUNK {
            count = COMPARISON_CHUNK;
        }
        if count > *budget {
            count = *budget;
        }
        if count == 0 {
            return false;
        }
        let ghost before = *budget;
        *budget = *budget - count;
        let end: u64 = offset + count;
        if end > source_length as u64 || end > file_length as u64 {
            return false;
        }
        let theirs = bytes::copy_range(source, offset as usize, end as usize);
        let ours = bytes::copy_range(file, offset as usize, end as usize);
        if !text::same_bytes(theirs.as_slice(), ours.as_slice()) {
            return false;
        }
        offset = end;
    }
    true
}

/// An entry is found equal exactly where all of it is the same and the budget
/// sufficed; the budget then pays for all of it, and is never exceeded.
pub proof fn comparison_is_complete(
    source: Seq<u8>,
    file: Seq<u8>,
    offset: u64,
    size: u64,
    budget: u64,
)
    requires
        offset <= size,
    ensures
        ({
            let (equal, left) = compared(source, file, offset, size, budget);
            &&& left <= budget
            &&& equal ==> left == budget - (size - offset)
            &&& equal <==> size - offset <= budget && (offset == size || size <= source.len()
                && size <= file.len() && source.subrange(offset as int, size as int)
                == file.subrange(offset as int, size as int))
        }),
    decreases size - offset,
{
    if offset < size {
        let count = chunk_size(offset, size, budget);
        if count > 0 {
            let next = (offset + count) as u64;
            comparison_is_complete(source, file, next, size, (budget - count) as u64);
            if size <= source.len() && size <= file.len() {
                let theirs = source.subrange(offset as int, size as int);
                let ours = file.subrange(offset as int, size as int);
                assert(theirs =~= source.subrange(offset as int, next as int) + source.subrange(
                    next as int,
                    size as int,
                ));
                assert(ours =~= file.subrange(offset as int, next as int) + file.subrange(
                    next as int,
                    size as int,
                ));
                if theirs == ours {
                    assert(source.subrange(offset as int, next as int) =~= theirs.take(
                        count as int,
                    ));
                    assert(file.subrange(offset as int, next as int) =~= ours.take(count as int));
                    assert(source.subrange(next as int, size as int) =~= theirs.skip(count as int));
                    assert(file.subrange(next as int, size as int) =~= ours.skip(count as int));
                }
            }
        }
    }
}

/// One entry that may be equal to what was captured.
pub struct Candidate {
    pub raw_id: u64,
    pub size: u64,
    pub mime: BackendResult<String>,
    /// What could be read of it.
    pub content: Vec<u8>,
}

/// The search for an entry that is equal to what was captured.
pub struct CandidateSearch {
    pub mime: String,
    pub content: Vec<u8>,
    pub size: u64,
    pub budget: u64,
}

/// What comes of looking at one entry.
pub enum Verdict {
    /// It is not the one; there may be others.
    GoOn,
    /// It is the one.
    Found(u64),
    /// There is no point in looking further.
    GiveUp,
}

impl CandidateSearch {
    /// A search for an equal of captured content.
    pub fn new(mime: &str, content: Vec<u8>, size: u64) -> (search: Self)
        ensures
            search.mime@ == ipc::stored_mime_of(mime@),
            search.content == content,
            search.size == size,
            search.budget == COMPARISON_BUDGET,
    {
        CandidateSearch {
            mime: ipc::storage_mime(mime),
            content,
            size,
            budget: COMPARISON_BUDGET,
        }
    }

    /// Looks at one entry. Its content is compared only where its size and its
    /// MIME type are those of what was captured.
    pub fn consider(&mut self, candidate: Candidate) -> (verdict: BackendResult<Verdict>)
        ensures
            final(self).mime == old(self).mime,
            final(self).content == old(self).content,
            final(self).size == old(self).size,
            if candidate.size != old(self).size {
                verdict == Ok::<Verdict, crate::backend::BackendError>(Verdict::GoOn)
                    && final(self).budget == old(self).budget
            } else {
                match candidate.mime {
                    Err(error) => verdict == Err::<Verdict, crate::backend::BackendError>(error)
                        && final(self).budget == old(self).budget,
                    Ok(mime) => if mime@ != old(self).mime@ {
                        verdict == Ok::<Verdict, crate::backend::BackendError>(Verdict::GoOn)
                            && final(self).budget == old(self).budget
                    } else {
                        let (equal, left) = compared(
                            candidate.content@,
                            old(self).content@,
                            0,
                            old(self).size,
                            old(self).budget,
                        );
                        &&& final(self).budget == left
                        &&& verdict == Ok::<Verdict, crate::backend::BackendError>(
                            if equal {
                                Verdict::Found(candidate.raw_id)
                            } else if left == 0 {
                                Verdict::GiveUp
                            } else {
                                Verdict::GoOn
                            },
                        )
                    },
                }
            },
    {
        if candidate.size != self.size {
            return Ok(Verdict::GoOn);
        }
        let mime = match candidate.mime {
            Ok(mime) => mime,
            Err(error) => {
                return Err(error);
            },
        };
        if !text::same(mime.as_str(), self.mime.as_str()) {
            return Ok(Verdict::GoOn);
        }
        let mut budget: u64 = self.budget;
        let equal = equal_candidate(
            candidate.content.as_slice(),
            self.content.as_slice(),
            self.size,
            &mut budget,
        );
        self.budget = budget;
        if equal {
            Ok(Verdict::Found(candidate.raw_id))
        } else if budget == 0 {
            Ok(Verdict::GiveUp)
        } else {
            Ok(Verdict::GoOn)
        }
    }
}

/// The first `limit` of some places.
pub open spec fn window_of(places: Seq<u64>, limit: usize) -> Seq<u64> {
    if places.len() <= limit {
        places
    } else {
        places.take(limit as int)
    }
}

/// The places that are looked at, given those of favourites and of other
/// entries, newest first.
pub fn candidate_window(favorites: &Vec<u64>, main: &Vec<u64>) -> (places: Vec<u64>)
    ensures
        places@ == window_of(favorites@, FAVORITE_WINDOW) + window_of(main@, MAIN_WINDOW),
{
    let mut places: Vec<u64> = Vec::new();
    let mut at: usize = 0;
    while at < favorites.len() && at < FAVORITE_WINDOW
        invariant
            at <= favorites@.len(),
            at <= FAVORITE_WINDOW,
            places@ == favorites@.take(at as int),
        decreases FAVORITE_WINDOW - at,
    {
        places.push(favorites[at]);
        assert(places@ =~= favorites@.take(at + 1));
        at = at + 1;
    }
    assert(places@ =~= window_of(favorites@, FAVORITE_WINDOW));
    let ghost first = places@;
    at = 0;
    while at < main.len() && at < MAIN_WINDOW
        invariant
            at <= main@.len(),
            at <= MAIN_WINDOW,
            places@ == first + main@.take(at as int),
        decreases MAIN_WINDOW - at,
    {
        places.push(main[at]);
        assert(places@ =~= first + main@.take(at + 1));
        at = at + 1;
    }
    assert(main@.take(at as int) =~= window_of(main@, MAIN_WINDOW));
    places
}

/// Whether the store may be handed captures of up to `max_bytes`: it must
/// enforce that limit itself.
pub fn ready(limits: &EngineLimits, max_bytes: u64) -> (result: Result<(), String>)
    ensures
        match result {
            Ok(_) => limits.max_entry_bytes == Some(max_bytes),
            Err(message) => limits.max_entry_bytes != Some(max_bytes) && message@
                == "Capture limit does not match the running policy engine"@,
        },
{
    let matching: bool = match limits.max_entry_bytes {
        Some(limit) => limit == max_bytes,
        None => false,
    };
    if matching {
        Ok(())
    } else {
        Err("Capture limit does not match the running policy engine".to_owned())
    }
}

/// The request that hands captured content to the store, where it is not too
/// large for any store. `candidate` is where an equal entry was found; the
/// server looks for itself whether it still is one.
pub fn ingest_request(content: &[u8], mime: &str, candidate: Option<u64>) -> (request: Option<
    BackendResult<PolicyExchange>,
>)
    ensures
        match request {
            None => content@.len() > MAX_WAYLAND_SELECTION_BYTES,
            Some(Ok(exchange)) => {
                &&& content@.len() <= MAX_WAYLAND_SELECTION_BYTES
                &&& encode_utf8(mime@).len() <= ipc::MAX_MIME_BYTES
                &&& exchange.version() == ipc::CAPTURE_VERSION
                &&& exchange.packet() == ipc::request_packet(
                    ipc::OP_CAPTURE,
                    match candidate {
                        Some(id) => id,
                        None => u64::MAX,
                    },
                    ipc::proof_of(
                        identity::content_digest_of(content@),
                        encode_utf8(ipc::stored_mime_of(mime@)),
                    ),
                    encode_utf8(mime@),
                )
            },
            Some(Err(error)) => {
                &&& content@.len() <= MAX_WAYLAND_SELECTION_BYTES
                &&& encode_utf8(mime@).len() > ipc::MAX_MIME_BYTES
                &&& error.is(
                    BackendErrorKind::Unavailable,
                    "Replacement MIME exceeds Ringboard's limit"@,
                )
            },
        },
{
    let length: usize = content.len();
    if length as u64 > MAX_WAYLAND_SELECTION_BYTES {
        return None;
    }
    let digest = identity::content_digest(content);
    let stored = ipc::storage_mime(mime);
    let proof = ipc::content_proof(&digest, stored.as_str());
    Some(ipc::capture(candidate, &proof, mime))
}

impl RingboardBackend {
    /// Takes note of what the store did with a capture: what was shown is
    /// forgotten where the history changed; a rejected capture changes nothing.
    pub fn ingested(&mut self, outcome: BackendResult<Option<u64>>) -> (result: Result<bool, String>)
        requires
            old(self).wf(),
        ensures
            final(self).wf(),
            final(self).artifacts == old(self).artifacts,
            match outcome {
                Ok(Some(_)) => mutation::forgotten(*old(self), *final(self)) && result == Ok::<
                    bool,
                    String,
                >(true),
                Ok(None) => mutation::unchanged(*old(self), *final(self)) && result == Ok::<
                    bool,
                    String,
                >(false),
                Err(error) => mutation::unchanged(*old(self), *final(self)) && result == Err::<
                    bool,
                    String,
                >(error.message),
            },
    {
        match outcome {
            Ok(Some(_)) => {
                self.clear_identity_state();
                Ok(true)
            },
            Ok(None) => Ok(false),
            Err(error) => Err(error.message),
        }
    }
}

} // verus!
