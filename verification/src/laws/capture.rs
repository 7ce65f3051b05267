//! What becomes of what is copied.
use crate::backend::BackendResult;
use crate::capture::policy::OfferView;
use crate::capture::transfer::{Budget, ChunkRead, Received, Reservation, Transfer, TransferError};
use crate::capture::worker::{
    after_connection, Backoff, Connected, Controller, Pending, Reconnect, Step, Stopped,
};
use crate::capture::{AdmissionView, Generation};
use crate::ringboard::capture;
use crate::ringboard::capture as compare;
use crate::ringboard::capture::{candidate_window, ready, Candidate, CandidateSearch, Verdict};
use crate::ringboard::ipc;
use crate::ringboard::ipc::EngineLimits;
use vstd::prelude::*;
use vstd::string::*;
use vstd::utf8::*;

verus! {

/// What was received is dropped as blank exactly where it is white space
/// throughout: space, tab, line feed, form feed and carriage return. Anything else
/// comes out as it went in.
pub proof fn only_white_space_is_dropped(transfer: Transfer, received: Received)
    requires
        call_ensures(Transfer::finish, (transfer,), received),
    ensures
        received is Blank <==> forall|i: int|
            0 <= i < transfer.data().len() ==> {
                let byte = #[trigger] transfer.data()[i];
                byte == 32 || byte == 9 || byte == 10 || byte == 12 || byte == 13
            },
        (exists|i: int| 0 <= i < transfer.data().len() && #[trigger] transfer.data()[i] > 32)
            ==> received is Complete,
        received matches Received::Complete(data, reservation) ==> data@ == transfer.data()
            && reservation == transfer.reservation(),
        received matches Received::Blank(reservation) ==> reservation == transfer.reservation(),
{
}

/// What arrives is put behind what came before, byte for byte, up to the limit and
/// no further. A transfer that stands still for five seconds, or takes fifteen, is
/// given up; no other is for its time.
pub proof fn content_is_received_as_it_is_sent(
    before: Transfer,
    now: u64,
    read: ChunkRead,
    after: Transfer,
    result: Result<bool, TransferError>,
)
    requires
        exists|asked: &mut Transfer|
            *asked == before && *final(asked) == after && #[trigger] call_ensures(
                Transfer::receive,
                (asked, now, read),
                result,
            ),
    ensures
        result == Err::<bool, TransferError>(TransferError::TimedOut) <==> now - before.progress()
            >= 5_000 || now - before.started() >= 15_000,
        result == Ok::<bool, TransferError>(true) ==> read is End,
        result == Ok::<bool, TransferError>(false) && read is NotReady ==> after.data()
            == before.data() && after.progress() == before.progress(),
        !(result == Err::<bool, TransferError>(TransferError::TimedOut)) ==> match read {
            ChunkRead::End => result == Ok::<bool, TransferError>(true) && after.data()
                == before.data(),
            ChunkRead::Data(bytes) => if before.length() + bytes@.len() <= before.limit() {
                &&& result == Ok::<bool, TransferError>(false)
                &&& after.progress() == now
                &&& after.length() == before.length() + bytes@.len()
                &&& after.data().len() == before.data().len() + bytes@.len()
                &&& forall|i: int|
                    #![trigger after.data()[i]]
                    0 <= i < before.data().len() ==> after.data()[i] == before.data()[i]
                &&& forall|i: int|
                    #![trigger bytes@[i]]
                    0 <= i < bytes@.len() ==> after.data()[before.data().len() + i] == bytes@[i]
            } else {
                result == Err::<bool, TransferError>(TransferError::TooLarge)
            },
            ChunkRead::NotReady => result == Ok::<bool, TransferError>(false),
            ChunkRead::Failed => result == Err::<bool, TransferError>(TransferError::Failed),
        },
        after.limit() == before.limit(),
        after.started() == before.started(),
        after.reservation() == before.reservation(),
{
}

/// A transfer begins with nothing, now, and goes up to its limit. Of what it takes
/// next, no more than one byte past the limit and no more than 64 KiB is asked for.
pub proof fn transfers_begin_empty(
    limit: u64,
    reservation: Reservation,
    now: u64,
    transfer: Transfer,
    wanted: u64,
)
    requires
        call_ensures(Transfer::new, (limit, reservation, now), transfer),
        call_ensures(Transfer::wanted, (&transfer,), wanted),
    ensures
        transfer.data().len() == 0,
        transfer.length() == 0,
        transfer.limit() == limit,
        transfer.started() == now,
        transfer.progress() == now,
        transfer.reservation() == reservation,
        wanted > 0,
        wanted <= 65_536,
        wanted <= limit + 1,
        limit < 65_536 ==> wanted == limit + 1,
{
}

/// At most 128 MiB are reserved at a time; whatever fits is granted.
pub proof fn the_budget_is_kept(
    before: Budget,
    bytes: u64,
    after: Budget,
    reservation: Option<Reservation>,
)
    requires
        exists|asked: &mut Budget|
            *asked == before && *final(asked) == after && #[trigger] call_ensures(
                Budget::reserve,
                (asked, bytes),
                reservation,
            ),
    ensures
        reservation is Some <==> before.used() + bytes <= 134_217_728,
        reservation matches Some(held) ==> held.bytes() == bytes && after.used() == before.used()
            + bytes,
        reservation is None ==> after.used() == before.used(),
{
}

/// An offer that holds a MIME type that cannot be one, more than 64 of them or more
/// than 8 KiB of them is not looked at, and never again after that; of any other,
/// everything is looked at.
pub proof fn offers_are_bounded(offer: OfferView, mime: Seq<char>)
    ensures
        offer.rejected ==> offer.with(mime).rejected,
        mime.len() == 0 || mime.len() > 96 ==> offer.with(mime).rejected,
        (exists|i: int| 0 <= i < mime.len() && !(' ' <= #[trigger] mime[i] <= '~'))
            ==> offer.with(mime).rejected,
        offer.count >= 64 ==> offer.with(mime).rejected,
        offer.bytes + mime.len() > 8_192 ==> offer.with(mime).rejected,
        offer.with(mime).rejected ==> offer.with(mime).best() is None,
        !offer.rejected && 1 <= mime.len() <= 96 && (forall|i: int|
            0 <= i < mime.len() ==> ' ' <= #[trigger] mime[i] <= '~') && offer.count < 64
            && offer.bytes + mime.len() <= 8_192 ==> !offer.with(mime).rejected && offer.with(
            mime,
        ).count == offer.count + 1 && offer.with(mime).bytes == offer.bytes + mime.len(),
{
}

/// Plain text that is offered alone is captured as plain text, an image as that
/// image; where both are offered, the text is taken, and the image after it. What
/// has been taken is not offered again.
pub proof fn text_comes_before_images(image: Seq<char>)
    requires
        crate::text::begins(image, "image/"@),
        image.len() <= 96,
        forall|i: int| 0 <= i < image.len() ==> ' ' <= #[trigger] image[i] <= '~',
    ensures
        ({
            let nothing = OfferView::empty();
            let text = nothing.with("text/plain"@);
            let picture = nothing.with(image);
            let both = picture.with("text/plain"@);
            &&& nothing.best() is None
            &&& text.best() == Some("text/plain"@)
            &&& text.without_best().best() is None
            &&& picture.best() == Some(image)
            &&& both.best() == Some("text/plain"@)
            &&& both.without_best().best() == Some(image)
            &&& both.without_best().without_best().best() is None
        }),
{
    reveal_strlit("text/plain");
    reveal_strlit("image/");
    reveal_strlit("");
    reveal_strlit("text");
    reveal_strlit("string");
    reveal_strlit("utf8_string");
    reveal_strlit("text/plain;charset=utf-8");
    reveal_strlit("text/plain;charset=us-ascii");
    reveal_strlit("text/plain;charset=unicode");
    reveal_strlit("x-kde-passwordManagerHint");
    assert(image[0] == image.take(6)[0] && image[5] == image.take(6)[5]);
    assert(!ipc::plaintext(image)) by {
        assert(crate::text::ascii_lower(image[0]) == 'i');
        assert("text"@[0] == 't');
    }
    assert(ipc::plaintext("text/plain"@)) by {
        assert forall|i: int| 0 <= i < "text/plain"@.len() implies crate::text::ascii_lower(
            #[trigger] "text/plain"@[i],
        ) == crate::text::ascii_lower("text/plain"@[i]) by {}
    }
    reveal_with_fuel(crate::capture::policy::first_kept, 8);
    let nothing = OfferView::empty();
    let text = nothing.with("text/plain"@);
    let picture = nothing.with(image);
    let both = picture.with("text/plain"@);
    assert("x-kde-passwordManagerHint"@[0] == 'x');
    assert(picture.slots =~= nothing.slots.update(1, Some(image)));
    assert(both.slots =~= nothing.slots.update(1, Some(image)).update(0, Some("text/plain"@)));
    assert(both.without_best().slots =~= nothing.slots.update(1, Some(image)));
    assert(both.without_best().without_best().slots =~= nothing.slots);
    assert(text.without_best().slots =~= nothing.slots);
}

/// While captures are admitted, what was admitted last may be stored, and nothing else;
/// while they are not, nothing. Admitting starts anew unless the fate of something
/// submitted is unknown.
pub proof fn only_the_last_generation_is_stored(
    admission: AdmissionView,
    generation: Generation,
)
    ensures
        admission.accepts(generation) ==> admission.open && generation == Generation(admission.generation),
        admission.open ==> admission.accepts(Generation(admission.generation)),
        !admission.closed().open,
        !admission.closed().accepts(generation),
        admission.closed().uncertain == admission.uncertain,
        !admission.uncertain ==> admission.resumed().open && admission.resumed().accepts(
            Generation(admission.resumed().generation),
        ),
        !admission.uncertain && admission.accepts(generation) ==> !admission.resumed().accepts(generation),
        admission.uncertain && !admission.open ==> !admission.resumed().open,
        admission.failed().uncertain,
        !admission.failed().open,
        !admission.failed().in_flight,
{
}

/// Pauses between connections double from a quarter of a second, up to ten seconds.
pub proof fn reconnections_slow_down(first: Backoff, backoff: Backoff, next: Backoff)
    requires
        call_ensures(Backoff::first, (), first),
        call_ensures(Backoff::next, (backoff,), next),
    ensures
        first.milliseconds == 250,
        backoff.milliseconds <= 5_000 ==> next.milliseconds == 2 * backoff.milliseconds,
        backoff.milliseconds > 5_000 ==> next.milliseconds == 10_000,
{
}

/// A connection is tried again unless it is not known what became of something
/// that was submitted; what went wrong is reported.
pub proof fn lost_submissions_end_the_capture(
    result: Connected,
    fence: Result<(), String>,
    next: Reconnect,
)
    requires
        call_ensures(after_connection, (result, fence), next),
    ensures
        fence matches Err(error) ==> next == Reconnect::GiveUp(error),
        fence is Ok ==> !(next is GiveUp),
        fence is Ok && result is Failed ==> next == Reconnect::ReportAndRetry(result->Failed_0),
{
}

/// A pause stops the worker, if one runs; a resumption leaves one alone that runs
/// under the same limit, and replaces any other. No worker takes more than 64 MiB.
pub proof fn pauses_stop_and_resumptions_start(
    before: Controller,
    after: Controller,
    paused: bool,
    max_bytes: u64,
    step: Step,
)
    requires
        after.requested(before, paused, max_bytes, step),
        before.terminal_error is None,
        max_bytes > 0,
    ensures
        before.worker is Some && paused ==> step is StopWorker && after.worker is None,
        before.worker is None && paused ==> step == Step::Done(Ok(())) && after.attached,
        !paused && before.worker is None ==> (step matches Step::StartWorker { limit, skip_initial }
            && skip_initial == before.attached && limit == (if max_bytes <= 67_108_864 {
            max_bytes
        } else {
            67_108_864
        })),
        !paused && before.worker == Some(max_bytes) && max_bytes <= 67_108_864
            ==> step is CheckWorker && after.worker == before.worker,
        !paused && before.worker is Some && before.worker != Some(max_bytes) && max_bytes
            <= 67_108_864 ==> step is StopWorker,
{
}

/// After a stop that is known to have succeeded, what was asked for goes on: a
/// pause is done, a resumption starts a worker under the limit that was asked for.
pub proof fn what_was_asked_for_follows_a_stop(
    before: Controller,
    after: Controller,
    paused: bool,
    limit: u64,
    outcome: Stopped,
    step: Step,
)
    requires
        before.pending == (Pending::Stopping { paused, limit }),
        after.ended(before, outcome, step),
        limit > 0,
    ensures
        outcome matches Stopped::Finished(Ok(_)) ==> after.terminal_error is None && (if paused {
            step == Step::Done(Ok(()))
        } else {
            step == (Step::StartWorker { limit, skip_initial: before.attached })
        }),
        !(outcome matches Stopped::Finished(Ok(_))) ==> after.terminal_error is Some
            && step is Done && step->Done_0 is Err,
{
}

/// An equal entry is looked for among the newest: sixteen favourites, then two
/// thousand and forty-eight others, each in its order.
pub proof fn the_newest_are_looked_at(favorites: Vec<u64>, main: Vec<u64>, places: Vec<u64>)
    requires
        call_ensures(candidate_window, (&favorites, &main), places),
    ensures
        ({
            let first = if favorites@.len() <= 16 {
                favorites@.len() as int
            } else {
                16
            };
            let second = if main@.len() <= 2_048 {
                main@.len() as int
            } else {
                2_048
            };
            &&& places@.len() == first + second
            &&& forall|i: int|
                #![trigger favorites@[i]]
                0 <= i < first ==> places@[i] == favorites@[i]
            &&& forall|i: int|
                #![trigger main@[i]]
                0 <= i < second ==> places@[first + i] == main@[i]
        }),
{
}

/// An entry is taken for equal exactly where its size, its MIME type and all of its
/// content are those of what was captured, as long as the comparisons stay within
/// 128 MiB.
pub proof fn equal_means_equal(
    before: CandidateSearch,
    candidate: Candidate,
    after: CandidateSearch,
    verdict: BackendResult<Verdict>,
)
    requires
        exists|asked: &mut CandidateSearch|
            *asked == before && *final(asked) == after && #[trigger] call_ensures(
                CandidateSearch::consider,
                (asked, candidate),
                verdict,
            ),
        before.content@.len() == before.size,
        candidate.content@.len() <= candidate.size,
    ensures
        verdict matches Ok(Verdict::Found(id)) ==> id == candidate.raw_id && candidate.content@
            == before.content@ && candidate.size == before.size && candidate.mime is Ok
            && candidate.mime->Ok_0@ == before.mime@,
        candidate.mime is Ok && candidate.mime->Ok_0@ == before.mime@ && candidate.size
            == before.size && candidate.content@ == before.content@ && before.size
            <= before.budget ==> verdict == Ok::<Verdict, crate::backend::BackendError>(
            Verdict::Found(candidate.raw_id),
        ),
        after.budget <= before.budget,
        after.content == before.content && after.mime == before.mime && after.size == before.size,
{
    capture::comparison_is_complete(
        candidate.content@,
        before.content@,
        0,
        before.size,
        before.budget,
    );
    let n = before.size as int;
    assert(before.content@.subrange(0, n) =~= before.content@);
    if candidate.content@.len() == n {
        assert(candidate.content@.subrange(0, n) =~= candidate.content@);
    }
}

/// A search for an equal entry goes by the content and the MIME type under which it
/// would be stored: none for plain text.
pub proof fn searches_go_by_what_would_be_stored(
    mime: &str,
    content: Vec<u8>,
    size: u64,
    search: CandidateSearch,
)
    requires
        call_ensures(CandidateSearch::new, (mime, content, size), search),
    ensures
        search.content@ == content@,
        search.size == size,
        search.budget == 134_217_728,
        ipc::plaintext(mime@) ==> search.mime@.len() == 0,
        !ipc::plaintext(mime@) ==> search.mime@ == mime@,
{
}

/// Captures go to an engine only where it enforces just the limit that they were
/// taken under.
pub proof fn both_sides_keep_the_same_limit(
    limits: EngineLimits,
    max_bytes: u64,
    result: Result<(), String>,
)
    requires
        call_ensures(ready, (&limits, max_bytes), result),
    ensures
        result is Ok <==> limits.max_entry_bytes == Some(max_bytes),
{
}

proof fn comparing_goes_to_the_end(
    source: Seq<u8>,
    file: Seq<u8>,
    offset: u64,
    size: u64,
    budget: u64,
)
    requires
        offset <= size,
    ensures
        ({
            let (equal, left) = compare::compared(source, file, offset, size, budget);
            &&& left <= budget
            &&& equal ==> left == budget - (size - offset)
            &&& equal && offset < size ==> size <= source.len() && size <= file.len()
            &&& equal ==> forall|i: int| offset <= i < size ==> #[trigger] source[i] == file[i]
            &&& size - offset <= budget && size <= source.len() && size <= file.len() && (forall|
                i: int,
            | offset <= i < size ==> #[trigger] source[i] == file[i]) ==> equal
        }),
    decreases size - offset,
{
    if offset < size {
        let count = compare::chunk_size(offset, size, budget);
        if count > 0 {
            let end = (offset + count) as u64;
            let one = source.subrange(offset as int, end as int);
            let other = file.subrange(offset as int, end as int);
            if compare::same_chunk(source, file, offset as int, end as int) {
                comparing_goes_to_the_end(source, file, end, size, (budget - count) as u64);
                assert forall|i: int| offset <= i < end implies #[trigger] source[i] == file[i] by {
                    assert(one[i - offset] == other[i - offset]);
                }
            } else if size <= source.len() && size <= file.len() && (forall|i: int|
                offset <= i < size ==> #[trigger] source[i] == file[i]) {
                assert(one =~= other);
            }
        }
    }
}

/// What was captured is equal to an entry exactly where all its bytes are the same, as
/// far as the comparison may go; it costs as many bytes as were compared.
pub proof fn equal_contents_have_equal_bytes(
    source: &[u8],
    file: &[u8],
    size: u64,
    budget: u64,
    left: u64,
    equal: bool,
)
    requires
        size > 0,
        exists|asked: &mut u64|
            *asked == budget && *final(asked) == left && #[trigger] call_ensures(
                compare::equal_candidate,
                (source, file, size, asked),
                equal,
            ),
    ensures
        left <= budget,
        equal ==> left == budget - size && size <= source@.len() && size <= file@.len(),
        equal ==> forall|i: int| 0 <= i < size ==> #[trigger] source@[i] == file@[i],
        size <= budget && size <= source@.len() && size <= file@.len() && (forall|i: int|
            0 <= i < size ==> #[trigger] source@[i] == file@[i]) ==> equal,
{
    comparing_goes_to_the_end(source@, file@, 0, size, budget);
}

} // verus!
