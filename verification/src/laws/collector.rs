//! What the collector takes from the clipboard, and when.
use crate::capture::transfer::{ChunkRead, Transfer};
use crate::capture::wayland;
use crate::capture::wayland::{GlobalAction, Manager, Pending, Progress, Receiving, Request, State};
use crate::capture::worker;
use crate::capture::worker::{Controller, Session};
use crate::capture::{Admission, AdmissionView, Generation, Sink};
use vstd::prelude::*;
use vstd::string::*;

verus! {

/// Closing takes effect at once and ends the generation; opening begins another one,
/// unless it is not known whether something was stored.
pub proof fn closing_ends_a_generation(
    before: Admission,
    closed: Admission,
    open: Admission,
    resumed: Result<(), String>,
)
    requires
        exists|asked: &mut Admission|
            *asked == before && *final(asked) == closed && #[trigger] call_ensures(
                Admission::close,
                (asked,),
                (),
            ),
        exists|asked: &mut Admission|
            *asked == before && *final(asked) == open && #[trigger] call_ensures(
                Admission::resume,
                (asked,),
                resumed,
            ),
    ensures
        !closed@.open,
        before@.generation < u64::MAX ==> closed@.generation == before@.generation + 1,
        closed@.in_flight == before@.in_flight && closed@.uncertain == before@.uncertain,
        resumed is Ok <==> !before@.uncertain,
        resumed is Ok ==> open@.open && open@.generation != before@.generation,
        resumed is Err ==> open@ == before@,
{
}

/// A submission begins exactly where captures are admitted and it belongs to the
/// generation of now; a second one waits for its end.
pub proof fn submissions_belong_to_their_generation(
    before: Admission,
    generation: Generation,
    after: Admission,
    begun: bool,
    accepted: bool,
    admitted: Option<Generation>,
    idle: bool,
)
    requires
        exists|asked: &mut Admission|
            *asked == before && *final(asked) == after && #[trigger] call_ensures(
                Admission::begin,
                (asked, generation),
                begun,
            ),
        call_ensures(Admission::accepts, (&before, generation), accepted),
        call_ensures(Admission::admitted, (&before,), admitted),
        call_ensures(Admission::idle, (&before,), idle),
    ensures
        begun <==> before@.open && generation.0 == before@.generation,
        accepted <==> begun,
        admitted is Some <==> before@.open,
        admitted matches Some(now) ==> now.0 == before@.generation,
        idle <==> !before@.in_flight,
        after@.in_flight == begun,
        after@.open == before@.open && after@.generation == before@.generation && after@.uncertain
            == before@.uncertain,
{
}

/// What was stored or refused leaves all as it was. Where that is not known, nothing is
/// admitted any more and no fence holds.
pub proof fn lost_submissions_close_for_good<T>(
    before: Admission,
    outcome: Sink<T>,
    after: Admission,
    result: Result<T, String>,
    fence: Result<(), String>,
)
    requires
        exists|asked: &mut Admission|
            *asked == before && *final(asked) == after && #[trigger] call_ensures(
                Admission::record::<T>,
                (asked, outcome),
                result,
            ),
        call_ensures(Admission::fence, (&after,), fence),
    ensures
        outcome matches Sink::Accepted(value) ==> result == Ok::<T, String>(value) && after@ == (
        AdmissionView { in_flight: false, ..before@ }) && (fence is Ok <==> !before@.uncertain),
        !(outcome is Accepted) ==> result is Err && !after@.open && after@.uncertain
            && !after@.in_flight && fence is Err,
        outcome matches Sink::Uncertain(message) ==> result == Err::<T, String>(message),
{
}

/// Nothing reaches the store that does not belong to the generation of now; what the
/// store made of the rest is what comes back.
pub proof fn only_what_is_admitted_reaches_the_store<T, F: FnOnce() -> Sink<T>>(
    before: Admission,
    generation: Generation,
    submit: F,
    after: Admission,
    result: Result<Option<T>, String>,
)
    requires
        exists|asked: &mut Admission|
            *asked == before && *final(asked) == after && #[trigger] call_ensures(
                Admission::submit::<T, F>,
                (asked, generation, submit),
                result,
            ),
    ensures
        !(before@.open && generation.0 == before@.generation) ==> result == Ok::<Option<T>, String>(
            None,
        ) && after@ == before@,
        before@.open && generation.0 == before@.generation ==> exists|outcome: Sink<T>| #[trigger]
            call_ensures(submit, (), outcome) && (outcome matches Sink::Accepted(value) ==> result
                == Ok::<Option<T>, String>(Some(value)) && after@ == before@) && (!(
            outcome is Accepted) ==> result is Err && !after@.open && after@.uncertain),
{
}

/// The first report of a capture is also the word to whoever started it; what is said
/// of it later is the last report, while it runs and is admitted.
pub proof fn reports_are_passed_on(
    before: Session,
    report: Result<(), String>,
    after: Session,
    acknowledgement: Option<Result<(), String>>,
    finished: bool,
    admitted: bool,
    state: Result<bool, String>,
)
    requires
        exists|asked: &mut Session|
            *asked == before && *final(asked) == after && #[trigger] call_ensures(
                Session::report,
                (asked, report),
                acknowledgement,
            ),
        call_ensures(Session::state, (&after, finished, admitted), state),
    ensures
        before.acknowledged() ==> acknowledgement is None,
        !before.acknowledged() ==> acknowledgement == Some(report),
        after.acknowledged(),
        finished || !admitted ==> state is Err,
        !finished && admitted && report is Ok ==> state == Ok::<bool, String>(false),
        !finished && admitted && report is Err ==> state == Err::<bool, String>(report->Err_0),
{
}

/// A collector counts as running under its limit exactly where it could be started.
pub proof fn started_collectors_run(
    before: Controller,
    limit: u64,
    running: bool,
    after: Controller,
    state: Result<bool, String>,
    paused: Result<bool, String>,
)
    requires
        before.pending == (worker::Pending::Starting { limit }),
        exists|asked: &mut Controller|
            *asked == before && *final(asked) == after && #[trigger] call_ensures(
                Controller::started,
                (asked, running),
                (),
            ),
        call_ensures(Controller::is_paused, (&after, state), paused),
    ensures
        running ==> after.worker == Some(limit) && after.attached,
        !running ==> after.worker == before.worker,
        after.terminal_error == before.terminal_error,
        after.terminal_error is None && after.worker is None ==> paused == Ok::<bool, String>(true),
        after.terminal_error is None && after.worker is Some ==> paused == state,
        after.terminal_error matches Some(error) ==> paused == Err::<bool, String>(error),
{
}

/// A transfer is given up after five seconds without progress, or fifteen in all.
pub proof fn transfers_do_not_take_forever(
    transfer: Transfer,
    now: u64,
    expired: bool,
    wanted: u64,
)
    requires
        call_ensures(Transfer::is_expired, (&transfer, now), expired),
        call_ensures(Transfer::wanted, (&transfer,), wanted),
        transfer.started() <= transfer.progress() <= now,
    ensures
        expired <==> now - transfer.progress() >= 5_000 || now - transfer.started() >= 15_000,
        wanted <= 65_536,
        transfer.length() <= transfer.limit() ==> wanted > 0 && transfer.length() + wanted
            <= transfer.limit() + 1,
        transfer.length() <= transfer.limit() && transfer.limit() - transfer.length() >= 65_535
            ==> wanted == 65_536,
        transfer.length() > transfer.limit() ==> wanted == 0,
{
}

proof fn the_first_offer_is_found(offers: Seq<Pending>, id: u32)
    ensures
        0 <= wayland::offer_index(offers, id) <= offers.len(),
        wayland::offer_index(offers, id) < offers.len() ==> offers[wayland::offer_index(
            offers,
            id,
        )].id == id,
        forall|i: int|
            0 <= i < wayland::offer_index(offers, id) ==> (#[trigger] offers[i]).id != id,
    decreases offers.len(),
{
    if offers.len() > 0 && offers[0].id != id {
        let rest = offers.drop_first();
        the_first_offer_is_found(rest, id);
        assert forall|i: int| 0 <= i < wayland::offer_index(offers, id) implies (
        #[trigger] offers[i]).id != id by {
            if i > 0 {
                assert(rest[i - 1] == offers[i]);
            }
        }
    }
}

/// An offer that becomes the selection is received where fewer than four others are,
/// captures are admitted, it has a type worth taking and it fits the budget of 128 MiB;
/// its best type is asked for, of its own source, for the generation of now. What was
/// there at the start is left out where that was asked for.
pub proof fn selected_offers_are_received(
    before: State,
    id: u32,
    at: int,
    admission: Admission,
    now: u64,
    after: State,
    request: Option<Request>,
)
    requires
        before.wf(),
        0 <= at < before.offers@.len(),
        before.offers@[at].id == id,
        forall|i: int| 0 <= i < at ==> (#[trigger] before.offers@[i]).id != id,
        exists|asked: &mut State|
            *asked == before && *final(asked) == after && #[trigger] call_ensures(
                State::select,
                (asked, id, &admission, now),
                request,
            ),
    ensures
        ({
            let offer = before.offers@[at];
            let wanted = !(before.skip_initial && !before.ready) && before.transfers@.len() < 4
                && admission@.open && offer.mimes@.best() is Some && before.budget.used()
                + before.limit + 1 <= 134_217_728;
            &&& request is Some <==> wanted
            &&& after.offers@ == before.offers@.remove(at)
            &&& request matches Some(request) ==> request.id == id && Some(request.mime@)
                == offer.mimes@.best() && after.transfers@.len() == before.transfers@.len() + 1
                && after.transfers@.last().pending.id == id && after.transfers@.last().mime@
                == request.mime@ && after.transfers@.last().generation.0 == admission@.generation
                && after.transfers@.last().transfer.limit() == before.limit
                && after.transfers@.last().transfer.data().len() == 0
            &&& request is None ==> after.transfers@ == before.transfers@
        }),
{
    the_first_offer_is_found(before.offers@, id);
    let found = wayland::offer_index(before.offers@, id);
    if found < at {
        assert(before.offers@[found].id != id);
    }
    assert(found == at);
}

/// What was received whole and is not blank is handed on, as it came, under the type and
/// the generation that it was asked for; nothing is handed on once its generation has
/// ended or it took too long.
pub proof fn received_content_is_handed_on(
    before: State,
    at: usize,
    admission: Admission,
    now: u64,
    read: ChunkRead,
    after: State,
    progress: Progress,
)
    requires
        before.wf(),
        at < before.transfers@.len(),
        exists|asked: &mut State|
            *asked == before && *final(asked) == after && #[trigger] call_ensures(
                State::receive,
                (asked, at, &admission, now, read),
                progress,
            ),
    ensures
        ({
            let r = before.transfers@[at as int];
            let live = admission@.open && r.generation.0 == admission@.generation
                && !r.transfer.expired(now);
            let blank = forall|i: int|
                0 <= i < r.transfer.data().len() ==> (#[trigger] r.transfer.data()[i]) == 0x20
                    || r.transfer.data()[i] == 0x09 || r.transfer.data()[i] == 0x0a
                    || r.transfer.data()[i] == 0x0c || r.transfer.data()[i] == 0x0d;
            &&& !live ==> progress is Dropped
            &&& live && read is End && !blank ==> (progress matches Progress::Complete(job)
                && job.data@ == r.transfer.data() && job.mime@ == r.mime@ && job.generation
                == r.generation)
            &&& live && read is NotReady ==> progress is Continues
            &&& live && read is Failed ==> progress is Dropped
            &&& progress is Complete ==> live && read is End && !blank
            &&& progress is Retried ==> live && read is End && blank
            &&& live && read is Data && r.transfer.length() + read->Data_0@.len()
                <= r.transfer.limit() ==> progress is Continues
                && after.transfers@[at as int].transfer.data() == r.transfer.data()
                + read->Data_0@
            &&& live && read is Data && r.transfer.length() + read->Data_0@.len()
                > r.transfer.limit() ==> progress is Dropped
        }),
{
}

/// Every type that is offered reaches its own offer, and no other.
pub proof fn types_reach_their_offer(
    before: State,
    id: u32,
    at: int,
    mime: String,
    after: State,
    i: int,
)
    requires
        0 <= at < before.offers@.len(),
        before.offers@[at].id == id,
        forall|k: int| 0 <= k < at ==> (#[trigger] before.offers@[k]).id != id,
        exists|asked: &mut State|
            *asked == before && *final(asked) == after && #[trigger] call_ensures(
                State::offer_mime,
                (asked, id, mime),
                (),
            ),
        0 <= i < before.offers@.len(),
    ensures
        after.offers@.len() == before.offers@.len(),
        i != at ==> after.offers@[i] == before.offers@[i],
        after.offers@[at].id == id,
        after.offers@[at].seat == before.offers@[at].seat,
        after.offers@[at].mimes@ == before.offers@[at].mimes@.with(mime@),
{
    the_first_offer_is_found(before.offers@, id);
    let found = wayland::offer_index(before.offers@, id);
    if found < at {
        assert(before.offers@[found].id != id);
    }
    assert(found == at);
    assert(after.offers@[i].id == after.offers@[i].id);
    assert(after.offers@[at].id == id);
}

/// A new offer is kept, behind the others, while fewer than 64 are; an older one under
/// the same number is forgotten.
pub proof fn offers_are_kept_while_there_is_room(
    before: State,
    id: u32,
    seat: u32,
    after: State,
    i: int,
)
    requires
        before.wf(),
        exists|asked: &mut State|
            *asked == before && *final(asked) == after && #[trigger] call_ensures(
                State::offer,
                (asked, id, seat),
                (),
            ),
    ensures
        before.offers@.len() + before.transfers@.len() >= 64 ==> after.offers@ == before.offers@,
        before.offers@.len() + before.transfers@.len() < 64 ==> after.offers@.len() > 0
            && after.offers@.last().id == id && after.offers@.last().seat == seat
            && after.offers@.last().mimes@.count == 0,
        before.offers@.len() + before.transfers@.len() < 64 && 0 <= i < before.offers@.len()
            && before.offers@[i].id != id ==> after.offers@.contains(before.offers@[i]),
{
    if before.offers@.len() + before.transfers@.len() < 64 && 0 <= i < before.offers@.len()
        && before.offers@[i].id != id {
        let keep = |p: Pending| p.id != id;
        before.offers@.lemma_filter_contains(keep, i);
        let kept = before.offers@.filter(keep);
        let k = choose|k: int| 0 <= k < kept.len() && kept[k] == before.offers@[i];
        assert(after.offers@.drop_last() == kept);
        assert(after.offers@[k] == kept[k]);
    }
}

/// A seat that is gone takes its offers and its transfers with it, and no others.
pub proof fn seats_take_their_offers_with_them(
    before: State,
    seat: u32,
    after: State,
    i: int,
    k: int,
)
    requires
        before.wf(),
        exists|asked: &mut State|
            *asked == before && *final(asked) == after && #[trigger] call_ensures(
                State::remove_seat,
                (asked, seat),
                (),
            ),
    ensures
        0 <= k < after.offers@.len() ==> after.offers@[k].seat != seat,
        0 <= k < after.transfers@.len() ==> after.transfers@[k].pending.seat != seat,
        0 <= k < after.seats@.len() ==> after.seats@[k] != seat,
        0 <= i < before.offers@.len() && before.offers@[i].seat != seat ==> after.offers@.contains(
            before.offers@[i],
        ),
        0 <= i < before.transfers@.len() && before.transfers@[i].pending.seat != seat
            ==> after.transfers@.contains(before.transfers@[i]),
        0 <= i < before.seats@.len() && before.seats@[i] != seat ==> after.seats@.contains(
            before.seats@[i],
        ),
{
    let offers = |p: Pending| p.seat != seat;
    let transfers = |r: Receiving| r.pending.seat != seat;
    let seats = |s: u32| s != seat;
    if 0 <= k < after.offers@.len() {
        before.offers@.lemma_filter_pred(offers, k);
    }
    if 0 <= k < after.transfers@.len() {
        before.transfers@.lemma_filter_pred(transfers, k);
    }
    if 0 <= k < after.seats@.len() {
        before.seats@.lemma_filter_pred(seats, k);
    }
    if 0 <= i < before.offers@.len() && offers(before.offers@[i]) {
        before.offers@.lemma_filter_contains(offers, i);
    }
    if 0 <= i < before.transfers@.len() && transfers(before.transfers@[i]) {
        before.transfers@.lemma_filter_contains(transfers, i);
    }
    if 0 <= i < before.seats@.len() && seats(before.seats@[i]) {
        before.seats@.lemma_filter_contains(seats, i);
    }
}

/// The manager that is used is the standard one where there is one, else the older one
/// from its second version on; without one, or without a seat, there is no capture. A
/// seat is listened to, up to 16 of them, at version 7 at most.
pub proof fn compositors_must_offer_what_is_needed(
    before: State,
    name: u32,
    interface: &str,
    version: u32,
    known: State,
    action: GlobalAction,
    chosen: State,
    manager: Option<Manager>,
)
    requires
        before.wf(),
        exists|asked: &mut State|
            *asked == before && *final(asked) == known && #[trigger] call_ensures(
                State::global,
                (asked, name, interface, version),
                action,
            ),
        exists|asked: &mut State|
            *asked == before && *final(asked) == chosen && #[trigger] call_ensures(
                State::initialize,
                (asked,),
                manager,
            ),
    ensures
        interface@ == "ext_data_control_manager_v1"@ ==> known.ext == Some(name),
        interface@ == "zwlr_data_control_manager_v1"@ && version >= 2 ==> known.wlr == Some(name),
        interface@ == "zwlr_data_control_manager_v1"@ && version < 2 ==> known.wlr == before.wlr,
        interface@ == "wl_seat"@ && before.seats@.len() < 16 ==> known.seats@.last() == name
            && action == (GlobalAction::BindSeat {
            version: if version < 7 {
                version
            } else {
                7
            },
        }),
        interface@ == "wl_seat"@ && before.seats@.len() >= 16 ==> action is Ignore,
        interface@ != "wl_seat"@ ==> action is Ignore && known.seats@ == before.seats@,
        manager is Some <==> (before.ext is Some || before.wlr is Some) && before.seats@.len() > 0,
        manager is Some && before.ext is Some ==> manager == Some(Manager::Ext(before.ext->0)),
        manager is Some && before.ext is None ==> manager == Some(Manager::Wlr(before.wlr->0)),
        manager is None ==> chosen.error is Some,
{
    reveal_strlit("ext_data_control_manager_v1");
    reveal_strlit("zwlr_data_control_manager_v1");
    reveal_strlit("wl_seat");
    assert("ext_data_control_manager_v1"@.len() == 27);
    assert("zwlr_data_control_manager_v1"@.len() == 28);
    assert("wl_seat"@.len() == 7);
}

/// Capture runs once the compositor has told all there is, where nothing went wrong and
/// there is a seat; it may take five seconds for that.
pub proof fn captures_run_once_settled(
    before: State,
    after: State,
    running: bool,
    elapsed: u64,
    goes_on: Result<(), String>,
)
    requires
        before.wf(),
        exists|asked: &mut State|
            *asked == before && *final(asked) == after && #[trigger] call_ensures(
                State::settle,
                (asked,),
                running,
            ),
        call_ensures(State::check, (&before, elapsed), goes_on),
    ensures
        running <==> before.error is None && before.seats@.len() > 0,
        running ==> after.ready && after.error is None,
        !running ==> after.error is Some && after.ready == before.ready,
        goes_on is Ok <==> before.error is None && (before.ready || elapsed <= 5_000),
        before.error matches Some(error) ==> goes_on == Err::<(), String>(error),
{
}

/// A manager that disappears ends the capture, and so does the last seat once it runs; a
/// seat that delivers no more ends it too.
pub proof fn captures_end_with_what_they_need(
    before: State,
    name: u32,
    after: State,
    seat: u32,
    done: State,
)
    requires
        before.wf(),
        before.error is None,
        exists|asked: &mut State|
            *asked == before && *final(asked) == after && #[trigger] call_ensures(
                State::global_remove,
                (asked, name),
                (),
            ),
        exists|asked: &mut State|
            *asked == before && *final(asked) == done && #[trigger] call_ensures(
                State::device_finished,
                (asked, seat),
                (),
            ),
    ensures
        before.ext == Some(name) || before.wlr == Some(name) ==> after.error is Some,
        before.ready && after.seats@.len() == 0 ==> after.error is Some,
        before.ext != Some(name) && before.wlr != Some(name) && !(before.ready
            && after.seats@.len() == 0) ==> after.error is None,
        done.error is Some,
{
}

/// A capture that starts says so until its first report; whoever shuts it down waits for
/// the worker, if one runs, and nothing starts afterwards.
pub proof fn captures_shut_down_for_good(
    session: Session,
    before: Controller,
    after: Controller,
    step: worker::Step,
)
    requires
        call_ensures(Session::starting, (), session),
        exists|asked: &mut Controller|
            *asked == before && *final(asked) == after && #[trigger] call_ensures(
                Controller::shutdown,
                (asked,),
                step,
            ),
    ensures
        session.status() is Err && !session.acknowledged(),
        after.terminal_error is Some,
        before.terminal_error is None && before.worker is Some ==> step is StopWorker
            && after.worker is None,
        before.terminal_error is None && before.worker is None ==> step == worker::Step::Done(
            Ok(()),
        ),
        before.terminal_error matches Some(error) ==> step == worker::Step::Done(Err(error)),
{
}

/// A type that is offered is added to what is known of the offer, and what is taken next
/// is the best of it.
pub proof fn offers_give_their_best(
    before: crate::capture::policy::OfferedMimes,
    mime: String,
    more: crate::capture::policy::OfferedMimes,
    less: crate::capture::policy::OfferedMimes,
    best: Option<String>,
)
    requires
        exists|asked: &mut crate::capture::policy::OfferedMimes|
            *asked == before && *final(asked) == more && #[trigger] call_ensures(
                crate::capture::policy::OfferedMimes::add,
                (asked, mime),
                (),
            ),
        exists|asked: &mut crate::capture::policy::OfferedMimes|
            *asked == before && *final(asked) == less && #[trigger] call_ensures(
                crate::capture::policy::OfferedMimes::next,
                (asked,),
                best,
            ),
    ensures
        before@.rejected ==> more@.rejected,
        mime@.len() == 0 || mime@.len() > 96 ==> more@.rejected,
        before@.count >= 64 ==> more@.rejected,
        before@.bytes + mime@.len() > 8_192 ==> more@.rejected,
        !more@.rejected ==> more@.count == before@.count + 1 && more@.bytes == before@.bytes
            + mime@.len(),
        mime@ == "x-kde-passwordManagerHint"@ ==> more@.secret || more@.rejected,
        before@.rejected || before@.secret ==> best is None,
        best is Some <==> before@.best() is Some,
        best matches Some(best) ==> before@.best() == Some(best@),
{
}

/// A capture begins with nothing known and nothing running.
pub proof fn captures_begin_with_nothing(
    limit: u64,
    skip_initial: bool,
    state: State,
    controller: Controller,
)
    requires
        call_ensures(State::new, (limit, skip_initial), state),
        call_ensures(Controller::new, (), controller),
    ensures
        state.limit == limit && state.skip_initial == skip_initial,
        state.ext is None && state.wlr is None && state.manager is None,
        state.seats@.len() == 0 && state.offers@.len() == 0 && state.transfers@.len() == 0,
        state.budget.used() == 0 && !state.ready && state.error is None,
        controller.worker is None && !controller.attached && controller.terminal_error is None,
        controller.pending == worker::Pending::Nothing,
{
}

} // verus!
