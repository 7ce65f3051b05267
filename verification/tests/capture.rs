use clip_daemon::capture::policy::OfferedMimes;
use clip_daemon::capture::transfer::{
    Budget, ChunkRead, Received, Transfer, TransferError, IDLE, TOTAL, TOTAL_BYTES,
};
use clip_daemon::capture::wayland::{GlobalAction, Manager, Progress, State};
use clip_daemon::capture::worker::{
    after_connection, Backoff, Connected, Controller, Reconnect, Session, Step, Stopped,
};
use clip_daemon::capture::{Admission, CaptureControl, Sink, Unavailable};

#[test]
fn admission_is_closed_initially_and_old_transfers_never_revive() {
    let mut gate = Admission::default();
    assert!(gate.admitted().is_none());
    gate.resume().unwrap();
    let old = gate.admitted().unwrap();
    gate.close();
    gate.fence().unwrap();
    gate.resume().unwrap();
    assert!(!gate.accepts(old));
    assert_eq!(
        gate.submit(old, || -> Sink<()> { panic!("stale transfer reached sink") })
            .unwrap(),
        None::<()>
    );
    let generation = gate.admitted().unwrap();
    assert_eq!(
        gate.submit(generation, || Sink::Accepted(7)).unwrap(),
        Some(7)
    );
}

#[test]
fn pause_fences_in_flight_submission_and_rejects_queued_transfers() {
    let mut gate = Admission::default();
    gate.resume().unwrap();
    let generation = gate.admitted().unwrap();
    assert!(gate.begin(generation));
    gate.close();
    assert!(gate.admitted().is_none());
    assert!(!gate.idle());
    assert_eq!(gate.record(Sink::Accepted(())), Ok(()));
    assert!(gate.idle());
    gate.fence().unwrap();
    assert_eq!(
        gate.submit(generation, || -> Sink<()> { panic!("queued transfer reached sink") })
            .unwrap(),
        None::<()>
    );
}

#[test]
fn sink_panic_closes_admission_without_poisoning_the_fence() {
    let mut gate = Admission::default();
    gate.resume().unwrap();
    let generation = gate.admitted().unwrap();
    assert!(gate.submit(generation, || Sink::<()>::Panicked).is_err());
    assert!(gate.admitted().is_none());
    assert!(gate.fence().is_err());
}

#[test]
fn ambiguous_submission_never_becomes_verified_pause_or_retry() {
    let mut gate = Admission::default();
    gate.resume().unwrap();
    let generation = gate.admitted().unwrap();
    assert!(gate
        .submit(generation, || Sink::<()>::Uncertain("lost reply".into()))
        .is_err());
    assert!(gate.admitted().is_none());
    assert!(gate.fence().is_err());
    assert!(gate.resume().is_err());
}

#[test]
fn capture_without_an_owner_is_always_paused() {
    let mut capture = Unavailable;
    assert_eq!(capture.set_paused(true, 0), Ok(()));
    assert_eq!(
        capture.set_paused(false, 1),
        Err("No capture owner is attached to this API".to_owned())
    );
    assert_eq!(capture.is_paused(), Ok(true));
    assert_eq!(capture.shutdown(), Ok(()));
}

#[test]
fn overflow_never_truncates_away_sensitive_markers() {
    for count in [1, 63, 64, 65] {
        let mut mimes = OfferedMimes::default();
        for _ in 0..count {
            mimes.add("text/plain".into());
        }
        mimes.add("x-kde-passwordManagerHint".into());
        assert!(mimes.next().is_none());
    }
    for bad in ["a".repeat(97), "text/plain\n".into(), "text/é".into()] {
        let mut mimes = OfferedMimes::default();
        mimes.add("text/plain".into());
        mimes.add(bad);
        assert!(mimes.next().is_none());
    }
}

#[test]
fn offers_give_the_best_mime_first_and_each_once() {
    let mut mimes = OfferedMimes::default();
    mimes.add("text/plain".into());
    mimes.add("image/png".into());
    mimes.add("chromium/x-internal-source-rfh-token".into());
    let first = mimes.next();
    let second = mimes.next();
    assert!(first.is_some());
    assert_ne!(first, second);
    for chosen in [&first, &second].into_iter().flatten() {
        assert!(chosen == "text/plain" || chosen == "image/png");
    }
    assert_eq!(mimes.next(), None);
}

#[test]
fn transfers_enforce_size_idle_deadline_blank_filtering_and_budget_release() {
    let mut budget = Budget::default();
    for (bytes, delay, nonblank) in [
        (b"abcd".as_slice(), 0, Some(true)),
        (b"abcde", 0, None),
        (b"\0\xff", 0, Some(true)),
        (b" \n\t", 0, Some(false)),
        (b"abcd", IDLE, None),
    ] {
        let reservation = budget.reserve(5).unwrap();
        let mut transfer = Transfer::new(4, reservation, 1_000);
        let result = transfer.receive(1_000 + delay, ChunkRead::Data(bytes.to_vec()));
        assert_eq!(result.is_ok(), nonblank.is_some());
        let reservation = match nonblank {
            Some(nonblank) => {
                assert!(!result.unwrap());
                assert!(transfer.receive(1_000, ChunkRead::End).unwrap());
                match transfer.finish() {
                    Received::Complete(data, reservation) => {
                        assert!(nonblank);
                        assert_eq!(data, bytes);
                        reservation
                    }
                    Received::Blank(reservation) => {
                        assert!(!nonblank);
                        reservation
                    }
                }
            }
            None => transfer.cancel(),
        };
        budget.release(reservation);
    }
    let reserved = budget.reserve(TOTAL_BYTES).unwrap();
    assert!(budget.reserve(1).is_none());
    budget.release(reserved);
    assert!(budget.reserve(TOTAL_BYTES).is_some());
}

#[test]
fn transfers_name_their_failure() {
    let mut budget = Budget::default();
    let mut large = Transfer::new(2, budget.reserve(3).unwrap(), 0);
    assert!(matches!(
        large.receive(0, ChunkRead::Data(vec![1, 2, 3])),
        Err(TransferError::TooLarge)
    ));
    // What was too much has been counted, and not kept.
    assert_eq!(large.wanted(), 0);
    assert!(matches!(
        large.receive(0, ChunkRead::Data(vec![1])),
        Err(TransferError::TooLarge)
    ));
    assert!(matches!(large.finish(), Received::Blank(_)));
    let mut broken = Transfer::new(2, budget.reserve(3).unwrap(), 0);
    assert!(matches!(
        broken.receive(0, ChunkRead::Failed),
        Err(TransferError::Failed)
    ));
    let mut slow = Transfer::new(9, budget.reserve(10).unwrap(), 0);
    assert!(!slow.receive(4_000, ChunkRead::Data(vec![1])).unwrap());
    assert!(!slow.receive(8_000, ChunkRead::Data(vec![1])).unwrap());
    assert!(!slow.receive(12_000, ChunkRead::NotReady).unwrap());
    assert!(matches!(
        slow.receive(TOTAL, ChunkRead::Data(vec![1])),
        Err(TransferError::TimedOut)
    ));
}

#[test]
fn unavailable_capture_can_pause_and_shutdown_but_never_restart_after_shutdown() {
    let mut controller = Controller::new();
    assert_eq!(controller.is_paused(Ok(true)), Ok(true));
    // The engine is unavailable: the worker that is started does not come up.
    assert!(matches!(
        controller.set_paused(false, 65536),
        Step::StartWorker { .. }
    ));
    controller.started(true);
    assert!(controller
        .is_paused(Err("injected unavailable engine".into()))
        .is_err());
    assert!(matches!(
        controller.set_paused(true, 65536),
        Step::StopWorker
    ));
    assert!(matches!(
        controller.stopped(Stopped::Finished(Ok(()))),
        Step::Done(Ok(()))
    ));
    assert_eq!(controller.is_paused(Ok(true)), Ok(true));
    assert!(matches!(controller.shutdown(), Step::Done(Ok(()))));
    assert!(matches!(
        controller.set_paused(false, 65536),
        Step::Done(Err(_))
    ));
    assert!(controller.is_paused(Ok(true)).is_err());
}

#[test]
fn uncertain_shutdown_is_latched_across_repeated_privacy_requests() {
    let mut gate = Admission::default();
    gate.resume().unwrap();
    let generation = gate.admitted().unwrap();
    assert!(gate
        .submit(generation, || Sink::<()>::Uncertain(
            "injected lost reply".into()
        ))
        .is_err());
    let mut controller = Controller::new();
    assert!(matches!(
        controller.set_paused(false, 65536),
        Step::StartWorker { .. }
    ));
    controller.started(true);
    assert!(matches!(
        controller.set_paused(true, 65536),
        Step::StopWorker
    ));
    assert!(matches!(
        controller.stopped(Stopped::Finished(gate.fence())),
        Step::Done(Err(_))
    ));
    for paused in [true, true, false] {
        assert!(matches!(
            controller.set_paused(paused, 65536),
            Step::Done(Err(_))
        ));
        assert!(controller.is_paused(Ok(true)).is_err());
    }
}

#[test]
fn connections_are_retried_with_a_growing_pause_unless_the_outcome_is_unknown() {
    let mut backoff = Backoff::first();
    assert_eq!(backoff.milliseconds, 250);
    for _ in 0..10 {
        backoff = backoff.next();
    }
    assert_eq!(backoff.milliseconds, 10_000);
    assert!(matches!(
        after_connection(Connected::Failed("x".into()), Ok(())),
        Reconnect::ReportAndRetry(_)
    ));
    assert!(matches!(
        after_connection(Connected::Ended, Ok(())),
        Reconnect::Retry
    ));
    assert!(matches!(
        after_connection(Connected::Ended, Err("unknown".into())),
        Reconnect::GiveUp(_)
    ));
}

#[test]
fn a_worker_reports_its_first_outcome_once() {
    let mut session = Session::starting();
    assert!(session.state(false, false).is_err());
    assert_eq!(session.report(Ok(())), Some(Ok(())));
    assert_eq!(session.report(Ok(())), None);
    assert_eq!(session.state(false, true), Ok(false));
    assert!(Session::stopped(true, true));
}

#[test]
fn the_collector_receives_an_offer_of_a_known_seat() {
    let mut gate = Admission::default();
    gate.resume().unwrap();
    let mut state = State::new(65536, false);
    assert!(matches!(
        state.global(1, "ext_data_control_manager_v1", 1),
        GlobalAction::Ignore
    ));
    assert!(matches!(
        state.global(2, "wl_seat", 7),
        GlobalAction::BindSeat { .. }
    ));
    assert!(matches!(state.initialize(), Some(Manager::Ext(1))));
    state.settle();
    state.offer(5, 2);
    state.offer_mime(5, "text/plain".into());
    let request = state.select(5, &gate, 0).unwrap();
    assert_eq!(request.id, 5);
    assert_eq!(request.mime, "text/plain");
    assert!(matches!(
        state.receive(0, &gate, 1, ChunkRead::Data(b"hello".to_vec())),
        Progress::Continues
    ));
    match state.receive(0, &gate, 2, ChunkRead::End) {
        Progress::Complete(job) => {
            assert_eq!(job.data, b"hello");
            assert_eq!(job.mime, "text/plain");
            state.release(job.reservation);
        }
        _ => panic!("transfer did not complete"),
    }
    assert!(state.transfers.is_empty());
}

#[test]
fn blank_content_is_asked_for_under_the_next_type() {
    let mut gate = Admission::default();
    gate.resume().unwrap();
    let mut state = State::new(65536, false);
    state.global(2, "wl_seat", 7);
    state.offer(5, 2);
    state.offer_mime(5, "text/plain".into());
    state.offer_mime(5, "image/png".into());
    let first = state.select(5, &gate, 0).unwrap();
    assert!(state.wanted(0, &gate, 1) > 0);
    let second = match state.receive(0, &gate, 1, ChunkRead::End) {
        Progress::Retried(request) => request,
        _ => panic!("not asked again"),
    };
    assert_eq!(second.id, 5);
    assert_ne!(second.mime, first.mime);
    state.receive(0, &gate, 2, ChunkRead::Data(b"content".to_vec()));
    match state.receive(0, &gate, 3, ChunkRead::End) {
        Progress::Complete(job) => {
            assert_eq!(job.data, b"content");
            assert_eq!(job.mime, second.mime);
            assert_eq!(Some(job.generation), gate.admitted());
            state.release(job.reservation);
        }
        _ => panic!("transfer did not complete"),
    }
}

#[test]
fn what_was_there_before_a_resume_is_not_captured() {
    let mut gate = Admission::default();
    gate.resume().unwrap();
    let mut state = State::new(65536, true);
    state.global(1, "zwlr_data_control_manager_v1", 2);
    state.global(2, "wl_seat", 7);
    assert!(matches!(state.initialize(), Some(Manager::Wlr(1))));
    state.offer(5, 2);
    state.offer_mime(5, "text/plain".into());
    assert!(state.select(5, &gate, 0).is_none());
    assert!(state.settle());
    state.offer(6, 2);
    state.offer_mime(6, "text/plain".into());
    assert!(state.select(6, &gate, 1).is_some());
}

#[test]
fn nothing_is_read_for_a_generation_that_has_ended() {
    let mut gate = Admission::default();
    gate.resume().unwrap();
    let mut state = State::new(10, false);
    state.global(2, "wl_seat", 7);
    state.offer(5, 2);
    state.offer_mime(5, "text/plain".into());
    state.select(5, &gate, 0).unwrap();
    assert_eq!(state.wanted(0, &gate, 1), 11);
    assert_eq!(state.wanted(0, &gate, TOTAL), 0);
    gate.close();
    assert_eq!(state.wanted(0, &gate, 1), 0);
    assert!(matches!(
        state.receive(0, &gate, 1, ChunkRead::NotReady),
        Progress::Dropped
    ));
}
