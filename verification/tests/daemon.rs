use clip_daemon::actions::ApiError;
use clip_daemon::api::{route, Method};
use clip_daemon::client::{reply_outcome, validate_input, ClipCorrelation, TrackedKind};
use clip_daemon::daemon::subscription::{
    emissions, forwards, lag_event, HistoryEvent, HistoryObserver, HistoryState, HistoryUpdate,
    RequestedStreams,
};
use clip_daemon::daemon::{cancelled, Cancelled};
use clip_daemon::protocol;
use std::collections::HashSet;

#[test]
fn requested_streams_reject_empty_and_unknown_subscriptions() {
    assert!(RequestedStreams::parse(&[]).is_none());
    assert!(RequestedStreams::parse(&["unknown".into()]).is_none());
    let requested = RequestedStreams::parse(&[
        protocol::stream::HISTORY.into(),
        protocol::stream::CURRENT.into(),
    ])
    .expect("supported streams");
    assert!(requested.history && requested.current && requested.watches_clipboard());
}

#[test]
fn history_state_emits_initial_changes_outages_and_recovery_once() {
    let offline = || ApiError::new("error", "offline");
    let mut state = HistoryState::default();
    assert!(matches!(
        state.update(Ok(1)),
        Some(HistoryUpdate::Changed(_))
    ));
    assert!(state.update(Ok(1)).is_none());
    assert!(matches!(
        state.update(Ok(2)),
        Some(HistoryUpdate::Changed(_))
    ));
    assert!(matches!(
        state.update(Err(offline())),
        Some(HistoryUpdate::Unavailable(_))
    ));
    assert!(state.update(Err(offline())).is_none());
    assert!(matches!(
        state.update(Ok(2)),
        Some(HistoryUpdate::Changed(_))
    ));
}

#[test]
fn observers_number_changes_and_begin_anew_after_a_rest() {
    let mut observer = HistoryObserver::new();
    assert_eq!(
        observer.observe(Ok(7)),
        Some(HistoryEvent::Changed {
            revision: 1,
            history_revision: 7
        })
    );
    assert_eq!(observer.observe(Ok(7)), None);
    observer.rest();
    assert_eq!(
        observer.observe(Ok(7)),
        Some(HistoryEvent::Changed {
            revision: 2,
            history_revision: 7
        })
    );
}

#[test]
fn events_go_to_the_streams_that_were_asked_for() {
    let requested = RequestedStreams::parse(&[protocol::stream::CURRENT.into()]).unwrap();
    assert_eq!(
        emissions(requested, true),
        [(protocol::stream::CURRENT, "changed")]
    );
    assert_eq!(
        emissions(requested, false),
        [(protocol::stream::CURRENT, "unavailable")]
    );
    let both = RequestedStreams::parse(&[
        protocol::stream::CURRENT.into(),
        protocol::stream::HISTORY.into(),
    ])
    .unwrap();
    assert_eq!(
        emissions(both, true),
        [
            (protocol::stream::HISTORY, "reset"),
            (protocol::stream::CURRENT, "changed")
        ]
    );
    assert_eq!(lag_event(protocol::stream::OPERATION), Some("failed"));
    assert_eq!(lag_event(protocol::stream::SESSION), Some("fallback"));
    assert_eq!(lag_event(protocol::stream::HISTORY), None);
    assert!(forwards(
        &[protocol::stream::CAPTURE.to_owned()],
        protocol::stream::CAPTURE
    ));
}

#[test]
fn names_are_unique() {
    let mut names = HashSet::new();
    assert!(protocol::METHODS.iter().all(|value| names.insert(*value)));
    assert!(protocol::STREAMS.iter().all(|value| names.insert(*value)));
    assert_eq!(protocol::VERSION, 1);
    for name in protocol::METHODS {
        assert!(route(name).is_ok(), "{name}");
    }
}

#[test]
fn unknown_methods_are_refused_by_their_family() {
    assert_eq!(route("clipboard.session.begin").unwrap(), Method::SessionBegin);
    for (name, message) in [
        ("clipboard.entry.nope", "Unsupported entry method"),
        ("clipboard.session.nope", "Unsupported session method"),
        ("clipboard.history.wipe.nope", "Unsupported wipe method"),
        ("clipboard.nope", "Unsupported clip-api method: clipboard.nope"),
    ] {
        let error = route(name).unwrap_err();
        assert_eq!(error.code, "unsupported-method");
        assert_eq!(error.message, message);
    }
}

#[test]
fn correlates_clipboard_operations_and_subscriptions() {
    let policy = ClipCorrelation;
    let operation = policy
        .response_id(Some("operation-1".into()), None)
        .unwrap();
    assert_eq!(operation.kind, TrackedKind::Operation);
    assert_eq!(
        policy.event_id(
            protocol::stream::OPERATION,
            Some("operation-1".into()),
            None
        ),
        Some("operation-1".into())
    );
    assert!(policy.is_terminal(protocol::stream::OPERATION, Some("cancelled")));

    let subscription = policy.response_id(None, Some("sub-1".into())).unwrap();
    assert_eq!(subscription.kind, TrackedKind::Subscription);
    assert!(!policy.is_terminal(protocol::stream::HISTORY, Some("completed")));
    assert!(!policy.is_terminal(protocol::stream::OPERATION, None));
}

#[test]
fn replies_are_read_as_they_are_meant() {
    assert_eq!(reply_outcome(Some(true), None, "no"), Ok(()));
    assert_eq!(
        reply_outcome(Some(false), Some("why".into()), "no"),
        Err("why".to_owned())
    );
    assert_eq!(reply_outcome(None, None, "no"), Err("no".to_owned()));
    assert_eq!(validate_input(67_108_864), Ok(()));
    assert_eq!(
        validate_input(67_108_865),
        Err("stdin exceeds the hard clipboard limit of 67108864 bytes".to_owned())
    );
}

#[test]
fn subscriptions_are_cancelled_before_operations() {
    assert_eq!(cancelled("x", true, true).unwrap(), Cancelled::Subscription);
    assert_eq!(cancelled("x", false, true).unwrap(), Cancelled::Operation);
    let error = cancelled("x", false, false).unwrap_err();
    assert_eq!(error.code, "request-not-found");
    assert_eq!(
        error.message,
        "No cancellable subscription or operation named x; an operation may already be committing"
    );
}
