use clip_daemon::limit::{load, LimitFile};
use clip_daemon::policy::{
    addition_outcome, decode, decode_targets, policy_outcome, policy_proof, promotion_outcome,
    proof_needed, Admission, Allocator, CaptureStep, Incoming, PolicyStep, Previous, Promotion,
    Removal, ReplaceAction, ReplaceEvent,
    Replacement, Storage, COMMITTED, REJECTED, STALE,
};
use clip_daemon::ringboard::ipc;
use clip_daemon::ringboard::ipc::{read_capture, read_limits, read_reply, PolicyExchange, Target};

fn packet(exchange: &PolicyExchange) -> Vec<u8> {
    let greeting = [exchange.greeting()];
    exchange.negotiated(&greeting).unwrap().to_vec()
}

fn allocator() -> Allocator {
    Allocator {
        main_capacity: 750,
        favorites_capacity: 100,
        capture_limit: Some(65536),
    }
}

#[test]
fn requests_are_understood_by_the_server() {
    let proof = ipc::content_proof(&[1; 32], "image/png");
    assert_eq!(proof, ipc::proof_of_bytes(&[1; 32], b"image/png"));
    let request = packet(&ipc::replace(7, &proof, "image/png").unwrap());
    let parsed = decode(&request).unwrap();
    assert_eq!(parsed.id, 7);
    assert_eq!(parsed.expected, proof);
    assert_eq!(parsed.mime, "image/png");
    assert_eq!(proof_needed(&request), Some(7));
    assert!(decode(&request[..10]).is_none());
    assert!(matches!(
        allocator().policy_request(&request, true, Some(proof)),
        PolicyStep::Replace { id: 7, .. }
    ));
    // The entry is not in the state that was proven.
    assert!(matches!(
        allocator().policy_request(&request, true, Some([0; 32])),
        PolicyStep::Reply(STALE)
    ));
    let wipe = packet(&ipc::wipe());
    assert!(matches!(
        allocator().policy_request(&wipe, false, None),
        PolicyStep::RemoveAll
    ));
}

#[test]
fn a_proof_covers_content_and_mime() {
    let proof = policy_proof(b"content", b"");
    assert_eq!(proof, policy_proof(b"content", b""));
    assert_ne!(proof, policy_proof(b"content", b"text/html"));
    assert_ne!(proof, policy_proof(b"Content", b""));
}

#[test]
fn limits_are_understood_by_the_client() {
    let limits = read_limits(&allocator().policy_limits()).unwrap();
    assert_eq!(limits.max_entries, 750);
    assert_eq!(limits.max_favorites, 100);
    assert_eq!(limits.max_entry_bytes, Some(65536));
    let unreadable = Allocator {
        capture_limit: None,
        ..allocator()
    };
    assert_eq!(
        read_limits(&unreadable.policy_limits())
            .unwrap()
            .max_entry_bytes,
        None
    );
    assert!(read_limits(b"short").is_err());
}

#[test]
fn replies_name_what_became_of_a_request() {
    let reply = |status: u8| {
        let mut reply = b"CDR1".to_vec();
        reply.push(status);
        reply
    };
    assert!(read_reply(&reply(COMMITTED)).is_ok());
    assert_eq!(
        read_reply(&reply(STALE)).unwrap_err().message(),
        "Clipboard content changed before the mutation"
    );
    assert!(read_reply(&reply(9)).is_err());
    assert!(read_reply(b"").is_err());
    assert_eq!(policy_outcome(Storage::Done), COMMITTED);
    assert_eq!(policy_outcome(Storage::Missing), STALE);
    // An entry of the main ring that was added at place 5.
    assert_eq!(
        read_capture(&addition_outcome(Some(5))).unwrap(),
        Some(0x1_0000_0005)
    );
    assert!(read_capture(&addition_outcome(None)).is_err());
}

#[test]
fn content_is_admitted_within_the_limit() {
    let incoming = |inspected: Option<(bool, u64)>, content: Option<Vec<u8>>| Incoming {
        inspected,
        content,
    };
    let allocator = Allocator {
        capture_limit: Some(4),
        ..allocator()
    };
    assert!(matches!(
        allocator.policy_admit(&incoming(Some((true, 4)), Some(vec![1; 4]))),
        Admission::Admitted
    ));
    assert!(matches!(
        allocator.policy_admit(&incoming(Some((true, 5)), Some(vec![1; 5]))),
        Admission::Refused
    ));
    assert!(matches!(
        allocator.policy_admit(&incoming(None, None)),
        Admission::Failed
    ));
}

#[test]
fn lists_of_entries_are_understood() {
    let targets = [
        Target {
            id: 3,
            proof: [1; 32],
        },
        Target {
            id: 4,
            proof: [2; 32],
        },
    ];
    let (_, list) = ipc::remove_many(&targets).unwrap();
    let decoded = decode_targets(&list).unwrap();
    assert_eq!(decoded.len(), 2);
    assert_eq!(decoded[1].id, 4);
    assert!(decode_targets(&list[..list.len() - 1]).is_none());
    assert_eq!(allocator().policy_remove_many(true, &list).ok().unwrap().len(), 2);
    assert_eq!(allocator().policy_remove_many(false, &list).err(), Some(REJECTED));
    assert_eq!(allocator().policy_remove_many(true, b"").err(), Some(REJECTED));
    let stored = [Some([1; 32]), Some([2; 32])];
    let mut removal = Removal::of_targets(&decoded, &stored).ok().unwrap();
    while removal.pending().is_some() {
        removal.record(Storage::Done);
    }
    assert_eq!(removal.status(), Some(COMMITTED));
    assert!(Removal::of_targets(&decoded, &[Some([1; 32]), None]).is_err());
}

#[test]
fn a_replacement_is_published_or_taken_back() {
    let mut replacement = Replacement::begin();
    assert!(matches!(replacement.action, ReplaceAction::Admit));
    let action = replacement.policy_replace(ReplaceEvent::Admission(Admission::Admitted));
    assert!(matches!(action, ReplaceAction::Locate));
    let action =
        replacement.policy_replace(ReplaceEvent::Located(Some((Previous::File, false))));
    assert!(matches!(action, ReplaceAction::Stage));
    let action = replacement.policy_replace(ReplaceEvent::Performed(true));
    assert!(matches!(action, ReplaceAction::Install { exchange: true }));
    let action = replacement.policy_replace(ReplaceEvent::Performed(true));
    assert!(matches!(action, ReplaceAction::Publish));
    let action = replacement.policy_replace(ReplaceEvent::Performed(false));
    assert!(matches!(action, ReplaceAction::TakeBack { exchange: true }));
    let action = replacement.policy_replace(ReplaceEvent::Performed(true));
    assert!(matches!(action, ReplaceAction::Discard));
    let action = replacement.policy_replace(ReplaceEvent::Performed(true));
    assert!(matches!(action, ReplaceAction::Finished(false)));
    let mut refused = Replacement::begin();
    assert!(matches!(
        refused.policy_replace(ReplaceEvent::Admission(Admission::Refused)),
        ReplaceAction::Finished(false)
    ));
}

#[test]
fn a_limit_file_sets_the_limit() {
    assert_eq!(load(&LimitFile::Missing).unwrap(), 16_777_216);
    assert!(load(&LimitFile::Unreadable).is_err());
    let file = |contents: &str| LimitFile::Contents(contents.as_bytes().to_vec());
    assert_eq!(load(&file("70000\n")).unwrap(), 70_000);
    assert_eq!(load(&file("536870912")).unwrap(), 67_108_864);
    for contents in ["", "1", "536870913", "many"] {
        assert!(load(&file(contents)).is_err(), "{contents}");
    }
}

#[test]
fn captures_are_promoted_or_added() {
    let proof = policy_proof(b"content", b"text/html");
    let incoming = |content: &[u8]| Incoming {
        inspected: Some((true, content.len() as u64)),
        content: Some(content.to_vec()),
    };
    let known = packet(&ipc::capture(Some(6), &proof, "text/html").unwrap());
    assert!(matches!(
        allocator().policy_capture(&known, &incoming(b"content"), Some(proof)),
        CaptureStep::Promote { id: 6 }
    ));
    // The entry that was thought to be equal is another one by now.
    for candidate in [None, Some([0; 32])] {
        match allocator().policy_capture(&known, &incoming(b"content"), candidate) {
            CaptureStep::Add { mime } => assert_eq!(mime, "text/html"),
            _ => panic!("the capture is not added"),
        }
    }
    let new = packet(&ipc::capture(None, &proof, "text/html").unwrap());
    assert!(matches!(
        allocator().policy_capture(&new, &incoming(b"content"), None),
        CaptureStep::Add { .. }
    ));
    // Other bytes than those that the request is about are not stored.
    let changed = allocator().policy_capture(&new, &incoming(b"Content"), None);
    match changed {
        CaptureStep::Reply(reply) => assert!(!matches!(read_capture(&reply), Ok(Some(_)))),
        _ => panic!("the capture is stored"),
    }
    match promotion_outcome(Promotion::Moved(6), "text/html".to_owned()) {
        CaptureStep::Reply(reply) => assert_eq!(read_capture(&reply).unwrap(), Some(6)),
        _ => panic!("the promotion is not answered"),
    }
    assert!(matches!(
        promotion_outcome(Promotion::Missing, "text/html".to_owned()),
        CaptureStep::Add { .. }
    ));
    match promotion_outcome(Promotion::Failed, "text/html".to_owned()) {
        CaptureStep::Reply(reply) => assert!(read_capture(&reply).is_err()),
        _ => panic!("the promotion is not answered"),
    }
}

#[test]
fn everything_is_deleted_one_by_one() {
    let mut removal = Removal::of_all(vec![5, 9]);
    assert_eq!(removal.pending(), Some(5));
    removal.record(Storage::Done);
    assert_eq!(removal.pending(), Some(9));
    removal.record(Storage::Done);
    assert_eq!(removal.pending(), None);
    assert_eq!(removal.status(), Some(COMMITTED));
}
