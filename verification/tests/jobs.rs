use clip_daemon::backend::{BackendError, BackendErrorKind, BackendResult, EntryTarget};
use clip_daemon::model::{EntryKind, EntrySummary};
use clip_daemon::ringboard::artifacts::{ArtifactRegistry, Deletion};
use clip_daemon::ringboard::deletion::{
    begin_cleanup, CleanupAction, CleanupEvent, DeleteAction, DeleteEvent,
};
use clip_daemon::ringboard::details::{Glance, GlanceAction, GlanceEvent, Seen};
use clip_daemon::ringboard::ipc::PolicyExchange;
use clip_daemon::ringboard::mutation::{JobAction, JobEvent, JobResult, Loaded, Purpose};
use clip_daemon::ringboard::projection::{set_of, ResolvedEntry};
use clip_daemon::ringboard::replacement::{
    annotation_accepted, annotation_edited, ReplaceAction, ReplaceEvent, ReplacePurpose, Replaced,
};
use clip_daemon::ringboard::RingboardBackend;
use clip_daemon::selection::FileContent;
use image::ImageFormat;
use std::io::Cursor;

const GENERATED: &str = "/pictures/clipboard-6f2c1a52-3f0e-4c55-9d5a-0f8f7d1f7b1e.png";

fn summary(id: &str, kind: EntryKind, mime: &str) -> EntrySummary {
    EntrySummary {
        id: id.into(),
        revision: 3,
        kind,
        mime: mime.into(),
        byte_size: 10,
        favorite: false,
        current: false,
        preview: "preview".into(),
    }
}

fn resolved(summary: EntrySummary) -> ResolvedEntry {
    ResolvedEntry {
        summary,
        proof: [9; 32],
        generated_paths: vec![],
        echo_source_id: None,
    }
}

fn text(id: &str) -> Loaded {
    Loaded::Entry(resolved(summary(id, EntryKind::Text, "text/plain")))
}

fn image(id: &str) -> Loaded {
    Loaded::Entry(resolved(summary(id, EntryKind::Image, "image/png")))
}

fn backend(ids: &[&str]) -> RingboardBackend {
    let registry = ArtifactRegistry::load(Some("/pictures".to_owned()), vec![], vec![]);
    let mut backend = RingboardBackend::new(registry);
    for (at, id) in ids.iter().enumerate() {
        backend.bind(at as u64 + 1, &summary(id, EntryKind::Text, "text/plain"));
    }
    backend
}

fn content(bytes: &[u8]) -> JobEvent {
    JobEvent::Content(FileContent {
        size: bytes.len() as u64,
        content: Ok(bytes.to_vec()),
    })
}

fn png() -> Vec<u8> {
    let mut bytes = Cursor::new(Vec::new());
    image::RgbImage::new(2, 2)
        .write_to(&mut bytes, ImageFormat::Png)
        .expect("encode image fixture");
    bytes.into_inner()
}

fn packet(exchange: &PolicyExchange) -> Vec<u8> {
    let greeting = [exchange.greeting()];
    exchange.negotiated(&greeting).unwrap().to_vec()
}

fn operation(result: BackendResult<JobResult>) -> (String, String) {
    match result {
        Ok(JobResult::Operation(operation)) => (operation.action, operation.message),
        Ok(_) => panic!("not an operation"),
        Err(error) => panic!("{}", error.message()),
    }
}

#[test]
fn a_text_entry_goes_to_the_clipboard_as_it_is() {
    let mut backend = backend(&["one"]);
    let (job, action) = backend.begin_job(Purpose::Restore, "one".into(), Some(3), 100);
    assert!(matches!(action, JobAction::Load { raw_id: 1 }));
    let (job, action) = backend.advance_job(job, JobEvent::Loaded(text("one")), 0);
    assert!(matches!(
        action,
        JobAction::Read {
            raw_id: 1,
            limit: 100
        }
    ));
    let (job, action) = backend.advance_job(job, content(b"hello"), 0);
    match action {
        JobAction::Probe(paths) => assert!(paths.is_empty()),
        _ => panic!("the files were not probed"),
    }
    let (job, action) = backend.advance_job(job, JobEvent::Probed(vec![]), 0);
    match action {
        JobAction::PublishBytes { mime, content, .. } => {
            assert_eq!(mime, "text/plain");
            assert_eq!(content, b"hello");
        }
        _ => panic!("the entry was not published"),
    }
    let (_, action) = backend.advance_job(job, JobEvent::Published(Ok(())), 0);
    match action {
        JobAction::Done(result) => assert_eq!(
            operation(result),
            (
                "copy".to_owned(),
                "Entry published to the Wayland clipboard".to_owned()
            )
        ),
        _ => panic!("the job is not over"),
    }
    // What was shown has to be shown again.
    assert!(backend.resolve("one").is_err());
}

#[test]
fn what_is_not_the_entry_any_more_is_not_touched() {
    let mut backend = backend(&["one"]);
    let (job, _) = backend.begin_job(Purpose::Remove, "one".into(), Some(3), 0);
    let (_, action) = backend.advance_job(job, JobEvent::Loaded(text("other")), 0);
    match action {
        JobAction::Done(Err(error)) => assert_eq!(error.kind, BackendErrorKind::Stale),
        _ => panic!("another entry was removed"),
    }
    let (_, action) = backend.begin_job(Purpose::Remove, "one".into(), Some(3), 0);
    match action {
        JobAction::Done(Err(error)) => {
            assert_eq!(error.message(), "Clipboard entry ID is unknown or stale")
        }
        _ => panic!("a forgotten entry was found"),
    }
}

#[test]
fn entries_are_removed_with_the_proof_of_their_state() {
    let mut backend = backend(&["one", "two"]);
    let (job, _) = backend.begin_job(Purpose::Remove, "two".into(), Some(3), 0);
    let (job, action) = backend.advance_job(job, JobEvent::Loaded(text("two")), 0);
    match action {
        JobAction::Send(exchange) => {
            let packet = packet(&exchange);
            assert_eq!(&packet[5..13], &2u64.to_le_bytes());
            assert_eq!(&packet[13..45], &[9; 32]);
        }
        _ => panic!("the server was not asked"),
    }
    let (_, action) = backend.advance_job(job, JobEvent::Sent(Ok(())), 0);
    match action {
        JobAction::Done(result) => assert_eq!(operation(result).0, "delete"),
        _ => panic!("the job is not over"),
    }
    backend.bind(1, &summary("one", EntryKind::Text, "text/plain"));
    let (job, _) = backend.begin_job(Purpose::SetFavorite(true), "one".into(), Some(3), 0);
    let (job, _) = backend.advance_job(job, JobEvent::Loaded(text("one")), 0);
    let (_, action) = backend.advance_job(
        job,
        JobEvent::Sent(Err(BackendError::unavailable("down"))),
        0,
    );
    assert!(matches!(action, JobAction::Done(Err(_))));
    assert!(backend.resolve("one").is_ok());
}

#[test]
fn a_failed_link_leaves_no_file() {
    for published in [true, false] {
        let mut backend = backend(&["one"]);
        let (job, _) = backend.begin_job(Purpose::ImageAsFile, "one".into(), Some(3), 100_000);
        let (job, _) = backend.advance_job(job, JobEvent::Loaded(image("one")), 0);
        let (job, _) = backend.advance_job(job, content(&png()), 0);
        let (job, action) = backend.advance_job(job, JobEvent::Probed(vec![]), 0);
        match action {
            JobAction::WriteImage { extension, image } => {
                assert_eq!(extension, "png");
                assert_eq!(image, png());
            }
            _ => panic!("the image was not written"),
        }
        let (job, action) =
            backend.advance_job(job, JobEvent::Written(Ok(GENERATED.to_owned())), 5);
        assert!(matches!(action, JobAction::SaveRegistry));
        let (job, action) = backend.advance_job(job, JobEvent::Saved(Ok(())), 5);
        match action {
            JobAction::PublishLink { uri, .. } => {
                assert_eq!(uri, format!("file://{GENERATED}\r\n").into_bytes())
            }
            _ => panic!("the link was not published"),
        }
        assert_eq!(backend.artifacts.saved_records().len(), 1);
        if published {
            let (_, action) = backend.advance_job(job, JobEvent::Published(Ok(())), 5);
            match action {
                JobAction::Done(Ok(JobResult::Operation(told))) => {
                    assert_eq!(told.message, "Image file copied");
                    assert_eq!(told.path, Some(GENERATED.to_owned()));
                }
                _ => panic!("the job is not over"),
            }
            continue;
        }
        let failure = BackendError::unavailable("no compositor");
        let (job, action) = backend.advance_job(job, JobEvent::Published(Err(failure)), 5);
        match action {
            JobAction::RemoveFile(path) => assert_eq!(path, GENERATED),
            _ => panic!("the file was not removed"),
        }
        assert!(backend.artifacts.saved_records().is_empty());
        let (_, action) = backend.advance_job(job, JobEvent::Removed, 5);
        match action {
            JobAction::Done(Err(error)) => assert_eq!(error.message(), "no compositor"),
            _ => panic!("the job is not over"),
        }
    }
}

#[test]
fn only_images_become_files_or_are_annotated() {
    for purpose in [Purpose::ImageAsFile, Purpose::Annotate] {
        let mut backend = backend(&["one"]);
        let (job, _) = backend.begin_job(purpose, "one".into(), Some(3), 100);
        let (job, _) = backend.advance_job(job, JobEvent::Loaded(text("one")), 0);
        let (_, action) = backend.advance_job(job, content(b"hello"), 0);
        match action {
            JobAction::Done(Err(error)) => {
                assert_eq!(error.message(), "Only image entries support this action")
            }
            _ => panic!("text was taken for an image"),
        }
    }
}

#[test]
fn an_image_is_staged_for_an_edit() {
    let mut backend = backend(&["one"]);
    let (job, _) = backend.begin_job(Purpose::Annotate, "one".into(), Some(3), u64::MAX);
    let (job, action) = backend.advance_job(job, JobEvent::Loaded(image("one")), 0);
    assert!(matches!(
        action,
        JobAction::Read {
            limit: 33_554_432,
            ..
        }
    ));
    let (job, _) = backend.advance_job(job, content(&png()), 0);
    let (job, action) = backend.advance_job(job, JobEvent::Probed(vec![]), 0);
    assert!(matches!(action, JobAction::Stage { .. }));
    let staged = Ok(("in.png".to_owned(), "out.png".to_owned()));
    let (_, action) = backend.advance_job(job, JobEvent::Staged(staged), 0);
    match action {
        JobAction::Done(Ok(JobResult::Staged(stage))) => {
            assert_eq!(stage.input, "in.png");
            assert_eq!(stage.revision, 3);
            assert_eq!(stage.max_bytes, 33_554_432);
        }
        _ => panic!("the image was not staged"),
    }
    assert!(annotation_edited(Ok(true)).is_ok());
    assert_eq!(
        annotation_edited(Ok(false)).unwrap_err().message(),
        "Image edit was cancelled"
    );
    assert_eq!(
        annotation_edited(Err("exit 9".into())).unwrap_err().message(),
        "exit 9"
    );
    assert!(annotation_accepted(true, true).is_ok());
    assert!(annotation_accepted(false, true).is_err());
    assert_eq!(
        annotation_accepted(true, false).unwrap_err().message(),
        "Annotation returned an invalid image"
    );
}

#[test]
fn an_edit_that_is_not_published_is_still_an_edit() {
    let mut backend = backend(&["one"]);
    let (job, _) =
        backend.begin_replacement(ReplacePurpose::Edit, "one".into(), 3, "text/plain".into());
    let (job, action) = backend.advance_replacement(job, ReplaceEvent::Loaded(text("one")), 0);
    match action {
        // Plain text is stored without a MIME type.
        ReplaceAction::Send(exchange) => assert_eq!(packet(&exchange)[45], 0),
        _ => panic!("the server was not asked"),
    }
    let (job, action) = backend.advance_replacement(job, ReplaceEvent::Sent(Ok(())), 0);
    assert!(matches!(action, ReplaceAction::Load { raw_id: 1 }));
    let (job, _) = backend.advance_replacement(job, ReplaceEvent::Loaded(text("new")), 0);
    let (job, _) = backend.advance_replacement(job, ReplaceEvent::Head(Ok(b"new".to_vec())), 0);
    let (job, action) = backend.advance_replacement(job, ReplaceEvent::Probed(vec![]), 0);
    match action {
        ReplaceAction::Restore { id, revision, .. } => {
            assert_eq!(id, "new");
            assert_eq!(revision, 3);
        }
        _ => panic!("the edit was not put on the clipboard"),
    }
    let failure = Err(BackendError::unavailable("no compositor"));
    let (_, action) = backend.advance_replacement(job, ReplaceEvent::Restored(failure), 0);
    match action {
        ReplaceAction::Done(Ok(Replaced::Edit(result))) => {
            assert!(!result.selection_published);
            assert_eq!(result.entry.text, Some("new".to_owned()));
            assert_eq!(
                result.publication_message,
                "Replacement committed, but clipboard publication failed: no compositor"
            );
        }
        _ => panic!("the edit was reported as failed"),
    }
}

#[test]
fn an_annotation_expects_its_echo_and_warns_of_what_fails_afterwards() {
    for published in [true, false] {
        let mut backend = backend(&["one"]);
        let purpose = ReplacePurpose::Annotation { max_bytes: 1000 };
        let (job, _) = backend.begin_replacement(purpose, "one".into(), 3, "image/png".into());
        let (job, _) = backend.advance_replacement(job, ReplaceEvent::Loaded(image("one")), 0);
        let (job, _) = backend.advance_replacement(job, ReplaceEvent::Sent(Ok(())), 0);
        let (job, _) = backend.advance_replacement(job, ReplaceEvent::Loaded(image("new")), 0);
        let (job, _) = backend.advance_replacement(job, ReplaceEvent::Head(Ok(png())), 0);
        let (job, action) = backend.advance_replacement(job, ReplaceEvent::Probed(vec![]), 0);
        assert!(matches!(action, ReplaceAction::ReadOutput));
        let (job, action) =
            backend.advance_replacement(job, ReplaceEvent::Output(Ok(png())), 7);
        assert!(matches!(action, ReplaceAction::SaveRegistry));
        let (job, action) = backend.advance_replacement(job, ReplaceEvent::Saved(Ok(())), 7);
        assert!(matches!(
            action,
            ReplaceAction::PublishOutput { max_bytes: 1000 }
        ));
        assert_eq!(
            backend
                .artifacts
                .match_inline_echo("image/png", &png(), "captured"),
            Some("new".to_owned())
        );
        let outcome = if published {
            Ok(())
        } else {
            Err(BackendError::unavailable("no compositor"))
        };
        let (_, action) = backend.advance_replacement(job, ReplaceEvent::Published(outcome), 7);
        match action {
            ReplaceAction::Done(Ok(Replaced::Annotation(completion))) => {
                if published {
                    assert_eq!(completion.message, "Image edit completed");
                    assert_eq!(completion.warning, None);
                } else {
                    assert_eq!(completion.message, "Image edit committed");
                    assert_eq!(
                        completion.warning,
                        Some("Clipboard publication failed: no compositor".to_owned())
                    );
                }
            }
            _ => panic!("the edit was reported as failed"),
        }
    }
}

#[test]
fn entries_are_deleted_together_or_not_at_all() {
    let target = |id: &str, revision: u64| EntryTarget {
        opaque_id: id.into(),
        expected_revision: revision,
    };
    let mut backend = backend(&["one", "two"]);
    let (job, _) = backend.begin_deletion(vec![target("one", 3), target("two", 4)]);
    let (job, action) = backend.advance_deletion(job, DeleteEvent::Loaded(text("one")));
    assert!(matches!(action, DeleteAction::Load { raw_id: 2 }));
    let (_, action) = backend.advance_deletion(job, DeleteEvent::Loaded(text("two")));
    match action {
        DeleteAction::Done(Err(error)) => assert_eq!(error.kind, BackendErrorKind::Stale),
        _ => panic!("entries were deleted in part"),
    }
    backend.bind(2, &summary("two", EntryKind::Text, "text/plain"));
    let (job, _) = backend.begin_deletion(vec![target("one", 3), target("two", 3)]);
    let (job, _) = backend.advance_deletion(job, DeleteEvent::Loaded(text("one")));
    let (job, action) = backend.advance_deletion(job, DeleteEvent::Loaded(text("two")));
    match action {
        DeleteAction::Send { list, .. } => {
            assert_eq!(list.len(), 4 + 2 * 40);
            assert_eq!(&list[..4], &2u32.to_le_bytes());
            assert_eq!(&list[4..12], &1u64.to_le_bytes());
        }
        _ => panic!("the server was not asked"),
    }
    let (_, action) = backend.advance_deletion(job, DeleteEvent::Sent(Ok(())));
    match action {
        DeleteAction::Done(Ok(told)) => assert_eq!(told.message, "2 clipboard entries deleted"),
        _ => panic!("the deletion is not over"),
    }
    assert!(matches!(
        backend.begin_deletion(vec![]).1,
        DeleteAction::Done(Err(_))
    ));
}

#[test]
fn a_wipe_clears_everything_of_the_daemons_own() {
    for wipe in [false, true] {
        let mut backend = backend(&["one"]);
        backend
            .artifacts
            .register(GENERATED, "one", "image/png", b"x", 0)
            .unwrap();
        let (mut job, mut action) = begin_cleanup(wipe);
        if wipe {
            assert!(matches!(action, CleanupAction::Send(_)));
            (job, action) = backend.advance_cleanup(job, CleanupEvent::Sent(Ok(())), 1);
        }
        assert!(matches!(action, CleanupAction::ClearCaches));
        let (job, action) = backend.advance_cleanup(job, CleanupEvent::Cleared(Ok(())), 1);
        assert!(matches!(action, CleanupAction::Collect));
        let (job, action) =
            backend.advance_cleanup(job, CleanupEvent::Collected(Ok(set_of(&vec![]))), 1);
        match action {
            // It is on the clipboard.
            CleanupAction::Delete(paths) => assert!(paths.is_empty()),
            _ => panic!("nothing was pruned"),
        }
        let (job, action) = backend.advance_cleanup(job, CleanupEvent::Deleted(Ok(vec![])), 1);
        assert!(matches!(action, CleanupAction::SaveRegistry));
        let (job, action) = backend.advance_cleanup(job, CleanupEvent::Saved(Ok(())), 1);
        if !wipe {
            match action {
                CleanupAction::Done(Ok(told)) => assert_eq!(
                    told.message,
                    "Clipboard caches cleared; 0 unreferenced generated files removed"
                ),
                _ => panic!("the cleanup is not over"),
            }
            continue;
        }
        match action {
            CleanupAction::Delete(paths) => assert_eq!(paths, [GENERATED]),
            _ => panic!("nothing was erased"),
        }
        let outcomes = vec![(GENERATED.to_owned(), Deletion::Deleted)];
        let (job, action) = backend.advance_cleanup(job, CleanupEvent::Deleted(Ok(outcomes)), 1);
        assert!(matches!(action, CleanupAction::SaveRegistry));
        let (_, action) = backend.advance_cleanup(job, CleanupEvent::Saved(Ok(())), 1);
        match action {
            CleanupAction::Done(Ok(told)) => assert_eq!(told.message, "Clipboard history cleared"),
            _ => panic!("the wipe is not over"),
        }
        assert!(backend.artifacts.saved_records().is_empty());
        assert!(backend.resolve("one").is_err());
    }
}

#[test]
fn an_entry_is_looked_at_as_it_is_now() {
    let mut backend = backend(&["one"]);
    let (job, _) = backend.begin_glance(Glance::Revision, "one".into(), None);
    let (_, action) = backend.advance_glance(job, GlanceEvent::Loaded(text("one")));
    assert!(matches!(
        action,
        GlanceAction::Done(Ok(Seen::Revision(3)))
    ));

    let glance = Glance::Details { max_text_bytes: 3 };
    let (job, _) = backend.begin_glance(glance, "one".into(), None);
    let (job, action) = backend.advance_glance(job, GlanceEvent::Loaded(text("one")));
    assert!(matches!(
        action,
        GlanceAction::ReadHead {
            raw_id: 1,
            limit: 4
        }
    ));
    let (job, _) = backend.advance_glance(job, GlanceEvent::Head(Ok(b"abcd".to_vec())));
    let (_, action) = backend.advance_glance(job, GlanceEvent::Probed(vec![]));
    match action {
        GlanceAction::Done(Ok(Seen::Details(details))) => {
            assert_eq!(details.text, Some("abc".to_owned()));
            assert!(details.preview_truncated);
        }
        _ => panic!("no details were shown"),
    }

    let glance = Glance::Thumbnail { edge: 5000 };
    let (job, _) = backend.begin_glance(glance, "one".into(), Some(3));
    let (job, _) = backend.advance_glance(job, GlanceEvent::Loaded(image("one")));
    let (job, _) = backend.advance_glance(job, GlanceEvent::Head(Ok(png())));
    let (_, action) = backend.advance_glance(job, GlanceEvent::Probed(vec![]));
    match action {
        GlanceAction::Done(Ok(Seen::Thumbnail { edge, .. })) => assert_eq!(edge, 1024),
        _ => panic!("no thumbnail can be made"),
    }
}

#[test]
fn a_file_whose_record_cannot_be_saved_is_not_linked() {
    let mut backend = backend(&["one"]);
    let (job, _) = backend.begin_job(Purpose::ImageAsFile, "one".into(), Some(3), 100_000);
    let (job, _) = backend.advance_job(job, JobEvent::Loaded(image("one")), 0);
    let (job, _) = backend.advance_job(job, content(&png()), 0);
    let (job, _) = backend.advance_job(job, JobEvent::Probed(vec![]), 0);
    let (job, _) = backend.advance_job(job, JobEvent::Written(Ok(GENERATED.to_owned())), 5);
    assert_eq!(backend.artifacts.saved_records().len(), 1);
    let failure = BackendError::new(BackendErrorKind::OperationFailed, "disk is full");
    let (job, action) = backend.advance_job(job, JobEvent::Saved(Err(failure)), 5);
    match action {
        JobAction::RemoveFile(path) => assert_eq!(path, GENERATED),
        _ => panic!("the file was not removed"),
    }
    assert!(backend.artifacts.saved_records().is_empty());
    let (_, action) = backend.advance_job(job, JobEvent::Removed, 5);
    match action {
        JobAction::Done(Err(error)) => assert_eq!(error.message(), "disk is full"),
        _ => panic!("the job is not over"),
    }
}

#[test]
fn a_registration_that_cannot_be_saved_is_taken_back() {
    let mut backend = backend(&[]);
    let registry = &mut backend.artifacts;
    registry.register(GENERATED, "one", "image/png", b"x", 0).unwrap();
    assert!(registry.registered(GENERATED, Ok(())).is_ok());
    assert_eq!(registry.saved_records().len(), 1);
    let failure = BackendError::new(BackendErrorKind::OperationFailed, "disk is full");
    let error = registry.registered(GENERATED, Err(failure)).unwrap_err();
    assert_eq!(error.message(), "disk is full");
    assert!(registry.saved_records().is_empty());
}

#[test]
fn an_echo_that_cannot_be_saved_is_a_warning() {
    let mut backend = backend(&["one"]);
    let purpose = ReplacePurpose::Annotation { max_bytes: 1000 };
    let (job, _) = backend.begin_replacement(purpose, "one".into(), 3, "image/png".into());
    let (job, _) = backend.advance_replacement(job, ReplaceEvent::Loaded(image("one")), 0);
    let (job, _) = backend.advance_replacement(job, ReplaceEvent::Sent(Ok(())), 0);
    let (job, _) = backend.advance_replacement(job, ReplaceEvent::Loaded(image("new")), 0);
    let (job, _) = backend.advance_replacement(job, ReplaceEvent::Head(Ok(png())), 0);
    let (job, _) = backend.advance_replacement(job, ReplaceEvent::Probed(vec![]), 0);
    let (job, _) = backend.advance_replacement(job, ReplaceEvent::Output(Ok(png())), 7);
    let failure = BackendError::new(BackendErrorKind::OperationFailed, "disk is full");
    let (_, action) = backend.advance_replacement(job, ReplaceEvent::Saved(Err(failure)), 7);
    match action {
        ReplaceAction::Done(Ok(Replaced::Annotation(completion))) => {
            assert_eq!(completion.message, "Image edit committed");
            assert_eq!(
                completion.warning,
                Some("Clipboard publication failed: disk is full".to_owned())
            );
        }
        _ => panic!("the edit was reported as failed"),
    }
}

#[test]
fn a_cleanup_whose_records_cannot_be_saved_fails() {
    let mut backend = backend(&["one"]);
    let (job, _) = begin_cleanup(false);
    let (job, _) = backend.advance_cleanup(job, CleanupEvent::Cleared(Ok(())), 1);
    let (job, _) = backend.advance_cleanup(job, CleanupEvent::Collected(Ok(set_of(&vec![]))), 1);
    let (job, _) = backend.advance_cleanup(job, CleanupEvent::Deleted(Ok(vec![])), 1);
    let failure = BackendError::new(BackendErrorKind::OperationFailed, "disk is full");
    let (_, action) = backend.advance_cleanup(job, CleanupEvent::Saved(Err(failure)), 1);
    match action {
        CleanupAction::Done(Err(error)) => assert_eq!(error.message(), "disk is full"),
        _ => panic!("the cleanup did not fail"),
    }
}
