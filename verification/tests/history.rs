use clip_daemon::backend::{BackendErrorKind, HistoryQuery};
use clip_daemon::classification::INSPECTION_LIMIT;
use clip_daemon::model::{EntryKind, EntrySummary, ImageMetadata, OperationResult};
use clip_daemon::ringboard::artifacts::{ArtifactRegistry, Deletion, InlineEchoRecord};
use clip_daemon::ringboard::capture::{
    candidate_window, equal_candidate, ingest_request, ready, Candidate, CandidateSearch, Verdict,
};
use clip_daemon::ringboard::content::{
    cached_dimensions, probe_image, thumbnail_of_image, valid_edited_image, FileProbe, ProbedImage,
    ResolvedContent, MAX_THUMBNAIL_BYTES,
};
use clip_daemon::ringboard::identity::{
    content_digest, entry_fingerprint, entry_revision, history_token_from_parts, inspect_entry,
    opaque_id, RingFileState, MAX_SAFE_JSON_INTEGER,
};
use clip_daemon::ringboard::ipc::EngineLimits;
use clip_daemon::ringboard::operation::{Operations, OperationCompletion};
use clip_daemon::ringboard::projection::{
    set_of, CachedProjection, IdentityBinding, QueryCandidate, ResolvedEntry,
};
use clip_daemon::ringboard::screenshot::{
    parse_geometry, region_grabbed, region_selection, CaptureAction, CaptureEvent, Grab,
    ScreenshotJob,
};
use clip_daemon::ringboard::texts::TextSearch;
use clip_daemon::ringboard::{
    entry_details, load_projection, status, stored_mime_type, EntryRead, LocalFile,
    RingboardBackend, StoredEntry,
};
use clip_daemon::backend::{BackendError, InteractiveScreenshot, ScreenshotMode};
use clip_daemon::stream::Read;
use image::ImageFormat;
use std::io::Cursor;
use sha2::{Digest, Sha256};

fn query(needle: &str, offset: usize, limit: usize, collapse_self_echoes: bool) -> HistoryQuery {
    HistoryQuery {
        query: needle.into(),
        generation: 1,
        offset,
        limit,
        collapse_self_echoes,
    }
}

fn summary(id: &str) -> EntrySummary {
    EntrySummary {
        id: id.into(),
        revision: 1,
        kind: EntryKind::Image,
        mime: "image/png".into(),
        byte_size: 10,
        favorite: false,
        current: false,
        preview: "image".into(),
    }
}

fn candidate(raw_id: u64, id: &str, generated: bool) -> QueryCandidate {
    QueryCandidate {
        raw_id,
        resolved: ResolvedEntry {
            summary: summary(id),
            proof: [0; 32],
            generated_paths: if generated {
                vec!["/generated/image.png".to_owned()]
            } else {
                vec![]
            },
            echo_source_id: if generated {
                Some("source".to_owned())
            } else {
                None
            },
        },
    }
}

fn reads(bytes: &[u8]) -> Vec<Read> {
    vec![Read::Data(bytes.to_vec()), Read::Data(Vec::new())]
}

fn png(width: u32, height: u32) -> Vec<u8> {
    encoded(width, height, ImageFormat::Png)
}

fn encoded(width: u32, height: u32, format: ImageFormat) -> Vec<u8> {
    let mut bytes = Cursor::new(Vec::new());
    image::RgbImage::new(width, height)
        .write_to(&mut bytes, format)
        .expect("encode image fixture");
    bytes.into_inner()
}

#[test]
fn cached_projection_preserves_identity_and_current_outside_the_page() {
    let cached = CachedProjection {
        current_id: Some(2),
        complete: false,
        candidates: vec![candidate(2, "echo", true), candidate(1, "source", false)],
    };
    for (request, expected, matched, current) in [
        (query("", 0, 10, false), vec!["echo", "source"], 2, "echo"),
        (query("", 0, 10, true), vec!["source"], 1, "source"),
        (query(" IMAGE/PNG ", 1, 1, false), vec!["source"], 2, "echo"),
        (query("missing", 0, 10, true), vec![], 0, "source"),
        (query("", usize::MAX, 10, true), vec![], 1, "source"),
        (query("", 0, 0, true), vec!["source"], 1, "source"),
    ] {
        let page = cached.project(&request);
        assert_eq!(
            page.entries
                .iter()
                .map(|entry| entry.id.as_str())
                .collect::<Vec<_>>(),
            expected
        );
        assert_eq!(page.matched, matched);
        assert_eq!(page.current.as_ref().unwrap().id, current);
        assert!(page.current.as_ref().unwrap().current);
        assert_eq!(page.bindings.get("source").unwrap().raw_id, 1);
        assert_eq!(
            page.bindings.contains_key("echo"),
            !request.collapse_self_echoes
        );
        assert!(page
            .entries
            .iter()
            .all(|entry| entry.current == (entry.id == current)));
        assert!(page.artifact_references.contains("/generated/image.png"));
        assert!(!page.complete);
    }
    assert!(cached
        .candidates
        .iter()
        .all(|candidate| !candidate.resolved.summary.current));
    let orphan = CachedProjection {
        candidates: vec![candidate(2, "echo", true)],
        ..cached
    };
    assert_eq!(
        orphan.project(&query("", 0, 10, true)).entries[0].id,
        "echo"
    );
}

#[test]
fn entries_match_by_their_whole_text_too() {
    let cached = CachedProjection {
        current_id: None,
        complete: true,
        candidates: vec![candidate(1, "one", false), candidate(2, "two", false)],
    };
    let request = query("late needle", 0, 10, false);
    assert!(cached.project(&request).entries.is_empty());
    let found = cached.project_found(&request, &set_of(&vec!["two".to_owned()]));
    assert_eq!(found.entries.len(), 1);
    assert_eq!(found.entries[0].id, "two");
    assert_eq!(
        cached.shown_states(true),
        [("one".to_owned(), 1), ("two".to_owned(), 1)]
    );
}

fn fingerprint(raw_id: u64, mime: &str, bytes: &[u8]) -> [u8; 32] {
    let inspection = inspect_entry(&reads(bytes), bytes.len() as u64).expect("fingerprint fixture");
    entry_fingerprint(raw_id, bytes.len() as u64, mime, &inspection.digest)
}

#[test]
fn inspection_is_bounded_and_hashes_the_full_stream_across_interruptions() {
    let limit = INSPECTION_LIMIT;
    for size in [0, 1, limit - 1, limit, limit + 1, limit + 8193] {
        let bytes = vec![b'x'; size];
        let split = size.min(limit);
        let source = vec![
            Read::Interrupted,
            Read::Data(bytes[..split].to_vec()),
            Read::Interrupted,
            Read::Data(bytes[split..].to_vec()),
            Read::Data(Vec::new()),
        ];
        let inspection = inspect_entry(&source, size as u64).unwrap();
        assert_eq!(inspection.preview, bytes[..split]);
        let mut expected = Sha256::new();
        expected.update(b"clip-daemon:entry-content:v1:");
        expected.update(&bytes);
        assert_eq!(inspection.digest.as_slice(), expected.finalize().as_slice());
    }
}

#[test]
fn entry_identity_covers_full_content_and_preserves_js_safe_revisions() {
    let mut first = vec![b'a'; INSPECTION_LIMIT + 1];
    let mut second = first.clone();
    first[INSPECTION_LIMIT] = b'x';
    second[INSPECTION_LIMIT] = b'y';

    let identity = fingerprint(42, "text/plain", &first);
    let changed = fingerprint(42, "text/plain", &second);
    assert_ne!(identity, changed);
    assert_eq!(identity, fingerprint(42, "text/plain", &first));
    assert_ne!(identity, fingerprint(43, "text/plain", &first));
    assert_ne!(opaque_id(&identity), opaque_id(&changed));
    assert_ne!(entry_revision(&identity), entry_revision(&changed));
    assert!(entry_revision(&[u8::MAX; 32]) <= MAX_SAFE_JSON_INTEGER);
    assert!(inspect_entry(&reads(b"abc"), 2).is_err());
    assert!(inspect_entry(&reads(b"abc"), 4).is_err());
}

#[test]
fn identifiers_are_hexadecimal() {
    let mut fingerprint = [0u8; 32];
    fingerprint[0] = 0xab;
    fingerprint[15] = 0x01;
    assert_eq!(
        opaque_id(&fingerprint),
        "entry-ab000000000000000000000000000001"
    );
    assert_eq!(entry_revision(&[0; 32]), 1);
}

#[test]
fn tokens_differ_where_the_history_does() {
    let file = RingFileState {
        device: 1,
        inode: 2,
        size: 3,
        modified_seconds: 4,
        modified_nanoseconds: 5,
        changed_seconds: 6,
        changed_nanoseconds: 7,
    };
    let token = history_token_from_parts(1, 2, 3, 4, file, file);
    assert_eq!(token, history_token_from_parts(1, 2, 3, 4, file, file));
    assert_ne!(token, history_token_from_parts(2, 1, 3, 4, file, file));
}

const UUID: &str = "6f2c1a52-3f0e-4c55-9d5a-0f8f7d1f7b1e";

fn generated(number: u8) -> String {
    format!("/pictures/clipboard-{}{number}.png", &UUID[..35])
}

fn registry() -> ArtifactRegistry {
    ArtifactRegistry::load(Some("/pictures".to_owned()), vec![], vec![])
}

#[test]
fn annotation_echoes_match_duplicates_but_not_the_replacement_source() {
    let mut registry = ArtifactRegistry::load(None, vec![], vec![]);
    registry.register_inline_echo("replacement", "image/png", b"edited-image", 1);

    let echo = |registry: &ArtifactRegistry, entry: &str| {
        registry.match_inline_echo("image/png", b"edited-image", entry)
    };
    assert_eq!(echo(&registry, "captured-echo"), Some("replacement".into()));
    assert_eq!(echo(&registry, "replacement"), None);

    let saved = registry
        .saved_echoes()
        .iter()
        .map(|record| InlineEchoRecord {
            source_entry_id: record.source_entry_id.clone(),
            image_identity: record.image_identity.clone(),
            created_at: record.created_at,
        })
        .collect();
    let restored = ArtifactRegistry::load(None, vec![], saved);
    assert_eq!(echo(&restored, "captured-echo"), Some("replacement".into()));
    assert_eq!(echo(&restored, "replacement"), None);

    let large = vec![7; INSPECTION_LIMIT + 10];
    registry.register_inline_echo("large-replacement", "image/png", &large, 2);
    let matched =
        registry.match_inline_echo("image/png", &large[..INSPECTION_LIMIT], "large-echo");
    assert_eq!(matched, Some("large-replacement".into()));
    assert_eq!(registry.saved_echoes().len(), 2);
}

#[test]
fn all_uri_references_are_retained_beyond_preview_and_file_limits() {
    let mut registry = registry();
    let paths: Vec<_> = (0..3).map(generated).collect();
    for path in &paths {
        registry
            .register(path, "source", "image/png", b"image", 0)
            .unwrap();
    }
    registry.clear_active_selection();
    let mut payload = "# ignored comment\n".repeat(5000);
    for path in &paths[..2] {
        payload.push_str(&format!("file://{path}\r\n"));
    }
    let referenced = registry.references_in(payload.as_bytes());
    assert_eq!(referenced.len(), 2);
    let deleted = registry.reconcile(&set_of(&referenced), 1_000);
    assert_eq!(deleted, [paths[2].clone()]);
    assert!(registry.prune(&deleted[0], Deletion::Deleted));
    let uninspectable = vec![b'x'; 40_000];
    assert_eq!(registry.references_in(&uninspectable[..]).len(), 2);
}

#[test]
fn cleanup_removes_only_registered_unreferenced_files() {
    let generated = generated(1);
    let mut registry = registry();
    assert!(registry
        .register("/pictures/unrelated.png", "entry-source", "image/png", b"image", 0)
        .is_err());
    registry
        .register(&generated, "entry-source", "image/png", b"image", 0)
        .unwrap();
    let empty = set_of(&vec![]);
    registry.clear_active_selection();
    assert!(registry.reconcile(&empty, 59).is_empty()); // grace period
    registry.activate_if_generated(&generated);
    assert!(registry.reconcile(&empty, 1_000).is_empty()); // active selection
    registry.clear_active_selection();
    let referenced = set_of(&vec![generated.clone()]);
    assert!(registry.reconcile(&referenced, 1_000).is_empty());
    assert_eq!(registry.reconcile(&empty, 1_000), [generated.clone()]);
    assert!(registry.prune(&generated, Deletion::Deleted));
    assert!(registry.saved_records().is_empty());

    // Failed deletions stay registered for retry; missing files are forgotten.
    registry
        .register(&generated, "source", "image/png", b"image", 0)
        .unwrap();
    assert_eq!(registry.clear_all(0), [generated.clone()]);
    assert!(!registry.prune(&generated, Deletion::Failed));
    assert_eq!(registry.saved_records().len(), 1);
    assert!(!registry.prune(&generated, Deletion::Missing));
    assert!(registry.saved_records().is_empty());
}

fn probe(exists: bool, regular: bool, image: Option<(u32, u32)>) -> FileProbe {
    FileProbe {
        exists,
        regular,
        size: 100,
        image: image.map(|(width, height)| ProbedImage {
            mime: "image/png".into(),
            dimensions: ImageMetadata { width, height },
        }),
    }
}

#[test]
fn a_single_local_image_file_can_supply_preview_dimensions() {
    let uri = "file:///pictures/screen%20shot.png";
    let inspect = |mime: &str, value: &str, probes: &[FileProbe]| {
        ResolvedContent::resolve(mime, value.as_bytes(), 1024 * 1024, probes)
    };
    let uri_list = format!("{uri}\r\n");
    let paths = ResolvedContent::paths_to_probe("text/uri-list", uri_list.as_bytes());
    assert_eq!(paths, [Some(b"/pictures/screen shot.png".to_vec())]);
    let image = || [probe(true, true, Some((7, 5)))];
    let content = inspect("text/uri-list", &uri_list, &image());
    let source = content.local_image().expect("local image source");
    assert_eq!(source.path, b"/pictures/screen shot.png");
    assert_eq!(source.mime, "image/png");
    assert_eq!((source.dimensions.width, source.dimensions.height), (7, 5));
    assert_eq!(content.kind(), EntryKind::Image);
    let plain = inspect("text/plain", &format!("{uri}\n"), &image());
    assert_eq!(plain.kind(), EntryKind::Image);
    let multiple = inspect(
        "x-special/gnome-copied-files",
        &format!("cut\n{uri}\n{uri}\n"),
        &[
            probe(true, true, Some((7, 5))),
            probe(true, true, Some((7, 5))),
        ],
    );
    assert!(multiple.local_image().is_none());
    assert_eq!(multiple.files().len(), 2);
    assert_eq!(multiple.files()[0].operation, "cut");
    assert_eq!(multiple.files()[0].display_name, "screen shot.png");
    assert!(inspect("text/uri-list", "not a uri", &[]).files().is_empty());
    // A link is no regular file.
    let link = inspect("text/uri-list", &uri_list, &[probe(true, false, Some((7, 5)))]);
    assert!(link.local_image().is_none());
}

#[test]
fn an_image_is_known_by_its_content() {
    let image = png(7, 5);
    let content = ResolvedContent::resolve("application/octet-stream", &image, 1024, &[]);
    assert_eq!(content.kind(), EntryKind::Image);
    assert_eq!(content.mime(), "image/png");
    let size = content.image_metadata().unwrap();
    assert_eq!((size.width, size.height), (7, 5));
}

#[test]
fn edited_images_must_fully_decode() {
    let valid = png(2, 2);
    let malformed = b"\x89PNG\r\n\x1a\n".to_vec();
    let check = |regular: bool, content: &[u8]| {
        valid_edited_image(regular, content.len() as u64, content, MAX_THUMBNAIL_BYTES)
    };
    assert!(check(true, &valid));
    assert!(!check(true, &malformed));
    for format in [ImageFormat::Jpeg, ImageFormat::Gif, ImageFormat::Bmp] {
        assert!(!check(true, &encoded(2, 2, format)), "{format:?}");
    }
    assert!(!check(false, &valid));
    assert!(!valid_edited_image(true, 5, &valid, 4));
}

#[test]
fn comparison_is_complete_bounded_and_does_not_move_the_input_cursor() {
    let value = vec![b'x'; 40000];
    assert!(equal_candidate(&value, &value, value.len() as u64, &mut 50000));
    let mut changed = value.clone();
    changed[39999] = b'y';
    assert!(!equal_candidate(&changed, &value, value.len() as u64, &mut 50000));
    let mut budget = 10;
    assert!(!equal_candidate(&value, &value, value.len() as u64, &mut budget));
    assert_eq!(budget, 0);
    assert!(!equal_candidate(
        &value[..100],
        &value,
        value.len() as u64,
        &mut 50000
    ));
}

#[test]
fn an_equal_entry_is_found_by_size_mime_and_content() {
    let mut search = CandidateSearch::new("text/plain", b"same".to_vec(), 4);
    let entry = |raw_id: u64, mime: &str, content: &[u8]| Candidate {
        raw_id,
        size: content.len() as u64,
        mime: Ok(mime.to_owned()),
        content: content.to_vec(),
    };
    assert!(matches!(
        search.consider(entry(1, "", b"other")),
        Ok(Verdict::GoOn)
    ));
    assert!(matches!(
        search.consider(entry(2, "image/png", b"same")),
        Ok(Verdict::GoOn)
    ));
    assert!(matches!(
        search.consider(entry(3, "", b"sole")),
        Ok(Verdict::GoOn)
    ));
    // Plain text is stored without a MIME type.
    assert!(matches!(
        search.consider(entry(4, "", b"same")),
        Ok(Verdict::Found(4))
    ));
    assert!(search
        .consider(Candidate {
            raw_id: 5,
            size: 4,
            mime: Err(BackendError::not_found("gone")),
            content: vec![],
        })
        .is_err());
    search.budget = 2;
    assert!(matches!(
        search.consider(entry(6, "", b"same")),
        Ok(Verdict::GiveUp)
    ));
    let window = candidate_window(&(0..20).collect(), &(100..3000).collect());
    assert_eq!(window.len(), 16 + 2048);
    assert_eq!(window[16], 100);
}

#[test]
fn captures_are_handed_over_under_the_limit_of_the_engine() {
    let limits = EngineLimits {
        max_entries: 1,
        max_favorites: 1,
        max_entry_bytes: Some(65536),
    };
    assert_eq!(ready(&limits, 65536), Ok(()));
    assert_eq!(
        ready(&limits, 65537),
        Err("Capture limit does not match the running policy engine".to_owned())
    );
    let exchange = ingest_request(b"x", "text/plain", None).unwrap().unwrap();
    let greeting = [exchange.greeting()];
    let packet = exchange.negotiated(&greeting).unwrap();
    assert_eq!(&packet[..4], b"CDP1");
    assert_eq!(&packet[5..13], &u64::MAX.to_le_bytes());
    assert!(exchange.negotiated(&[0]).is_err());
    assert!(ingest_request(b"x", &"m".repeat(300), Some(1)).unwrap().is_err());
}

#[test]
fn only_one_terminal_path_can_claim_an_operation() {
    let mut operations = Operations::new();
    operations
        .launch("operation-1".into(), "annotate", vec![])
        .unwrap();
    assert!(operations.claim_terminal_event("operation-1").is_some());
    assert!(operations.claim_terminal_event("operation-1").is_none());
}

#[test]
fn annotation_cancellation_removes_files_and_emits_one_terminal_event() {
    let mut operations = Operations::new();
    operations
        .launch("cancel-me".into(), "annotate", vec!["staged.png".into()])
        .unwrap();
    let cancelled = operations.cancel_operation("cancel-me").unwrap();
    assert!(operations.cancel_operation("cancel-me").is_none());
    assert_eq!(cancelled.event.status, "cancelled");
    assert_eq!(cancelled.event.id, "cancel-me");
    assert_eq!(cancelled.event.message, "Image edit cancelled");
    assert_eq!(cancelled.files, ["staged.png"]);
    assert!(operations.claim_terminal_event("cancel-me").is_none());
    assert!(operations.active().is_empty());
}

#[test]
fn cleanup_waits_for_a_blocking_commit_and_keeps_its_real_outcome() {
    let mut operations = Operations::new();
    operations
        .launch("committing".into(), "annotate", vec!["staged.png".into()])
        .unwrap();
    assert!(operations.begin_commit("committing"));
    assert!(operations.cancel_operation("committing").is_none());
    assert_eq!(operations.active(), ["committing"]);
    let files = operations.claim_terminal_event("committing").unwrap();
    assert_eq!(files, ["staged.png"]);
    let event = OperationCompletion {
        message: "Committed".into(),
        warning: None,
    }
    .event("committing".into(), "annotate");
    assert_eq!(event.status, "completed");
    assert!(operations.active().is_empty());
}

#[test]
fn regions_are_bounded_and_canonical() {
    assert_eq!(
        parse_geometry("-1920,0 1920x1080\n").unwrap(),
        "-1920,0 1920x1080"
    );
    for value in [
        "",
        "0,0 0x1",
        "0,0 16384x16384",
        "0,0 1x1; rm -rf /",
        "2147483648,0 1x1",
        "0,0 -1x1",
    ] {
        assert!(parse_geometry(value).is_err(), "{value}");
    }
}

#[test]
fn selector_cancellation_never_becomes_full_screen_capture() {
    assert!(region_selection(b"", Some(1)).unwrap().is_none());
    assert!(region_selection(b"garbage", Some(0)).is_err());
    assert!(region_selection("x".repeat(129).as_bytes(), Some(0)).is_err());
    assert!(region_selection(b"0,0 1x1", None).is_err());
    let error = region_selection(b"\xff", Some(0)).unwrap_err();
    assert!(error.message().contains("utf-8"), "{}", error.message());
    let job = ScreenshotJob::new(InteractiveScreenshot {
        mode: ScreenshotMode::Region,
        annotate: false,
    });
    let job = job.capture(CaptureEvent::Selected(None));
    assert!(matches!(job.action, CaptureAction::Finished(Ok(false))));
}

#[test]
fn requests_reject_unknown_modes_and_fields() {
    assert!(ScreenshotMode::parse("region").is_some());
    assert!(ScreenshotMode::parse("window").is_none());
}

#[test]
fn screenshot_commands_are_bounded() {
    assert_eq!(
        region_grabbed(Grab::TimedOut).unwrap_err().message(),
        "Screenshot capture timed out"
    );
    assert!(region_grabbed(Grab::Ended(true)).is_ok());
    assert!(region_grabbed(Grab::Ended(false)).is_err());
}

fn stored(raw_id: u64, bytes: &[u8], mime: &str) -> StoredEntry {
    StoredEntry {
        raw_id,
        favorite: false,
        byte_size: bytes.len() as u64,
        mime: mime.to_owned(),
        reads: reads(bytes),
    }
}

fn no_file() -> LocalFile {
    LocalFile {
        regular: false,
        size: 0,
        content: None,
    }
}

#[test]
fn an_entry_is_summarized_from_all_of_it() {
    let mut registry = registry();
    registry.register_inline_echo("source", "image/png", &png(3, 3), 1);
    let backend = RingboardBackend::new(registry);
    let text = backend
        .summarize(&stored(1, b"hello", ""), &[], &no_file())
        .unwrap();
    assert_eq!(text.summary.kind, EntryKind::Text);
    assert_eq!(text.summary.preview, "hello");
    assert_eq!(
        text.summary.id,
        opaque_id(&entry_fingerprint(
            1,
            5,
            &text.summary.mime,
            &content_digest(b"hello")
        ))
    );
    assert_eq!(text.echo_source_id, None);
    let echo = backend
        .summarize(&stored(2, &png(3, 3), "image/png"), &[], &no_file())
        .unwrap();
    assert_eq!(echo.echo_source_id, Some("source".to_owned()));
    let mut short = stored(3, b"hello", "");
    short.byte_size = 6;
    let error = backend.summarize(&short, &[], &no_file()).err().unwrap();
    assert_eq!(error.kind, BackendErrorKind::Stale);
}

#[test]
fn a_history_is_read_around_broken_entries_but_not_around_an_outage() {
    let read = |id: &str| EntryRead::Summarized(candidate(0, id, false).resolved);
    let broken = EntryRead::Failed(BackendError::new(BackendErrorKind::InvalidData, "broken"));
    let history = load_projection(Some(1), vec![(1, read("a")), (2, broken), (3, read("c"))]).unwrap();
    assert_eq!(history.candidates.len(), 2);
    assert!(!history.complete);
    let panicked = load_projection(None, vec![(1, EntryRead::Panicked)]).unwrap();
    assert!(panicked.candidates.is_empty() && !panicked.complete);
    let outage = EntryRead::Failed(BackendError::unavailable("down"));
    let error = load_projection(None, vec![(1, read("a")), (2, outage)])
        .err()
        .unwrap();
    assert_eq!(error.message(), "down");
}

#[test]
fn queries_are_answered_from_one_state_of_the_history() {
    let mut backend = RingboardBackend::new(registry());
    let nothing = set_of(&vec![]);
    let request = query("", 0, 1, false);
    let history = || CachedProjection {
        current_id: None,
        complete: true,
        candidates: vec![candidate(1, "one", false), candidate(2, "two", false)],
    };
    assert!(backend.cached_projection(&request, &nothing, 5).is_none());
    let error = backend
        .collect_query_projection(&request, &nothing, 5, 6, history())
        .err()
        .unwrap();
    assert_eq!(error.kind, BackendErrorKind::Stale);
    let shown = backend
        .collect_query_projection(&request, &nothing, 5, 5, history())
        .unwrap();
    assert!(backend.reconcile_projection(&shown, 0).is_empty());
    let page = backend.finalize_query(&request, 5, shown);
    assert_eq!(page.revision, 1);
    assert!(page.has_more);
    assert_eq!(page.next_offset, Some(1));
    assert!(backend.cached_projection(&request, &nothing, 5).is_some());
    assert!(backend.cached_projection(&request, &nothing, 7).is_none());

    let binding = backend.resolve("one").unwrap();
    assert_eq!(
        binding,
        IdentityBinding {
            raw_id: 1,
            revision: 1
        }
    );
    assert!(backend
        .verify_selection("one", Some(1), binding, &summary("one"))
        .is_ok());
    let error = backend
        .verify_selection("one", Some(2), binding, &summary("one"))
        .unwrap_err();
    assert_eq!(
        error.message(),
        "Clipboard entry revision changed before the operation"
    );
    assert!(backend.resolve("one").is_err());
    let error = backend
        .verify_selection("two", None, binding, &summary("reused"))
        .unwrap_err();
    assert_eq!(
        error.message(),
        "Clipboard entry ID is stale or has been reused"
    );
}

#[test]
fn details_are_bounded() {
    let details = entry_details(summary("one"), b"abcdef", 5, &[]);
    assert_eq!(details.text, Some("abcde".to_owned()));
    assert!(details.preview_truncated);
    let details = entry_details(summary("one"), b"abcde", 5, &[]);
    assert!(!details.preview_truncated);
    let binary = entry_details(summary("one"), b"\xff", 5, &[]);
    assert_eq!(binary.text, None);
}

#[test]
fn the_store_tells_whether_it_can_be_read() {
    assert!(status(Ok(())).available);
    let down = status(Err(BackendError::unavailable("Ringboard history is unavailable")));
    assert!(!down.available);
    assert_eq!(down.detail, "Ringboard history is unavailable");
    assert_eq!(stored_mime_type(Ok(None)).unwrap(), "");
    assert_eq!(
        stored_mime_type(Ok(Some(b"image/png".to_vec()))).unwrap(),
        "image/png"
    );
    assert!(stored_mime_type(Ok(Some(vec![0xff]))).is_err());
    assert!(stored_mime_type(Err(())).is_err());
}

#[test]
fn image_files_are_probed_by_their_content() {
    let image = probe_image(&encoded(7, 5, ImageFormat::Bmp)).unwrap();
    assert_eq!(image.mime, "image/bmp");
    assert_eq!((image.dimensions.width, image.dimensions.height), (7, 5));
    assert!(probe_image(b"text").is_none());
    assert!(probe_image(b"\x89PNG\r\n\x1a\n").is_none());
    // An edge that no decoder here accepts.
    assert!(probe_image(&png(16_385, 1)).is_none());
}

#[test]
fn thumbnails_are_png_images_that_fit_their_edge() {
    let source = encoded(200, 100, ImageFormat::Bmp);
    let (thumbnail, width, height) = thumbnail_of_image(&source, 64).unwrap();
    assert_eq!((width, height), (64, 32));
    assert_eq!(probe_image(&thumbnail).unwrap().mime, "image/png");
    assert_eq!(cached_dimensions(&thumbnail), Some((64, 32)));
    // The edge is at least 32 and at most 1024 pixels.
    assert_eq!(thumbnail_of_image(&source, 1).unwrap().1, 32);
    assert_eq!(thumbnail_of_image(&png(2000, 10), 5000).unwrap().1, 1024);
    let error = thumbnail_of_image(b"text", 64).unwrap_err();
    assert_eq!(error.kind, BackendErrorKind::InvalidData);
    assert_eq!(error.message(), "Clipboard image could not be decoded");
    assert!(thumbnail_of_image(&png(16_385, 1), 64).is_err());
    assert!(cached_dimensions(b"").is_none());
}

#[test]
fn entries_are_looked_through_to_their_end() {
    let history = CachedProjection {
        current_id: None,
        complete: true,
        candidates: vec![
            candidate(1, "late", false),
            candidate(2, "image", false),
            candidate(3, "binary", false),
            candidate(4, "unread", false),
        ],
    };
    let text = format!("{}Late ΟΔΟΣ", "x".repeat(100_000));
    let binary = [text.as_bytes(), b"\xff"].concat();
    let found = |query: &str| {
        let mut search = TextSearch::new(query);
        for (raw_id, id) in search.wanted(&history) {
            let content = if raw_id == 3 { &binary[..] } else { text.as_bytes() };
            let mut scan = search.begin();
            for chunk in content.chunks(7_001) {
                search.push(&mut scan, chunk);
            }
            search.finish(&id, scan, raw_id != 4);
        }
        let request = self::query(query, 0, 10, false);
        let page = history.project_found(&request, search.texts());
        page.entries
            .iter()
            .map(|entry| entry.id.clone())
            .collect::<Vec<_>>()
    };
    assert_eq!(found(" late "), ["late", "image"]);
    assert_eq!(found("ΟΔΟΣ"), ["late", "image"]);
    assert!(found("absent").is_empty());
    // What is shown matches, so that nothing is looked through.
    assert!(TextSearch::new("IMAGE").wanted(&history).is_empty());
    assert_eq!(found("image").len(), 4);
}

#[test]
fn a_started_operation_says_so() {
    let operation = OperationResult::started("annotate", "Image editor started");
    assert_eq!(operation.status, "started");
    assert_eq!(operation.action, "annotate");
    assert_eq!(operation.clone(), operation);
    assert_ne!(
        OperationResult::started("annotate", "Image editor started").id,
        operation.id
    );
}

#[test]
fn the_files_of_an_entry_are_found_in_its_beginning() {
    let mut entry = StoredEntry {
        raw_id: 1,
        favorite: false,
        byte_size: 24,
        mime: "text/uri-list".into(),
        reads: reads(b"file:///a.png\r\nfile:///b"),
    };
    assert_eq!(
        entry.paths_to_probe(),
        [Some(b"/a.png".to_vec()), Some(b"/b".to_vec())]
    );
    entry.reads = vec![Read::Data(b"file:///a.png\r\n".to_vec()), Read::Failed];
    assert!(entry.paths_to_probe().is_empty());
}
