use clip_daemon::actions::{
    local_path, open_url, ActionParams, ApiError, EntryParams, Launch, LaunchCommand,
    LaunchOutcome, PublishFilesParams, QueryParams,
};
use clip_daemon::api::{
    ask_store, failed_call, route, ApiAction, ApiEvent, ApiService, Data, Pending, Request, StoreCall,
    CHALLENGE_TTL,
};
use clip_daemon::backend::{
    BackendError, BackendErrorKind, ClipboardBackend, EntryTarget, HistoryQuery, InteractiveScreenshot,
    ScreenshotMode, ScreenshotRegion,
};
use clip_daemon::fake::FakeBackend;
use clip_daemon::history_search::{Cursor, CursorScope, HistorySearch};
use clip_daemon::model::{EntryDetails, EntryKind, EntrySummary, FilePreview};
use clip_daemon::ringboard::ipc::EngineLimits;
use clip_daemon::session::Target;
use clip_daemon::settings::{
    Action, ClipboardSettings, Event, SettingsManager, SettingsUpdate,
};
use hmac::{Hmac, Mac};

fn entry(id: &str, kind: EntryKind, text: Option<&str>) -> EntryDetails {
    EntryDetails {
        entry: EntrySummary {
            id: id.into(),
            revision: 1,
            kind,
            mime: if kind == EntryKind::Image {
                "image/png"
            } else {
                "text/plain"
            }
            .into(),
            byte_size: 4,
            favorite: false,
            current: false,
            preview: text.unwrap_or("binary").into(),
        },
        text: text.map(str::to_owned),
        files: vec![],
        image: None,
        preview_truncated: false,
    }
}

/// A service with what is around it.
struct Daemon {
    api: ApiService,
    store: FakeBackend,
    capture: Result<bool, String>,
    limits: EngineLimits,
    exists: bool,
    launched: Vec<LaunchCommand>,
    /// The store cannot do anything with entries.
    failing: bool,
    now: u64,
}

fn daemon(entries: Vec<EntryDetails>) -> Daemon {
    let settings = ClipboardSettings::default();
    Daemon {
        api: ApiService::new(SettingsManager::new(Ok(settings)), [7; 16]),
        store: FakeBackend::with_entries(entries),
        capture: Ok(false),
        limits: EngineLimits {
            max_entries: settings.max_entries,
            max_favorites: settings.max_favorites,
            max_entry_bytes: Some(settings.max_entry_bytes),
        },
        exists: false,
        launched: vec![],
        failing: false,
        now: 1_000,
    }
}

impl Daemon {
    fn call(&mut self, request: Request) -> Result<Data, ApiError> {
        self.call_as(request, None)
    }

    fn call_as(&mut self, request: Request, owner: Option<&str>) -> Result<Data, ApiError> {
        let owner = owner.map(str::to_owned);
        let begun = self.api.dispatch_owned(request, owner, self.now);
        self.finish(begun)
    }

    fn finish(&mut self, begun: (Pending, ApiAction)) -> Result<Data, ApiError> {
        let (mut pending, mut action) = begun;
        loop {
            let event = match action {
                ApiAction::Done(result) => return result,
                ApiAction::Store(StoreCall::Mutate { .. }) if self.failing => {
                    ApiEvent::Operation(Err(BackendError::unavailable("No compositor")))
                }
                ApiAction::Store(call) => ask_store(&mut self.store, call),
                ApiAction::Limits => ApiEvent::Limits(Ok(self.limits)),
                ApiAction::Exists(_) => ApiEvent::Exists(self.exists),
                ApiAction::Launch(command) => {
                    self.launched.push(command);
                    ApiEvent::Launched(LaunchOutcome::Launched)
                }
                ApiAction::Rank(items) => ApiEvent::Ranked(Some(
                    items
                        .iter()
                        .filter(|item| item.title.starts_with("Caf"))
                        .map(|item| item.key.clone())
                        .collect(),
                )),
                ApiAction::Settings(action) => ApiEvent::Settings(match action {
                    Action::Save { .. } | Action::Restart => Event::Done(Ok(())),
                    Action::Limits => Event::Limits(Ok(self.limits)),
                    Action::Control { paused, .. } => match &self.capture {
                        Ok(_) => {
                            self.capture = Ok(paused);
                            Event::Done(Ok(()))
                        }
                        Err(message) => Event::Done(Err(message.clone())),
                    },
                    Action::Verify => Event::Paused(self.capture.clone()),
                    Action::Done(_) => unreachable!(),
                }),
            };
            (pending, action) = self.api.resume(pending, event, self.now);
        }
    }

    fn code(&mut self, request: Request) -> String {
        match self.call(request) {
            Ok(_) => "ok".to_owned(),
            Err(error) => error.code,
        }
    }

    fn operation(&mut self, request: Request) -> (String, String) {
        match self.call(request) {
            Ok(Data::Operation(operation)) => (operation.action, operation.status),
            Ok(_) => panic!("not an operation"),
            Err(error) => panic!("{}", error.message),
        }
    }

    fn history(&mut self, params: QueryParams) -> (Vec<String>, Option<usize>) {
        match self.call(Request::Query(params)) {
            Ok(Data::History(page)) => (
                page.entries.iter().map(|entry| entry.id.clone()).collect(),
                page.next_offset,
            ),
            _ => panic!("not a page of the history"),
        }
    }

    fn challenge(&mut self) -> String {
        match self.call(Request::WipePrepare) {
            Ok(Data::Challenge { id }) => id,
            _ => panic!("not a challenge"),
        }
    }
}

fn wipe(challenge_id: &str) -> Request {
    Request::WipeCommit {
        challenge_id: challenge_id.to_owned(),
        response: "WIPE".to_owned(),
    }
}

#[test]
fn wipe_requires_a_verified_capture_fence_before_deleting_anything() {
    let mut daemon = daemon(vec![entry("keep", EntryKind::Text, Some("keep"))]);
    daemon.capture = Err("uncertain capture submission".into());
    let before = daemon.history(QueryParams::default());
    let challenge = daemon.challenge();
    assert_eq!(daemon.code(wipe(&challenge)), "settings-error");
    assert_eq!(daemon.history(QueryParams::default()), before);
    assert_eq!(before.0, ["keep"]);
}

#[test]
fn a_wipe_clears_edits_and_brings_the_capture_back() {
    let mut daemon = daemon(vec![entry("gone", EntryKind::Text, Some("gone"))]);
    let edit = match daemon.call(Request::EditBegin(EntryParams {
        entry_id: "gone".into(),
        revision: Some(1),
        edge: None,
    })) {
        Ok(Data::Edit(view)) => view.id,
        _ => panic!("not an edit"),
    };
    let challenge = daemon.challenge();
    assert_eq!(
        daemon.code(Request::WipeCommit {
            challenge_id: challenge.clone(),
            response: "wipe".into(),
        }),
        "validation-error"
    );
    assert_eq!(daemon.operation(wipe(&challenge)).0, "wipe");
    assert!(daemon.store.entries.is_empty());
    assert_eq!(daemon.capture, Ok(false));
    assert!(daemon.api.settings.capture_verified);
    assert_eq!(
        daemon.code(Request::EditCommit {
            edit_id: edit,
            value: "new".into(),
        }),
        "edit-error"
    );
    // A challenge is met once.
    assert_eq!(daemon.code(wipe(&challenge)), "stale-action");
    let late = daemon.challenge();
    daemon.now += CHALLENGE_TTL;
    match daemon.call(wipe(&late)) {
        Err(error) => assert_eq!(error.message, "wipe challenge expired"),
        Ok(_) => panic!("an expired challenge was met"),
    }
}

#[test]
fn concurrent_queries_observe_consistent_replacements_and_only_one_revision_wins() {
    let mut backend =
        FakeBackend::with_entries(vec![entry("one", EntryKind::Text, Some("seed"))]);
    let mut succeeded = 0;
    for index in 0..8 {
        match backend.replace(
            "one",
            1,
            "text/plain",
            format!("replacement-{index}").as_bytes(),
        ) {
            Ok(_) => succeeded += 1,
            Err(error) => assert_eq!(error.kind, BackendErrorKind::Stale),
        }
        let page = backend
            .query(HistoryQuery {
                query: String::new(),
                generation: 1,
                offset: 0,
                limit: 100,
                collapse_self_echoes: true,
            })
            .unwrap();
        assert_eq!(page.entries.len(), 1);
        let summary = &page.entries[0];
        assert_eq!(summary.byte_size, summary.preview.len() as u64);
        assert!((1..=2).contains(&summary.revision));
    }
    assert_eq!(succeeded, 1);
    assert_eq!(backend.revision("one").unwrap(), 2);
}

#[test]
fn native_search_uses_revision_bound_owner_scoped_cursors() {
    let mut daemon = daemon(vec![
        entry("one", EntryKind::Text, Some("Café one")),
        entry("two", EntryKind::Text, Some("Café two")),
        entry("three", EntryKind::Text, Some("Café three")),
    ]);
    let request = |cursor: Option<String>| {
        Request::Query(QueryParams {
            query: "cafee".into(),
            generation: 9,
            fuzzy: true,
            limit: 2,
            cursor,
            ..QueryParams::default()
        })
    };
    let found = |result: Result<Data, ApiError>| match result {
        Ok(Data::Found(page)) => page,
        Ok(_) => panic!("not a search"),
        Err(error) => panic!("{}", error.message),
    };
    let code = |result: Result<Data, ApiError>| match result {
        Ok(_) => panic!("a stale cursor was accepted"),
        Err(error) => error.code,
    };
    let first = found(daemon.call_as(request(None), Some(":1.1")));
    assert_eq!(first.total, 3);
    assert_eq!(first.entries[0].id, "one");
    assert!(first.has_more);
    let next = || request(first.next_cursor.clone());
    let second = found(daemon.call_as(next(), Some(":1.1")));
    assert_eq!(second.entries[0].id, "three");
    assert!(second.next_cursor.is_none());
    assert_eq!(code(daemon.call_as(next(), Some(":1.2"))), "stale-cursor");
    let restarted = ApiService::new(
        SettingsManager::new(Ok(ClipboardSettings::default())),
        [8; 16],
    );
    let running = std::mem::replace(&mut daemon.api, restarted);
    assert_eq!(code(daemon.call_as(next(), Some(":1.1"))), "stale-cursor");
    daemon.api = running;
    daemon
        .store
        .replace("one", 1, "text/plain", b"changed")
        .unwrap();
    assert_eq!(code(daemon.call_as(next(), Some(":1.1"))), "stale-cursor");
    let fresh = found(daemon.call(request(None)));
    assert_eq!(fresh.total, 2);
    assert_eq!(daemon.api.search.running, 0);
}

#[test]
fn cursors_bind_owner_query_generation_policy_and_process_lifetime() {
    let search = HistorySearch::with_key([1; 16]);
    let scope = CursorScope {
        query: "cafe",
        generation: 7,
        owner: Some(":1.2"),
        collapse: true,
    };
    let encode = |expires: u64| {
        search
            .encode(
                Cursor {
                    token: 9,
                    offset: 200,
                    expires,
                },
                scope,
            )
            .unwrap()
    };
    let cursor = encode(120);
    assert_eq!(search.decode(&cursor, scope, 0).unwrap().offset, 200);
    for changed in [
        CursorScope {
            query: "tea",
            ..scope
        },
        CursorScope {
            generation: 8,
            ..scope
        },
        CursorScope {
            owner: Some(":1.3"),
            ..scope
        },
        CursorScope {
            owner: None,
            ..scope
        },
        CursorScope {
            collapse: false,
            ..scope
        },
    ] {
        assert!(search.decode(&cursor, changed, 0).is_err());
    }
    assert!(HistorySearch::with_key([2; 16])
        .decode(&cursor, scope, 0)
        .is_err());
    assert!(search.decode(&encode(0), scope, 0).is_err());
    assert!(search.decode(&cursor, scope, 120).is_err());
    assert!(search
        .decode(&cursor.replace("200", "201"), scope, 0)
        .is_err());
    assert!(search.decode(&"x".repeat(513), scope, 0).is_err());
    assert!(search.decode("no tag", scope, 0).is_err());
}

#[test]
fn a_cursor_is_its_body_with_the_tag_of_its_scope() {
    let search = HistorySearch::with_key([3; 16]);
    let scope = CursorScope {
        query: "a\"b",
        generation: 1,
        owner: None,
        collapse: false,
    };
    let cursor = Cursor {
        token: 9,
        offset: 200,
        expires: 120,
    };
    let body = r#"{"token":9,"offset":200,"expires":120}"#;
    let message = r#"["{\"token\":9,\"offset\":200,\"expires\":120}","a\"b",1,null,false]"#;
    let mut mac = Hmac::<sha2::Sha256>::new_from_slice(&[3; 16]).unwrap();
    mac.update(message.as_bytes());
    let tag = hex::encode(mac.finalize().into_bytes());
    assert_eq!(
        search.encode(cursor, scope).unwrap(),
        format!("{body}|{tag}")
    );
}

#[test]
fn history_pagination_is_stable() {
    let mut daemon = daemon(vec![
        entry("one", EntryKind::Text, Some("one")),
        entry("two", EntryKind::Text, Some("two")),
        entry("three", EntryKind::Text, Some("three")),
    ]);
    let page = |offset: usize| QueryParams {
        generation: 9,
        offset,
        limit: 2,
        ..QueryParams::default()
    };
    let first = daemon.history(page(0));
    assert_eq!(first.0.len(), 2);
    assert_eq!(first.1, Some(2));
    let second = daemon.history(page(2));
    assert_eq!(second.0.len(), 1);
    assert!(second.1.is_none());
}

fn target(id: &str, revision: u64) -> EntryTarget {
    EntryTarget {
        opaque_id: id.into(),
        expected_revision: revision,
    }
}

#[test]
fn bulk_delete_validates_the_selection_before_removing_entries() {
    let mut daemon = daemon(vec![
        entry("one", EntryKind::Text, Some("one")),
        entry("two", EntryKind::Text, Some("two")),
        entry("three", EntryKind::Text, Some("three")),
    ]);
    let stale = daemon.code(Request::Delete(vec![target("one", 1), target("two", 99)]));
    assert_ne!(stale, "ok");
    assert_eq!(daemon.history(QueryParams::default()).0.len(), 3);

    let deleted = daemon.operation(Request::Delete(vec![target("one", 1), target("three", 1)]));
    assert_eq!(deleted.0, "delete-many");
    assert_eq!(daemon.history(QueryParams::default()).0, ["two"]);

    for targets in [
        vec![],
        vec![target("two", 1), target("two", 1)],
        vec![target("two", 99)],
        vec![target("", 1)],
        (0..5001).map(|_| target("two", 1)).collect(),
    ] {
        assert_ne!(daemon.code(Request::Delete(targets)), "ok");
    }
}

#[test]
fn text_publication_uses_the_daemon_operation_boundary() {
    let mut daemon = daemon(vec![]);
    let published = daemon.operation(Request::PublishText(
        "WIFI:T:WPA;S:Example;P:secret;;".into(),
    ));
    assert_eq!(published.0, "publish");
    assert_eq!(
        daemon.code(Request::PublishText("".into())),
        "validation-error"
    );
}

#[test]
fn validation_unknown_methods_and_wipe_challenges_are_stable() {
    let mut daemon = daemon(vec![]);
    let region = |width: u32, height: u32| {
        Request::Screenshot(ScreenshotRegion {
            x: 0,
            y: 0,
            width,
            height,
        })
    };
    for (request, code) in [
        (
            Request::Query(QueryParams {
                limit: 0,
                ..QueryParams::default()
            }),
            "validation-error",
        ),
        (
            Request::EditBegin(EntryParams {
                entry_id: "".into(),
                revision: None,
                edge: None,
            }),
            "validation-error",
        ),
        (region(0, 720), "validation-error"),
        (region(16385, 1), "validation-error"),
        (region(16384, 16384), "validation-error"),
        (
            Request::PublishFiles(PublishFilesParams {
                operation: "copy".into(),
                paths: vec!["relative.txt".into()],
            }),
            "validation-error",
        ),
        (
            Request::PublishFiles(PublishFilesParams {
                operation: "move".into(),
                paths: vec!["/tmp/one.txt".into()],
            }),
            "validation-error",
        ),
        (
            Request::Query(QueryParams {
                query: "x".repeat(4097),
                ..QueryParams::default()
            }),
            "validation-error",
        ),
        (
            Request::Query(QueryParams {
                query: "x".repeat(257),
                fuzzy: true,
                ..QueryParams::default()
            }),
            "validation-error",
        ),
    ] {
        assert_eq!(daemon.code(request), code);
    }
    assert_eq!(route("clipboard.nope").unwrap_err().code, "unsupported-method");
    let screenshot = daemon.operation(Request::Screenshot(ScreenshotRegion {
        x: -1280,
        y: 0,
        width: 1280,
        height: 720,
    }));
    assert_eq!(screenshot.0, "screenshot");
    assert_eq!(
        daemon.code(Request::Interactive(InteractiveScreenshot {
            mode: ScreenshotMode::Screen,
            annotate: false,
        })),
        "backend-unavailable"
    );

    let published = daemon.operation(Request::PublishFiles(PublishFilesParams {
        operation: "cut".into(),
        paths: vec!["/tmp/one.txt".into(), "/tmp/two.txt".into()],
    }));
    assert_eq!(published.0, "publish-files");

    let publish = |content: Vec<u8>| Request::Publish {
        mime: "image/png".into(),
        content,
    };
    assert_eq!(daemon.operation(publish(vec![1, 2, 3, 4])).0, "publish");
    assert_eq!(daemon.code(publish(vec![])), "validation-error");

    let challenge = daemon.challenge();
    assert_eq!(daemon.operation(wipe(&challenge)).0, "wipe");
}

fn action(id: &str, revision: u64, name: &str, session_id: Option<&str>) -> Request {
    Request::Action(ActionParams {
        entry_id: id.into(),
        revision,
        action: name.into(),
        session_id: session_id.map(str::to_owned),
        file_index: None,
    })
}

#[test]
fn edit_and_type_action_policy_are_daemon_enforced() {
    let mut daemon = daemon(vec![
        entry("text", EntryKind::Text, Some("old")),
        entry("link", EntryKind::Link, Some("not a URL")),
        entry("image", EntryKind::Image, None),
        entry("binary", EntryKind::Binary, None),
    ]);
    let edit_id = match daemon.call(Request::EditBegin(EntryParams {
        entry_id: "text".into(),
        revision: Some(1),
        edge: None,
    })) {
        Ok(Data::Edit(view)) => view.id,
        _ => panic!("not an edit"),
    };
    match daemon.call(Request::EditCommit {
        edit_id,
        value: "new".into(),
    }) {
        Ok(Data::Replaced(result)) => {
            assert_eq!(result.entry.text, Some("new".to_owned()));
            assert!(result.selection_published);
        }
        _ => panic!("not a replacement"),
    }
    assert_eq!(
        daemon.code(action("binary", 1, "paste", None)),
        "validation-error"
    );
    assert_eq!(
        daemon.code(action("link", 1, "open-url", None)),
        "invalid-entry"
    );
    assert_eq!(
        daemon.code(action("text", 2, "edit-external", None)),
        "validation-error"
    );
    assert_eq!(
        daemon.code(action("image", 1, "image-as-file", None)),
        "validation-error"
    );

    let session_id = match daemon.call(Request::SessionBegin { target: None }) {
        Ok(Data::Session(view)) => view.id,
        _ => panic!("not a session"),
    };
    for name in ["paste", "image-as-file"] {
        let told = daemon.operation(action("image", 1, name, Some(&session_id)));
        assert_eq!(told.0, name);
        assert!(told.1 == "completed" || told.1 == "paste-prepared");
    }
    assert_eq!(
        daemon.code(action("text", 1, "copy", None)),
        "stale-entry"
    );
}

#[test]
fn a_paste_is_armed_only_by_a_publication() {
    let mut daemon = daemon(vec![
        entry("text", EntryKind::Text, Some("x")),
        entry("image", EntryKind::Image, None),
    ]);
    let window = || Target {
        address: "0x1".into(),
        class: "firefox".into(),
    };
    let begin = |daemon: &mut Daemon| match daemon.call(Request::SessionBegin {
        target: Some(window()),
    }) {
        Ok(Data::Session(view)) => view.id,
        _ => panic!("not a session"),
    };
    let hide = |daemon: &mut Daemon, id: &str| match daemon.call(Request::SessionHidden {
        session_id: id.to_owned(),
    }) {
        Ok(Data::Hidden(hidden)) => hidden.paste.is_some(),
        _ => panic!("not hidden"),
    };
    let session = begin(&mut daemon);
    assert_eq!(daemon.code(action("missing", 1, "paste", Some(&session))), "entry-not-found");
    assert!(!hide(&mut daemon, &session));
    let session = begin(&mut daemon);
    assert_eq!(
        daemon.operation(action("text", 1, "paste", Some(&session))).1,
        "paste-prepared"
    );
    assert!(hide(&mut daemon, &session));
    assert_eq!(
        daemon.code(Request::SessionHidden {
            session_id: session.clone()
        }),
        "stale-target"
    );
    assert_eq!(
        daemon.code(action("text", 1, "paste", Some(&session))),
        "stale-target"
    );
    // What was pasted before is not pasted in place of what could not be published.
    let session = begin(&mut daemon);
    for name in ["paste", "image-as-file"] {
        daemon.failing = false;
        daemon.operation(action("text", 1, "paste", Some(&session)));
        daemon.failing = true;
        let kind = if name == "paste" { "text" } else { "image" };
        assert_eq!(
            daemon.code(action(kind, 1, name, Some(&session))),
            "backend-unavailable"
        );
    }
    assert!(!hide(&mut daemon, &session));
}

#[test]
fn actions_reach_the_store_under_their_own_name() {
    let mut daemon = daemon(vec![entry("text", EntryKind::Text, Some("x"))]);
    assert_eq!(
        daemon.operation(action("text", 1, "pin-current", None)).0,
        "pin-current"
    );
    assert!(daemon.store.entries[0].entry.favorite);
    assert_eq!(
        daemon.operation(action("text", 1, "unfavorite", None)).0,
        "unfavorite"
    );
    assert!(!daemon.store.entries[0].entry.favorite);
    assert_eq!(daemon.operation(action("text", 1, "delete", None)).0, "delete");
    assert!(daemon.store.entries.is_empty());
}

#[test]
fn details_and_thumbnails_are_of_the_revision_that_was_seen() {
    let mut daemon = daemon(vec![entry("text", EntryKind::Text, Some("x"))]);
    let params = |revision: Option<u64>| EntryParams {
        entry_id: "text".into(),
        revision,
        edge: None,
    };
    assert_eq!(daemon.code(Request::Details(params(Some(1)))), "ok");
    assert_eq!(daemon.code(Request::Details(params(Some(2)))), "stale-entry");
    assert_eq!(
        daemon.code(Request::Thumbnail(params(Some(2)))),
        "stale-entry"
    );
    match daemon.call(Request::Thumbnail(params(None))) {
        Err(error) => assert_eq!(error.message, "No thumbnail fixture for text"),
        Ok(_) => panic!("there is no thumbnail"),
    }
}

fn file(uri: &str) -> FilePreview {
    FilePreview {
        display_name: "a".into(),
        uri: uri.into(),
        exists: false,
        operation: "copy".into(),
    }
}

#[test]
fn only_local_file_uris_are_resolved() {
    let local = file("file:///tmp/a");
    let remote = file("https://example.test/a");
    assert_eq!(local_path(&local).unwrap(), b"/tmp/a");
    assert!(local_path(&remote).is_err());
}

#[test]
fn only_web_addresses_are_opened() {
    assert_eq!(
        open_url("  https://Example.test/a b ").unwrap(),
        Launch::Url("https://example.test/a%20b".into())
    );
    assert_eq!(
        open_url("file:///etc/passwd").unwrap_err().message,
        "Only HTTP and HTTPS URLs can be opened directly"
    );
    assert_eq!(open_url("nothing").unwrap_err().message, "URL is malformed");
}

#[test]
fn files_are_opened_where_they_exist() {
    let mut files = entry("files", EntryKind::Files, None);
    files.files = vec![file("file:///tmp/a%20b")];
    let mut daemon = daemon(vec![files]);
    assert_eq!(
        daemon.code(action("files", 1, "open-file", None)),
        "entry-not-found"
    );
    daemon.exists = true;
    assert_eq!(
        daemon.operation(action("files", 1, "open-file", None)).0,
        "open-file"
    );
    assert_eq!(
        daemon.operation(action("files", 1, "reveal-file", None)).0,
        "reveal-file"
    );
    assert_eq!(
        daemon.launched,
        [
            LaunchCommand::Spawn {
                program: "xdg-open".into(),
                argument: b"/tmp/a b".to_vec(),
            },
            LaunchCommand::ShowItems("file:///tmp/a%20b".into()),
        ]
    );
}

#[test]
fn settings_are_shown_with_what_is_in_force() {
    let mut daemon = daemon(vec![]);
    match daemon.call(Request::SetPaused {
        paused: true,
        private_mode: true,
    }) {
        Ok(Data::Paused { settings }) => assert!(settings.private_mode),
        _ => panic!("not paused"),
    }
    match daemon.call(Request::SettingsGet) {
        Ok(Data::Settings {
            settings,
            capture,
            retention,
        }) => {
            assert!(settings.capture_paused);
            assert_eq!(capture.paused, Some(true));
            assert!(retention.synchronized);
        }
        _ => panic!("not the settings"),
    }
    assert_eq!(
        daemon.code(Request::SettingsUpdate(SettingsUpdate {
            max_favorites: Some(5000),
            ..SettingsUpdate::default()
        })),
        "settings-error"
    );
    daemon.api.settings = SettingsManager::new(Err("broken".into()));
    assert_eq!(daemon.code(Request::SettingsGet), "settings-error");
    assert_eq!(
        daemon.code(Request::Query(QueryParams::default())),
        "settings-error"
    );
}

#[test]
fn raw_content_is_published_under_its_type() {
    let mut daemon = daemon(vec![]);
    let begun = daemon
        .api
        .publish_selection("image/png", vec![1, 2, 3], daemon.now);
    match daemon.finish(begun) {
        Ok(Data::Operation(operation)) => assert_eq!(operation.status, "completed"),
        _ => panic!("the content is not published"),
    }
    let begun = daemon
        .api
        .publish_selection("image/png", vec![], daemon.now);
    match daemon.finish(begun) {
        Err(error) => assert_eq!(error.code, "validation-error"),
        Ok(_) => panic!("nothing was published"),
    }
}

#[test]
fn the_first_entry_that_does_not_fit_decides_the_error() {
    let mut store = FakeBackend::with_entries(vec![entry("two", EntryKind::Text, Some("two"))]);
    let error = store
        .remove_many(&[target("two", 1), target("missing", 1), target("two", 99)])
        .unwrap_err();
    assert_eq!(error.kind, BackendErrorKind::NotFound);
    let error = store
        .remove_many(&[target("two", 99), target("missing", 1)])
        .unwrap_err();
    assert_eq!(error.kind, BackendErrorKind::Stale);
    assert_eq!(store.entries.len(), 1);
}

#[test]
fn unusable_settings_come_before_what_they_bound() {
    let broken = ApiService::new(SettingsManager::new(Err("unreadable".into())), [7; 16]);
    for name in [
        "clipboard.entry.nope",
        "clipboard.entry.action",
        "clipboard.entry.edit.begin",
        "clipboard.capture.screenshot",
    ] {
        assert_eq!(broken.method(name).unwrap_err().code, "settings-error", "{name}");
    }
    assert!(broken.method("clipboard.entry.details").is_ok());
    assert!(broken.method("clipboard.settings.get").is_ok());
    assert_eq!(
        broken.method("clipboard.nope").unwrap_err().code,
        "unsupported-method"
    );
    let sound = daemon(vec![]).api;
    assert!(sound.method("clipboard.entry.action").is_ok());
    assert_eq!(
        sound.method("clipboard.entry.nope").unwrap_err().code,
        "unsupported-method"
    );
}

#[test]
fn cursors_name_each_member_once() {
    let search = HistorySearch::with_key([3; 16]);
    let scope = CursorScope {
        query: "q",
        generation: 1,
        owner: None,
        collapse: false,
    };
    let read = |body: &str| {
        let message = format!("[\"{}\",\"q\",1,null,false]", body.replace('"', "\\\""));
        let mut mac = Hmac::<sha2::Sha256>::new_from_slice(&[3; 16]).unwrap();
        mac.update(message.as_bytes());
        let tag = hex::encode(mac.finalize().into_bytes());
        search.decode(&format!("{body}|{tag}"), scope, 0).ok()
    };
    let cursor = Some(Cursor {
        token: 9,
        offset: 200,
        expires: 120,
    });
    assert_eq!(read(r#"{"token":9,"offset":200,"expires":120}"#), cursor);
    assert_eq!(read(r#"{ "expires": 120, "token": 9, "offset": 200 }"#), cursor);
    assert_eq!(read("[9,200,120]"), cursor);
    assert_eq!(read(r#"{"token":9,"token":9,"offset":200,"expires":120}"#), None);
    assert_eq!(read(r#"{"token":9,"offset":200,"expires":120,"more":1}"#), None);
    assert_eq!(read(r#"{"token":9,"offset":200}"#), None);
    assert_eq!(read("[9,200,120,1]"), None);
    assert_eq!(read("[9,5000,120]"), None);
}

#[test]
fn a_link_is_opened_only_where_all_of_it_is_known() {
    let mut long = entry("link", EntryKind::Link, Some("https://example.test/a"));
    let mut daemon = daemon(vec![long.copy()]);
    assert_eq!(daemon.code(action("link", 1, "open-url", None)), "ok");
    assert_eq!(daemon.launched.len(), 1);
    long.preview_truncated = true;
    daemon.store = FakeBackend::with_entries(vec![long]);
    assert_eq!(
        daemon.code(action("link", 1, "open-url", None)),
        "invalid-entry"
    );
    assert_eq!(daemon.launched.len(), 1);
}

#[test]
fn a_call_that_cannot_be_made_fails_as_what_it_was() {
    let mut daemon = daemon(vec![]);
    let begun = daemon
        .api
        .dispatch(Request::Query(QueryParams::default()), daemon.now);
    let (pending, action) = begun;
    let ApiAction::Store(call) = action else {
        panic!("the store was not asked");
    };
    let event = failed_call(&call, BackendError::unavailable("gone"));
    let (_, action) = daemon.api.resume(pending, event, daemon.now);
    match action {
        ApiAction::Done(Err(error)) => assert_eq!(error.message, "gone"),
        _ => panic!("the query did not fail"),
    }
}
