use clip_daemon::editing::{EditManager, EDIT_TTL, MAX_EDIT_BYTES};
use clip_daemon::editor::ImageEditorCommand;
use clip_daemon::lease::{Leases, Taken};
use clip_daemon::model::{EntryDetails, EntryKind, EntrySummary};

fn details(kind: EntryKind, text: Option<&str>) -> EntryDetails {
    EntryDetails {
        entry: EntrySummary {
            id: "entry".into(),
            revision: 1,
            kind,
            mime: "text/plain".into(),
            byte_size: 4,
            favorite: false,
            current: true,
            preview: "test".into(),
        },
        text: text.map(str::to_owned),
        files: vec![],
        image: None,
        preview_truncated: false,
    }
}

#[test]
fn text_edits_are_one_use_and_binary_is_rejected() {
    let mut manager = EditManager::new();
    let edit = manager
        .begin(&details(EntryKind::Text, Some("old")), 0)
        .unwrap();
    let commit = manager.commit(&edit.id, "new".into(), 1).unwrap();
    assert_eq!(commit.value, "new");
    assert!(manager.commit(&edit.id, "again".into(), 1).is_err());
    assert!(manager
        .begin(&details(EntryKind::Binary, None), 1)
        .is_err());
}

#[test]
fn edits_are_refused_for_a_reason() {
    let mut manager = EditManager::new();
    let mut truncated = details(EntryKind::Text, Some("x"));
    truncated.preview_truncated = true;
    let large = "x".repeat(MAX_EDIT_BYTES + 1);
    for (entry, message) in [
        (
            details(EntryKind::Image, None),
            "Clipboard entry is not safely editable",
        ),
        (truncated, "Clipboard entry is not safely editable"),
        (
            details(EntryKind::Text, None),
            "Clipboard entry is not valid UTF-8 text",
        ),
        (
            details(EntryKind::Html, Some(&large)),
            "Clipboard entry exceeds the editable text limit",
        ),
    ] {
        assert_eq!(manager.begin(&entry, 0).unwrap_err(), message);
    }
    let edit = manager
        .begin(&details(EntryKind::Json, Some("{}")), 0)
        .unwrap();
    assert_eq!(
        manager.commit(&edit.id, large, 1).unwrap_err(),
        "Edited text exceeds the configured limit"
    );
    let edit = manager
        .begin(&details(EntryKind::Json, Some("{}")), 0)
        .unwrap();
    assert_eq!(
        manager
            .commit(&edit.id, "x".into(), EDIT_TTL)
            .unwrap_err(),
        "Edit session expired"
    );
    assert_eq!(
        manager.commit(&edit.id, "x".into(), 1).unwrap_err(),
        "Edit session is unknown or already used"
    );
}

#[test]
fn edits_can_be_cancelled_once() {
    let mut manager = EditManager::new();
    let edit = manager
        .begin(&details(EntryKind::Text, Some("old")), 0)
        .unwrap();
    assert!(edit.id.starts_with("edit-"));
    assert!(manager.cancel(&edit.id));
    assert!(!manager.cancel(&edit.id));
}

#[test]
fn leases_expire_and_are_taken_once() {
    let mut leases: Leases<u8> = Leases::new();
    leases.issue("a".into(), 1, 10);
    leases.issue("b".into(), 2, 20);
    leases.issue("a".into(), 3, 30);
    leases.expire(20);
    assert!(matches!(leases.take("b", 0), Taken::Unknown));
    assert!(matches!(leases.take("a", 29), Taken::Granted(3)));
    assert!(matches!(leases.take("a", 29), Taken::Unknown));
    leases.issue("c".into(), 4, 5);
    assert!(matches!(leases.take("c", 5), Taken::Expired));
}

#[test]
fn editor_commands_require_placeholders_and_substitute_paths_without_a_shell() {
    let editor = ImageEditorCommand::from_json(
        r#"["image-tool","edit","{input}","--return","{output}"]"#,
    )
    .unwrap();
    let call = editor.command("input image.png", "edited image.png");
    assert_eq!(call.program, "image-tool");
    assert_eq!(
        call.arguments,
        ["edit", "input image.png", "--return", "edited image.png"]
    );

    for invalid in [
        r#"["editor","{input}"]"#,
        r#"["editor","{output}"]"#,
        r#""editor --in {input}""#,
    ] {
        assert!(ImageEditorCommand::from_json(invalid).is_err(), "{invalid}");
    }
}

#[test]
fn editor_commands_fall_back_to_the_default() {
    for value in [None, Some("not json"), Some("[]"), Some(r#"["","{input}","{output}"]"#)] {
        let command = ImageEditorCommand::configured(value);
        assert_eq!(command, ImageEditorCommand::default());
    }
    let command = ImageEditorCommand::configured(Some(r#"["x","{output}","{input}"]"#));
    assert_eq!(command.command("in", "out").arguments, ["out", "in"]);
    assert_eq!(
        ImageEditorCommand::from_json("[]").unwrap_err(),
        "command must name an executable"
    );
    assert_eq!(
        ImageEditorCommand::from_json("{}").unwrap_err(),
        "command must be a JSON array of strings"
    );
}
