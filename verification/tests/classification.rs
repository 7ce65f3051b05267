use clip_daemon::classification::{bounded_preview, classify};
use clip_daemon::model::EntryKind;

#[test]
fn classification_respects_authoritative_mimes_before_refining_text() {
    let cases: [(&str, &[u8], EntryKind); 8] = [
        ("image/png", b"https://example.test", EntryKind::Image),
        ("text/uri-list", b"file:///tmp/a", EntryKind::Files),
        ("application/octet-stream", b"hello", EntryKind::Binary),
        ("text/plain", b"https://example.test/a", EntryKind::Link),
        ("text/plain", br#"{"ok":true}"#, EntryKind::Json),
        ("text/plain", b"#1a2b3c", EntryKind::Color),
        ("", b"ordinary text", EntryKind::Text),
        ("", &[0xff, 0xfe], EntryKind::Binary),
    ];
    for (mime, bytes, expected) in cases {
        assert_eq!(classify(mime, bytes), expected, "{mime}: {bytes:?}");
    }
}

#[test]
fn previews_are_bounded_single_line_and_strip_spoofing_characters() {
    for (input, expected) in [
        (" first\n\tsecond ", "first second"),
        (
            "safe\u{202e}gpj.exe zero\u{200b}width عربي",
            "safegpj.exe zerowidth عربي",
        ),
    ] {
        assert_eq!(bounded_preview(input.as_bytes(), 1024), expected);
    }
    assert!(bounded_preview(&vec![b'a'; 1024], 1024).len() <= 256);
}

#[test]
fn previews_replace_what_is_no_text() {
    assert_eq!(bounded_preview(b"a\xffb", 1024), "a\u{fffd}b");
    assert_eq!(bounded_preview(b"abcdef", 3), "abc");
}

#[test]
fn broken_json_is_text() {
    assert_eq!(classify("text/plain", b"{broken"), EntryKind::Text);
    assert_eq!(classify("text/plain", b"[1,2]"), EntryKind::Json);
    assert_eq!(classify("text/html; charset=utf-8", b"<p>"), EntryKind::Html);
}
