use clip_daemon::backend::{
    BackendErrorKind, BackendResult, FileSelection, FileSelectionOperation,
    MAX_WAYLAND_SELECTION_BYTES,
};
use clip_daemon::ringboard::publication::{publish_content, publish_files};
use clip_daemon::selection::{
    effective_limit, FileContent, SelectionPublisher, SelectionService, WaylandSelectionPublisher,
};
use std::sync::{Arc, Mutex};

#[derive(Default)]
struct RecordingPublisher {
    values: Mutex<Vec<(String, Vec<u8>)>>,
}

impl SelectionPublisher for RecordingPublisher {
    fn publish(&self, mime: &str, bytes: Vec<u8>) -> BackendResult<()> {
        self.values.lock().unwrap().push((mime.to_owned(), bytes));
        Ok(())
    }

    fn publish_file_link(&self, uri: Vec<u8>) -> BackendResult<()> {
        let text = uri.strip_suffix(b"\r\n").unwrap_or(&uri).to_vec();
        let mut values = self.values.lock().unwrap();
        values.push(("text/uri-list".into(), uri));
        values.push(("text/plain".into(), text));
        Ok(())
    }

    fn publish_files(&self, gnome_payload: Vec<u8>, uri_list: Vec<u8>) -> BackendResult<()> {
        let mut values = self.values.lock().unwrap();
        values.push(("x-special/gnome-copied-files".into(), gnome_payload));
        values.push(("text/uri-list".into(), uri_list));
        Ok(())
    }
}

#[test]
fn exact_mime_and_bytes_reach_the_publisher() {
    let publisher = Arc::new(RecordingPublisher::default());
    let service = SelectionService::with_publisher(publisher.clone());
    service.publish("image/png", vec![1, 2, 3], 1024).unwrap();
    service
        .publish_file_link(b"file:///tmp/image.png\r\n".to_vec(), 1024)
        .unwrap();
    service
        .publish_files(
            "cut",
            b"file:///tmp/one.txt\r\nfile:///tmp/two.txt\r\n".to_vec(),
            1024,
        )
        .unwrap();
    let values = publisher.values.lock().unwrap();
    let mimes = values
        .iter()
        .map(|value| value.0.as_str())
        .collect::<Vec<_>>()
        .join(",");
    assert_eq!(
        mimes,
        "image/png,text/uri-list,text/plain,x-special/gnome-copied-files,text/uri-list"
    );
    assert_eq!(values[0].1, vec![1, 2, 3]);
    assert_eq!(values[1].1, b"file:///tmp/image.png\r\n");
    assert_eq!(values[2].1, b"file:///tmp/image.png");
    assert_eq!(
        values[3].1,
        b"cut\nfile:///tmp/one.txt\r\nfile:///tmp/two.txt\r\n"
    );
    assert_eq!(
        values[4].1,
        b"file:///tmp/one.txt\r\nfile:///tmp/two.txt\r\n"
    );
}

#[test]
fn mime_and_size_policy_rejects_unsafe_offers() {
    let service = SelectionService::with_publisher(Arc::new(RecordingPublisher::default()));
    for (mime, bytes) in [
        ("not-a-mime", vec![]),
        ("text/plain\nimage/png", vec![]),
        ("text/uri-list", vec![0; 1025]),
    ] {
        assert!(service.publish(mime, bytes, 1024).is_err());
    }
    assert_eq!(effective_limit(u64::MAX), MAX_WAYLAND_SELECTION_BYTES);
}

#[test]
fn a_file_is_published_only_within_the_limit() {
    let publisher = Arc::new(RecordingPublisher::default());
    let service = SelectionService::with_publisher(publisher.clone());
    let file = |size: u64, content: Result<Vec<u8>, String>| FileContent { size, content };
    let error = service
        .publish_file("image/png", file(5, Ok(vec![0; 5])), 4)
        .unwrap_err();
    assert_eq!(
        error.message(),
        "Clipboard entry is 5 bytes; Wayland publishing is limited to 4 bytes"
    );
    assert_eq!(error.kind, BackendErrorKind::InvalidData);
    assert!(service
        .publish_file("image/png", file(4, Ok(vec![0; 5])), 4)
        .is_err());
    let error = service
        .publish_file("image/png", file(4, Err("gone".into())), 4)
        .unwrap_err();
    assert_eq!(error.kind, BackendErrorKind::OperationFailed);
    assert_eq!(error.message(), "gone");
    service
        .publish_file("image/png", file(4, Ok(vec![9; 4])), 4)
        .unwrap();
    assert_eq!(publisher.values.lock().unwrap().len(), 1);
}

#[test]
fn only_plain_utf8_text_gains_aliases() {
    let text = WaylandSelectionPublisher::offer("text/plain", b"hi".to_vec());
    let image = WaylandSelectionPublisher::offer("image/png", b"hi".to_vec());
    let broken = WaylandSelectionPublisher::offer("text/plain", vec![0xff]);
    assert!(!text.omit_text_aliases);
    assert!(image.omit_text_aliases);
    assert!(broken.omit_text_aliases);
    let link = WaylandSelectionPublisher::offer_file_link(b"file:///a\r\n".to_vec());
    assert_eq!(link.sources[0].content, b"file:///a\r\n");
}

#[test]
fn published_content_and_files_are_told_as_operations() {
    let publisher = Arc::new(RecordingPublisher::default());
    let service = SelectionService::with_publisher(publisher.clone());
    assert_eq!(
        publish_content(&service, "text/plain", vec![], 9)
            .unwrap_err()
            .message(),
        "Published clipboard content must not be empty"
    );
    let told = publish_content(&service, "text/plain", b"x".to_vec(), 9).unwrap();
    assert_eq!(told.action, "publish");
    assert_eq!(told.message, "Content published to the Wayland clipboard");

    let files = |paths: Vec<String>| FileSelection {
        operation: FileSelectionOperation::Copy,
        paths,
    };
    for (paths, message) in [
        (vec![], "File selection must contain between 1 and 100 paths"),
        (
            vec!["/tmp/a".to_owned(), "relative".to_owned()],
            "File selection paths must be absolute",
        ),
    ] {
        assert_eq!(
            publish_files(&service, files(paths), 1024)
                .unwrap_err()
                .message(),
            message
        );
    }
    let told = publish_files(
        &service,
        files(vec!["/tmp/a b.txt".into(), "/tmp/c".into()]),
        1024,
    )
    .unwrap();
    assert_eq!(told.message, "Mirrored 2 files to the clipboard");
    let values = publisher.values.lock().unwrap();
    assert_eq!(
        values.last().unwrap().1,
        b"file:///tmp/a%20b.txt\r\nfile:///tmp/c\r\n"
    );
}
