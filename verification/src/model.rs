//! What the daemon shows of the clipboard history.
use uuid::Uuid;
use vstd::prelude::*;

verus! {

/// What an entry is to a user.
#[derive(Debug, Clone, Copy, PartialEq, Eq, Structural)]
pub enum EntryKind {
    Text,
    Link,
    Image,
    Files,
    Html,
    Json,
    Color,
    Binary,
}

/// One entry of the history as a list shows it.
#[derive(Debug, PartialEq, Eq)]
pub struct EntrySummary {
    pub id: String,
    pub revision: u64,
    pub kind: EntryKind,
    pub mime: String,
    pub byte_size: u64,
    pub favorite: bool,
    pub current: bool,
    pub preview: String,
}

impl Clone for EntrySummary {
    fn clone(&self) -> (copy: Self)
        ensures
            copy == *self,
    {
        EntrySummary {
            id: self.id.clone(),
            revision: self.revision,
            kind: self.kind,
            mime: self.mime.clone(),
            byte_size: self.byte_size,
            favorite: self.favorite,
            current: self.current,
            preview: self.preview.clone(),
        }
    }
}

/// One page of the history.
#[derive(Debug, PartialEq, Eq)]
pub struct HistoryPage {
    pub revision: u64,
    pub generation: u64,
    pub current: Option<EntrySummary>,
    pub entries: Vec<EntrySummary>,
    pub has_more: bool,
    pub next_offset: Option<usize>,
}

/// One file of a file selection.
#[derive(Debug, PartialEq, Eq)]
pub struct FilePreview {
    pub display_name: String,
    pub uri: String,
    pub exists: bool,
    pub operation: String,
}

impl Clone for FilePreview {
    fn clone(&self) -> (copy: Self)
        ensures
            copy == *self,
    {
        FilePreview {
            display_name: self.display_name.clone(),
            uri: self.uri.clone(),
            exists: self.exists,
            operation: self.operation.clone(),
        }
    }
}

/// Copies a list of files.
pub fn clone_files(files: &Vec<FilePreview>) -> (copy: Vec<FilePreview>)
    ensures
        copy@ == files@,
{
    let mut copy: Vec<FilePreview> = Vec::new();
    for i in 0..files.len()
        invariant
            copy@ == files@.take(i as int),
    {
        copy.push(files[i].clone());
        assert(files@.take(i + 1) =~= files@.take(i as int).push(files@[i as int]));
    }
    assert(files@.take(files@.len() as int) =~= files@);
    copy
}

/// The size of an image in pixels.
#[derive(Debug, Clone, Copy, PartialEq, Eq, Structural)]
pub struct ImageMetadata {
    pub width: u32,
    pub height: u32,
}

/// One entry of the history in full.
#[derive(Debug, PartialEq, Eq)]
pub struct EntryDetails {
    pub entry: EntrySummary,
    pub text: Option<String>,
    pub files: Vec<FilePreview>,
    pub image: Option<ImageMetadata>,
    pub preview_truncated: bool,
}

impl EntryDetails {
    /// The same entry: every field is equal, the list of files item by item.
    pub open spec fn same(self, other: Self) -> bool {
        &&& self.entry == other.entry
        &&& self.text == other.text
        &&& self.files@ == other.files@
        &&& self.image == other.image
        &&& self.preview_truncated == other.preview_truncated
    }

    /// A copy of the entry.
    pub fn copy(&self) -> (copy: Self)
        ensures
            copy.same(*self),
    {
        EntryDetails {
            entry: self.entry.clone(),
            text: self.text.clone(),
            files: clone_files(&self.files),
            image: self.image,
            preview_truncated: self.preview_truncated,
        }
    }
}

/// A scaled-down image of an entry, written to a file.
#[derive(Debug, PartialEq, Eq)]
pub struct EntryThumbnail {
    pub entry_id: String,
    pub revision: u64,
    pub path: String,
    pub width: u32,
    pub height: u32,
}

/// Whether the history can be read.
#[derive(Debug, PartialEq, Eq)]
pub struct BackendStatus {
    pub available: bool,
    pub engine: String,
    pub detail: String,
}

/// What became of an operation.
#[derive(Debug, PartialEq, Eq)]
pub struct OperationResult {
    pub id: String,
    pub action: String,
    pub status: String,
    pub message: String,
    pub path: Option<String>,
    pub warning: Option<String>,
}

/// `Uuid::new_v4`: a fresh identifier. Nothing is said of which one.
#[verifier::external_body]
pub(crate) fn fresh_id() -> (id: String) {
    Uuid::new_v4().to_string()
}

impl Clone for OperationResult {
    fn clone(&self) -> (copy: Self)
        ensures
            copy == *self,
    {
        OperationResult {
            id: self.id.clone(),
            action: self.action.clone(),
            status: self.status.clone(),
            message: self.message.clone(),
            path: self.path.clone(),
            warning: self.warning.clone(),
        }
    }
}

impl OperationResult {
    /// An operation under `id` that stands at `status`.
    pub fn with_id(id: String, action: &str, status: &str, message: &str) -> (result: Self)
        ensures
            result.id == id,
            result.action@ == action@,
            result.status@ == status@,
            result.message@ == message@,
            result.path is None,
            result.warning is None,
    {
        OperationResult {
            id,
            action: action.to_owned(),
            status: status.to_owned(),
            message: message.to_owned(),
            path: None,
            warning: None,
        }
    }

    /// An operation under a fresh identifier that is done.
    pub fn completed(action: &str, message: &str) -> (result: Self)
        ensures
            result.action@ == action@,
            result.status@ == "completed"@,
            result.message@ == message@,
            result.path is None,
            result.warning is None,
    {
        OperationResult::with_id(fresh_id(), action, "completed", message)
    }

    /// An operation under a fresh identifier that has begun, and goes on by
    /// itself.
    pub fn started(action: &str, message: &str) -> (result: Self)
        ensures
            result.action@ == action@,
            result.status@ == "started"@,
            result.message@ == message@,
            result.path is None,
            result.warning is None,
    {
        OperationResult::with_id(fresh_id(), action, "started", message)
    }
}

/// What became of an edit: the entry that took the old one's place, and
/// whether it was put on the clipboard.
#[derive(Debug, PartialEq, Eq)]
pub struct ReplacementResult {
    pub entry: EntryDetails,
    pub selection_published: bool,
    pub publication_message: String,
}

} // verus!
