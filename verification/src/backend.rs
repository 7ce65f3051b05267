//! What the daemon asks of a history store, and how a store fails.
use crate::model::{
    BackendStatus, EntryDetails, EntryThumbnail, HistoryPage, OperationResult, ReplacementResult,
};
use crate::text;
use vstd::prelude::*;

verus! {

/// The most entries that one query returns.
pub const MAX_QUERY_LIMIT: usize = 200;

/// The most files that one selection holds.
pub const MAX_FILES: usize = 100;

/// The most bytes that are ever put on the Wayland clipboard.
pub const MAX_WAYLAND_SELECTION_BYTES: u64 = 67_108_864;

/// The longest edge of a screenshot in pixels.
pub const MAX_SCREENSHOT_EDGE: u32 = 16_384;

/// The largest area of a screenshot in pixels.
pub const MAX_SCREENSHOT_PIXELS: u64 = 33_554_432;

/// A request for one page of the history.
#[derive(Debug, PartialEq, Eq)]
pub struct HistoryQuery {
    pub query: String,
    pub generation: u64,
    pub offset: usize,
    pub limit: usize,
    pub collapse_self_echoes: bool,
}

/// A rectangle of the screen.
#[derive(Debug, Clone, Copy, PartialEq, Eq, Structural)]
pub struct ScreenshotRegion {
    pub x: i32,
    pub y: i32,
    pub width: u32,
    pub height: u32,
}

impl ScreenshotRegion {
    /// The rectangle is not empty and not too large.
    pub open spec fn bounded(self) -> bool {
        &&& 1 <= self.width <= MAX_SCREENSHOT_EDGE
        &&& 1 <= self.height <= MAX_SCREENSHOT_EDGE
        &&& self.width * self.height <= MAX_SCREENSHOT_PIXELS
    }

    /// Whether the rectangle may be captured.
    pub fn is_bounded(&self) -> (result: bool)
        ensures
            result == self.bounded(),
    {
        if self.width == 0 || self.height == 0 || self.width > MAX_SCREENSHOT_EDGE || self.height
            > MAX_SCREENSHOT_EDGE {
            return false;
        }
        let width: u64 = self.width as u64;
        let height: u64 = self.height as u64;
        assert(width * height <= 16384 * 16384) by (nonlinear_arith)
            requires
                width <= 16384,
                height <= 16384,
        ;
        width * height <= MAX_SCREENSHOT_PIXELS
    }
}

/// What a user picks for a screenshot.
#[derive(Debug, Clone, Copy, PartialEq, Eq, Structural)]
pub enum ScreenshotMode {
    Region,
    Screen,
}

impl ScreenshotMode {
    /// The mode with this name.
    pub fn parse(name: &str) -> (mode: Option<Self>)
        ensures
            mode == (if name@ == "region"@ {
                Some(ScreenshotMode::Region)
            } else if name@ == "screen"@ {
                Some(ScreenshotMode::Screen)
            } else {
                None
            }),
    {
        if text::same(name, "region") {
            Some(ScreenshotMode::Region)
        } else if text::same(name, "screen") {
            Some(ScreenshotMode::Screen)
        } else {
            None
        }
    }
}

/// A screenshot that the user takes by hand.
#[derive(Debug, Clone, Copy, PartialEq, Eq, Structural)]
pub struct InteractiveScreenshot {
    pub mode: ScreenshotMode,
    pub annotate: bool,
}

/// One entry as a caller last saw it.
#[derive(Debug, PartialEq, Eq)]
pub struct EntryTarget {
    pub opaque_id: String,
    pub expected_revision: u64,
}

/// Whether files are to be copied or moved.
#[derive(Debug, Clone, Copy, PartialEq, Eq, Structural)]
pub enum FileSelectionOperation {
    Copy,
    Cut,
}

impl FileSelectionOperation {
    /// The name of the operation on the clipboard.
    pub open spec fn name(self) -> Seq<char> {
        match self {
            FileSelectionOperation::Copy => "copy"@,
            FileSelectionOperation::Cut => "cut"@,
        }
    }

    /// The name of the operation on the clipboard.
    pub fn as_str(self) -> (name: &'static str)
        ensures
            name@ == self.name(),
    {
        match self {
            FileSelectionOperation::Copy => "copy",
            FileSelectionOperation::Cut => "cut",
        }
    }
}

/// Files to be put on the clipboard.
#[derive(Debug, PartialEq, Eq)]
pub struct FileSelection {
    pub operation: FileSelectionOperation,
    pub paths: Vec<String>,
}

/// The path begins at the root.
pub open spec fn absolute(path: Seq<char>) -> bool {
    path.len() > 0 && path[0] == '/'
}

/// Whether the path begins at the root.
pub fn is_absolute(path: &str) -> (result: bool)
    ensures
        result == absolute(path@),
{
    let chars = text::chars_of(path);
    chars.len() > 0 && chars[0] == '/'
}

/// How a store fails.
#[derive(Debug, Clone, Copy, PartialEq, Eq, Structural)]
pub enum BackendErrorKind {
    Unavailable,
    NotFound,
    Stale,
    InvalidData,
    OperationFailed,
}

impl BackendErrorKind {
    /// The code that callers see.
    pub open spec fn code_of(self) -> Seq<char> {
        match self {
            BackendErrorKind::Unavailable => "backend-unavailable"@,
            BackendErrorKind::NotFound => "entry-not-found"@,
            BackendErrorKind::Stale => "stale-action"@,
            BackendErrorKind::InvalidData => "invalid-entry"@,
            BackendErrorKind::OperationFailed => "operation-failed"@,
        }
    }

    /// The code that callers see.
    pub fn code(self) -> (code: &'static str)
        ensures
            code@ == self.code_of(),
    {
        match self {
            BackendErrorKind::Unavailable => "backend-unavailable",
            BackendErrorKind::NotFound => "entry-not-found",
            BackendErrorKind::Stale => "stale-action",
            BackendErrorKind::InvalidData => "invalid-entry",
            BackendErrorKind::OperationFailed => "operation-failed",
        }
    }

    /// Whether the same request may succeed later.
    pub fn retryable(self) -> (result: bool)
        ensures
            result == (self is Unavailable),
    {
        matches!(self, BackendErrorKind::Unavailable)
    }
}

/// A failure of a store.
#[derive(Debug)]
pub struct BackendError {
    pub kind: BackendErrorKind,
    pub message: String,
}

impl BackendError {
    /// The failure is of this kind and says this.
    pub open spec fn is(self, kind: BackendErrorKind, message: Seq<char>) -> bool {
        self.kind == kind && self.message@ == message
    }

    pub fn new(kind: BackendErrorKind, message: &str) -> (error: Self)
        ensures
            error.is(kind, message@),
    {
        BackendError { kind, message: message.to_owned() }
    }

    pub fn unavailable(message: &str) -> (error: Self)
        ensures
            error.is(BackendErrorKind::Unavailable, message@),
    {
        BackendError::new(BackendErrorKind::Unavailable, message)
    }

    pub fn not_found(message: &str) -> (error: Self)
        ensures
            error.is(BackendErrorKind::NotFound, message@),
    {
        BackendError::new(BackendErrorKind::NotFound, message)
    }

    pub fn stale(message: &str) -> (error: Self)
        ensures
            error.is(BackendErrorKind::Stale, message@),
    {
        BackendError::new(BackendErrorKind::Stale, message)
    }

    /// What the failure says.
    pub fn message(&self) -> (message: &str)
        ensures
            message@ == self.message@,
    {
        self.message.as_str()
    }
}

pub type BackendResult<T> = Result<T, BackendError>;

/// A change of the history or of the clipboard.
#[derive(Debug, Clone, Copy, PartialEq, Eq, Structural)]
pub enum BackendMutation {
    Restore { max_bytes: u64 },
    ImageAsFile { max_bytes: u64 },
    Annotate { max_bytes: u64 },
    Remove,
    SetFavorite(bool),
    Wipe,
    Cleanup,
}

impl BackendMutation {
    /// The change that an action asks for, where it is one.
    pub open spec fn of_action(action: Seq<char>, max_bytes: u64) -> Option<Self> {
        if action == "copy"@ || action == "paste"@ {
            Some(BackendMutation::Restore { max_bytes })
        } else if action == "image-as-file"@ {
            Some(BackendMutation::ImageAsFile { max_bytes })
        } else if action == "annotate"@ {
            Some(BackendMutation::Annotate { max_bytes })
        } else if action == "delete"@ {
            Some(BackendMutation::Remove)
        } else if action == "favorite"@ || action == "pin-current"@ {
            Some(BackendMutation::SetFavorite(true))
        } else if action == "unfavorite"@ {
            Some(BackendMutation::SetFavorite(false))
        } else if action == "cleanup"@ {
            Some(BackendMutation::Cleanup)
        } else {
            None
        }
    }

    /// The change that an action asks for, where it is one. Clearing the whole
    /// history is none: it has its own confirmation.
    pub fn for_action(action: &str, max_bytes: u64) -> (mutation: Option<Self>)
        ensures
            mutation == BackendMutation::of_action(action@, max_bytes),
    {
        if text::same(action, "copy") || text::same(action, "paste") {
            Some(BackendMutation::Restore { max_bytes })
        } else if text::same(action, "image-as-file") {
            Some(BackendMutation::ImageAsFile { max_bytes })
        } else if text::same(action, "annotate") {
            Some(BackendMutation::Annotate { max_bytes })
        } else if text::same(action, "delete") {
            Some(BackendMutation::Remove)
        } else if text::same(action, "favorite") || text::same(action, "pin-current") {
            Some(BackendMutation::SetFavorite(true))
        } else if text::same(action, "unfavorite") {
            Some(BackendMutation::SetFavorite(false))
        } else if text::same(action, "cleanup") {
            Some(BackendMutation::Cleanup)
        } else {
            None
        }
    }

    /// The change is made to one entry, and so to a state of it.
    pub open spec fn targets_entry(self) -> bool {
        !(self is Wipe || self is Cleanup)
    }

    /// Whether the change is made to one entry, which must then come with the
    /// revision that the caller saw.
    pub fn require_revision(self, expected_revision: Option<u64>) -> (required: BackendResult<bool>)
        ensures
            match required {
                Ok(targeted) => targeted == self.targets_entry() && (targeted
                    ==> expected_revision is Some),
                Err(error) => self.targets_entry() && expected_revision is None && error.is(
                    BackendErrorKind::InvalidData,
                    "Clipboard mutations require the current revision"@,
                ),
            },
    {
        match self {
            BackendMutation::Wipe | BackendMutation::Cleanup => Ok(false),
            _ => if expected_revision.is_some() {
                Ok(true)
            } else {
                Err(
                    BackendError::new(
                        BackendErrorKind::InvalidData,
                        "Clipboard mutations require the current revision",
                    ),
                )
            },
        }
    }
}

/// A history store.
pub trait ClipboardBackend: Sized {
    fn status(&self) -> BackendStatus;

    /// A number that differs where the history does.
    fn change_token(&self) -> BackendResult<u64>;

    fn query(&mut self, query: HistoryQuery) -> BackendResult<HistoryPage>;

    fn revision(&mut self, opaque_id: &str) -> BackendResult<u64>;

    fn details(&mut self, opaque_id: &str, max_text_bytes: usize) -> BackendResult<EntryDetails>;

    fn thumbnail(&mut self, opaque_id: &str, expected_revision: Option<u64>, edge: u32) -> BackendResult<
        EntryThumbnail,
    >;

    fn capture_screenshot(&mut self, region: ScreenshotRegion, max_bytes: u64) -> BackendResult<
        OperationResult,
    >;

    /// Lets the user take a screenshot.
    fn capture_interactive(&mut self, screenshot: InteractiveScreenshot, max_bytes: u64) -> (result:
        BackendResult<OperationResult>)
        default_ensures
            *final(self) == *old(self),
            result matches Err(error) && error.is(
                BackendErrorKind::Unavailable,
                "Interactive screenshots are unavailable"@,
            ),
    {
        Err(BackendError::unavailable("Interactive screenshots are unavailable"))
    }

    fn publish(&mut self, mime: &str, content: Vec<u8>, max_bytes: u64) -> BackendResult<
        OperationResult,
    >;

    fn publish_files(&mut self, selection: FileSelection, max_bytes: u64) -> BackendResult<
        OperationResult,
    >;

    fn mutate(
        &mut self,
        opaque_id: &str,
        expected_revision: Option<u64>,
        mutation: BackendMutation,
    ) -> BackendResult<OperationResult>;

    fn remove_many(&mut self, targets: &[EntryTarget]) -> BackendResult<OperationResult>;

    fn replace(
        &mut self,
        opaque_id: &str,
        expected_revision: u64,
        mime: &str,
        content: &[u8],
    ) -> BackendResult<ReplacementResult>;

    /// Cancels an operation; whether there was one to cancel.
    fn cancel_operation(&mut self, operation_id: &str) -> BackendResult<bool>;
}

} // verus!
