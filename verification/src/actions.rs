//! What may be done with an entry, and how a request that may not is answered.
use crate::backend;
use crate::backend::{
    BackendError, BackendErrorKind, EntryTarget, FileSelection,
    FileSelectionOperation, ScreenshotRegion, MAX_FILES, MAX_QUERY_LIMIT,
};
use crate::model::{EntryDetails, EntryKind, FilePreview, OperationResult};
use crate::ringboard::content;
use crate::text;
use vstd::hash_set::*;
use vstd::prelude::*;
use vstd::string::*;
use vstd::utf8::*;

verus! {

/// The longest text that a full-text query may have, in bytes.
pub const MAX_QUERY_BYTES: usize = 4_096;

/// The most entries that one request deletes.
pub const MAX_DELETED: usize = 5_000;

/// How a request fails.
#[derive(Debug, PartialEq, Eq)]
pub struct ApiError {
    pub code: String,
    pub message: String,
    pub retryable: bool,
}

impl ApiError {
    /// The failure has this code, says this, and cannot be retried as it is.
    pub open spec fn is(self, code: Seq<char>, message: Seq<char>) -> bool {
        self.code@ == code && self.message@ == message && !self.retryable
    }

    /// The request is not a valid one, for this reason.
    pub open spec fn invalid(self, message: Seq<char>) -> bool {
        self.is("validation-error"@, message)
    }

    /// The failure is the one of the store.
    pub open spec fn stems_from(self, error: BackendError) -> bool {
        &&& self.code@ == error.kind.code_of()
        &&& self.message == error.message
        &&& self.retryable == (error.kind is Unavailable)
    }

    /// The entry is no longer the one that the caller saw.
    pub open spec fn stale_entry(self) -> bool {
        &&& self.code@ == "stale-entry"@
        &&& self.message@ == "Clipboard entry changed; refresh and try again"@
        &&& self.retryable
    }

    pub fn new(code: &str, message: &str) -> (error: Self)
        ensures
            error.is(code@, message@),
    {
        ApiError { code: code.to_owned(), message: message.to_owned(), retryable: false }
    }

    pub fn validation(message: &str) -> (error: Self)
        ensures
            error.invalid(message@),
    {
        ApiError::new("validation-error", message)
    }

    pub fn unsupported(message: &str) -> (error: Self)
        ensures
            error.is("unsupported-method"@, message@),
    {
        ApiError::new("unsupported-method", message)
    }

    /// The failure of the store, as callers see it.
    pub fn from_backend(error: BackendError) -> (result: Self)
        ensures
            result.stems_from(error),
    {
        ApiError {
            code: error.kind.code().to_owned(),
            message: error.message,
            retryable: error.kind.retryable(),
        }
    }
}

/// A request for one page of the history.
#[derive(Debug, PartialEq, Eq)]
pub struct QueryParams {
    pub query: String,
    pub generation: u64,
    pub offset: usize,
    pub limit: usize,
    pub fuzzy: bool,
    pub cursor: Option<String>,
}

impl Default for QueryParams {
    fn default() -> (params: Self)
        ensures
            params.query@ == ""@,
            params.generation == 0,
            params.offset == 0,
            params.limit == 100,
            !params.fuzzy,
            params.cursor is None,
    {
        QueryParams {
            query: "".to_owned(),
            generation: 0,
            offset: 0,
            limit: 100,
            fuzzy: false,
            cursor: None,
        }
    }
}

/// A request about one entry.
#[derive(Debug, PartialEq, Eq)]
pub struct EntryParams {
    pub entry_id: String,
    pub revision: Option<u64>,
    pub edge: Option<u32>,
}

/// A request to do something with an entry.
#[derive(Debug, PartialEq, Eq)]
pub struct ActionParams {
    pub entry_id: String,
    pub revision: u64,
    pub action: String,
    pub session_id: Option<String>,
    pub file_index: Option<usize>,
}

/// A request to put files on the clipboard.
#[derive(Debug, PartialEq, Eq)]
pub struct PublishFilesParams {
    pub operation: String,
    pub paths: Vec<String>,
}

/// Rejects an identifier that is empty.
pub fn validate_entry_id(id: &str) -> (result: Result<(), ApiError>)
    ensures
        match result {
            Ok(_) => id@ != ""@,
            Err(error) => id@ == ""@ && error.invalid("entry_id is required"@),
        },
{
    if text::same(id, "") {
        Err(ApiError::validation("entry_id is required"))
    } else {
        Ok(())
    }
}

/// Rejects a revision other than the one that the entry has.
pub fn validate_revision(expected: Option<u64>, actual: u64) -> (result: Result<(), ApiError>)
    ensures
        match result {
            Ok(_) => expected is None || expected == Some(actual),
            Err(error) => expected is Some && expected != Some(actual) && error.stale_entry(),
        },
{
    if let Some(revision) = expected {
        if revision != actual {
            return Err(
                ApiError {
                    code: "stale-entry".to_owned(),
                    message: "Clipboard entry changed; refresh and try again".to_owned(),
                    retryable: true,
                },
            );
        }
    }
    Ok(())
}

/// What may be done with an entry of this kind, which has files or not.
pub open spec fn allowed(kind: EntryKind, has_files: bool, action: Seq<char>) -> bool {
    if action == "copy"@ || action == "delete"@ || action == "favorite"@ || action == "unfavorite"@
        || action == "pin-current"@ || action == "cleanup"@ {
        true
    } else if action == "paste"@ {
        !(kind is Binary)
    } else if action == "image-as-file"@ || action == "annotate"@ {
        kind is Image
    } else if action == "open-url"@ {
        kind is Link
    } else if action == "open-file"@ || action == "reveal-file"@ {
        has_files
    } else {
        false
    }
}

/// Rejects what may not be done with the entry.
pub fn validate_action(details: &EntryDetails, action: &str) -> (result: Result<(), ApiError>)
    ensures
        ({
            let allowed = allowed(details.entry.kind, details.files@.len() > 0, action@);
            match result {
                Ok(_) => allowed,
                Err(error) => !allowed && error.invalid(
                    "action is unsafe for this clipboard type"@,
                ),
            }
        }),
{
    let kind = details.entry.kind;
    let allowed: bool = if text::same(action, "copy") || text::same(action, "delete")
        || text::same(action, "favorite") || text::same(action, "unfavorite") || text::same(
        action,
        "pin-current",
    ) || text::same(action, "cleanup") {
        true
    } else if text::same(action, "paste") {
        !matches!(kind, EntryKind::Binary)
    } else if text::same(action, "image-as-file") || text::same(action, "annotate") {
        matches!(kind, EntryKind::Image)
    } else if text::same(action, "open-url") {
        matches!(kind, EntryKind::Link)
    } else if text::same(action, "open-file") || text::same(action, "reveal-file") {
        details.files.len() > 0
    } else {
        false
    };
    if allowed {
        Ok(())
    } else {
        Err(ApiError::validation("action is unsafe for this clipboard type"))
    }
}

/// The file that a request is about: the first one where it says none.
pub fn selected_file(details: &EntryDetails, index: Option<usize>) -> (file: Result<
    FilePreview,
    ApiError,
>)
    ensures
        ({
            let at = match index {
                Some(index) => index,
                None => 0,
            };
            match file {
                Ok(file) => at < details.files@.len() && file == details.files@[at as int],
                Err(error) => at >= details.files@.len() && error.invalid(
                    "file_index does not identify a clipboard file"@,
                ),
            }
        }),
{
    let at: usize = match index {
        Some(index) => index,
        None => 0,
    };
    if at < details.files.len() {
        Ok(details.files[at].clone())
    } else {
        Err(ApiError::validation("file_index does not identify a clipboard file"))
    }
}

/// Why a query is not a valid one, where it is not.
pub open spec fn query_refusal(params: QueryParams) -> Option<Seq<char>> {
    if !(1 <= params.limit <= MAX_QUERY_LIMIT) {
        Some("limit must be between 1 and 200"@)
    } else if params.fuzzy {
        if params.query@.len() > 256 {
            Some("Fuzzy search query exceeds 256 characters"@)
        } else {
            None
        }
    } else if encode_utf8(params.query@).len() > MAX_QUERY_BYTES {
        Some("query must not exceed 4096 bytes"@)
    } else {
        None
    }
}

/// Rejects a query that is not a valid one.
pub fn validate_query(params: &QueryParams) -> (result: Result<(), ApiError>)
    ensures
        match result {
            Ok(_) => query_refusal(*params) is None,
            Err(error) => query_refusal(*params) is Some && error.invalid(
                query_refusal(*params)->0,
            ),
        },
{
    if params.limit < 1 || params.limit > MAX_QUERY_LIMIT {
        return Err(ApiError::validation("limit must be between 1 and 200"));
    }
    if params.fuzzy {
        if text::chars_of(params.query.as_str()).len() > 256 {
            return Err(ApiError::validation("Fuzzy search query exceeds 256 characters"));
        }
    } else if params.query.as_str().as_bytes().len() > MAX_QUERY_BYTES {
        return Err(ApiError::validation("query must not exceed 4096 bytes"));
    }
    Ok(())
}

/// Rejects a screenshot that is empty or too large.
pub fn validate_region(region: &ScreenshotRegion) -> (result: Result<(), ApiError>)
    ensures
        match result {
            Ok(_) => region.bounded(),
            Err(error) => !region.bounded() && error.invalid(
                "screenshot must be at most 16384 pixels wide and high and 32 megapixels in area"@,
            ),
        },
{
    if region.is_bounded() {
        Ok(())
    } else {
        Err(
            ApiError::validation(
                "screenshot must be at most 16384 pixels wide and high and 32 megapixels in area",
            ),
        )
    }
}

/// Rejects clipboard content that is empty.
pub fn validate_content(bytes: &[u8]) -> (result: Result<(), ApiError>)
    ensures
        match result {
            Ok(_) => bytes@.len() > 0,
            Err(error) => bytes@.len() == 0 && error.invalid(
                "clipboard content must not be empty"@,
            ),
        },
{
    if bytes.len() == 0 {
        Err(ApiError::validation("clipboard content must not be empty"))
    } else {
        Ok(())
    }
}

/// Why a request to publish files is not a valid one, where it is not.
pub open spec fn files_refusal(params: PublishFilesParams) -> Option<Seq<char>> {
    if params.operation@ != "copy"@ && params.operation@ != "cut"@ {
        Some("operation must be copy or cut"@)
    } else if !(1 <= params.paths@.len() <= MAX_FILES) {
        Some("paths must contain between 1 and 100 files"@)
    } else if !(forall|i: int|
        0 <= i < params.paths@.len() ==> backend::absolute((#[trigger] params.paths@[i])@)) {
        Some("every file path must be absolute"@)
    } else {
        None
    }
}

/// The files that a request puts on the clipboard.
pub fn file_selection(params: PublishFilesParams) -> (selection: Result<FileSelection, ApiError>)
    ensures
        match selection {
            Ok(selection) => {
                &&& files_refusal(params) is None
                &&& selection.operation.name() == params.operation@
                &&& selection.paths == params.paths
            },
            Err(error) => files_refusal(params) is Some && error.invalid(files_refusal(params)->0),
        },
{
    let operation = if text::same(params.operation.as_str(), "copy") {
        FileSelectionOperation::Copy
    } else if text::same(params.operation.as_str(), "cut") {
        FileSelectionOperation::Cut
    } else {
        return Err(ApiError::validation("operation must be copy or cut"));
    };
    if params.paths.len() < 1 || params.paths.len() > MAX_FILES {
        return Err(ApiError::validation("paths must contain between 1 and 100 files"));
    }
    let mut at: usize = 0;
    while at < params.paths.len()
        invariant
            at <= params.paths@.len(),
            params.operation@ == "copy"@ || params.operation@ == "cut"@,
            1 <= params.paths@.len() <= MAX_FILES,
            forall|i: int| 0 <= i < at ==> backend::absolute((#[trigger] params.paths@[i])@),
        decreases params.paths@.len() - at,
    {
        if !backend::is_absolute(params.paths[at].as_str()) {
            return Err(ApiError::validation("every file path must be absolute"));
        }
        at = at + 1;
    }
    Ok(FileSelection { operation, paths: params.paths })
}

/// No entry is named twice.
pub open spec fn targets_distinct(targets: Seq<EntryTarget>) -> bool {
    forall|i: int, j: int|
        0 <= i < j < targets.len() ==> targets[i].opaque_id@ != targets[j].opaque_id@
}

/// Every entry is named.
pub open spec fn targets_named(targets: Seq<EntryTarget>) -> bool {
    forall|i: int| 0 <= i < targets.len() ==> (#[trigger] targets[i]).opaque_id@ != ""@
}

/// Entries may be deleted together: there are some, not too many, each is named
/// and none twice.
pub open spec fn deletable(targets: Seq<EntryTarget>) -> bool {
    &&& 1 <= targets.len() <= MAX_DELETED
    &&& targets_named(targets)
    &&& targets_distinct(targets)
}

/// `error` says why entries may not be deleted together.
pub open spec fn targets_refused(targets: Seq<EntryTarget>, error: ApiError) -> bool {
    if !(1 <= targets.len() <= MAX_DELETED) {
        error.invalid("entries must contain between 1 and 5000 items"@)
    } else {
        ||| !targets_named(targets) && error.invalid("entry_id is required"@)
        ||| !targets_distinct(targets) && error.invalid("entries must be unique"@)
    }
}

/// Rejects a list of entries that may not be deleted together.
pub fn validate_targets(targets: &Vec<EntryTarget>) -> (result: Result<(), ApiError>)
    ensures
        match result {
            Ok(_) => deletable(targets@),
            Err(error) => !deletable(targets@) && targets_refused(targets@, error),
        },
{
    if targets.len() < 1 || targets.len() > MAX_DELETED {
        return Err(ApiError::validation("entries must contain between 1 and 5000 items"));
    }
    let mut seen = StringHashSet::new();
    let mut at: usize = 0;
    while at < targets.len()
        invariant
            at <= targets@.len() <= MAX_DELETED,
            1 <= targets@.len(),
            forall|s: Seq<char>|
                seen@.contains(s) <==> exists|i: int|
                    0 <= i < at && (#[trigger] targets@[i]).opaque_id@ == s,
            forall|i: int| 0 <= i < at ==> (#[trigger] targets@[i]).opaque_id@ != ""@,
            forall|i: int, j: int|
                0 <= i < j < at ==> targets@[i].opaque_id@ != targets@[j].opaque_id@,
        decreases targets@.len() - at,
    {
        let id = targets[at].opaque_id.as_str();
        if let Err(error) = validate_entry_id(id) {
            assert(targets@[at as int].opaque_id@ == ""@);
            return Err(error);
        }
        if seen.contains(id) {
            return Err(ApiError::validation("entries must be unique"));
        }
        let ghost before = seen@;
        seen.insert(id.to_owned());
        proof {
            assert forall|s: Seq<char>| seen@.contains(s) implies exists|i: int|
                0 <= i < at + 1 && (#[trigger] targets@[i]).opaque_id@ == s by {
                if s == targets@[at as int].opaque_id@ {
                    assert(targets@[at as int].opaque_id@ == s);
                } else {
                    assert(before.contains(s));
                }
            }
            assert forall|i: int, j: int| 0 <= i < j < at + 1 implies targets@[i].opaque_id@
                != targets@[j].opaque_id@ by {
                if j == at {
                    assert(!before.contains(targets@[j].opaque_id@));
                }
            }
        }
        at = at + 1;
    }
    Ok(())
}

/// What is told of a paste whose content was published: whether there is a
/// window to paste into decides.
pub open spec fn paste_feedback_of(has_target: bool, image_as_file: bool) -> (Seq<char>, Seq<char>) {
    if has_target {
        if image_as_file {
            ("paste-prepared"@, "Image file link prepared; hide the picker"@)
        } else {
            ("paste-prepared"@, "Paste prepared; hide the picker"@)
        }
    } else if image_as_file {
        ("completed"@, "Image file link copied; paste manually"@)
    } else {
        ("completed"@, "Copied; paste manually"@)
    }
}

/// What is told of a paste whose content was published.
pub fn paste_feedback(has_target: bool, image_as_file: bool) -> (feedback: (
    &'static str,
    &'static str,
))
    ensures
        (feedback.0@, feedback.1@) == paste_feedback_of(has_target, image_as_file),
{
    if has_target {
        if image_as_file {
            ("paste-prepared", "Image file link prepared; hide the picker")
        } else {
            ("paste-prepared", "Paste prepared; hide the picker")
        }
    } else if image_as_file {
        ("completed", "Image file link copied; paste manually")
    } else {
        ("completed", "Copied; paste manually")
    }
}

/// Something to be opened outside the daemon.
#[derive(Debug, PartialEq, Eq)]
pub enum Launch {
    /// This URL, with the program for it.
    Url(String),
    /// The file at `path`, which `uri` stands for, where it exists: with the
    /// program for it, or in the file manager.
    File { path: Vec<u8>, uri: String, reveal: bool },
}

/// How a program is run, or the file manager asked.
#[derive(Debug, PartialEq, Eq)]
pub enum LaunchCommand {
    /// Run this program with this argument.
    Spawn { program: String, argument: Vec<u8> },
    /// Ask the file manager to show the file with this URL.
    ShowItems(String),
}

/// A failure of this kind, as callers see it.
pub open spec fn failure(error: ApiError, kind: BackendErrorKind, message: Seq<char>) -> bool {
    &&& error.code@ == kind.code_of()
    &&& error.message@ == message
    &&& error.retryable == (kind is Unavailable)
}

/// A failure of this kind, as callers see it.
fn backend_failure(kind: BackendErrorKind, message: &str) -> (error: ApiError)
    ensures
        failure(error, kind, message@),
{
    ApiError::from_backend(BackendError::new(kind, message))
}

/// What is opened for a text with this scheme and normal form: only a web
/// address.
pub fn web_url(scheme: Option<String>, url: Option<String>) -> (result: Result<Launch, ApiError>)
    requires
        scheme is Some <==> url is Some,
    ensures
        match scheme {
            None => result matches Err(error) && failure(
                error,
                BackendErrorKind::InvalidData,
                "URL is malformed"@,
            ),
            Some(scheme) => if scheme@ == "http"@ || scheme@ == "https"@ {
                result == Ok::<Launch, ApiError>(Launch::Url(url->0))
            } else {
                result matches Err(error) && failure(
                    error,
                    BackendErrorKind::InvalidData,
                    "Only HTTP and HTTPS URLs can be opened directly"@,
                )
            },
        },
{
    match (scheme, url) {
        (Some(scheme), Some(url)) => {
            if text::same(scheme.as_str(), "http") || text::same(scheme.as_str(), "https") {
                Ok(Launch::Url(url))
            } else {
                Err(
                    backend_failure(
                        BackendErrorKind::InvalidData,
                        "Only HTTP and HTTPS URLs can be opened directly",
                    ),
                )
            }
        },
        _ => Err(backend_failure(BackendErrorKind::InvalidData, "URL is malformed")),
    }
}

/// What there is to open for a text: the whole of it must be a web address.
pub open spec fn url_opens(value: Seq<char>, result: Result<Launch, ApiError>) -> bool {
    let uri = text::trimmed(value);
    match content::url_scheme(uri) {
        None => result matches Err(error) && failure(
            error,
            BackendErrorKind::InvalidData,
            "URL is malformed"@,
        ),
        Some(scheme) => if scheme == "http"@ || scheme == "https"@ {
            result matches Ok(Launch::Url(url)) && content::url_text(uri) == Some(url@)
        } else {
            result matches Err(error) && failure(
                error,
                BackendErrorKind::InvalidData,
                "Only HTTP and HTTPS URLs can be opened directly"@,
            )
        },
    }
}

/// The URL to open for a text: the whole of it must be a web address.
pub fn open_url(value: &str) -> (result: Result<Launch, ApiError>)
    ensures
        url_opens(value@, result),
{
    let uri = text::trim(value);
    web_url(content::scheme(uri.as_str()), content::normal_url(uri.as_str()))
}

/// The local path of a file on the clipboard.
pub fn local_path(file: &FilePreview) -> (path: Result<Vec<u8>, ApiError>)
    ensures
        match path {
            Ok(path) => content::url_path(file.uri@) == Some(path@),
            Err(error) => content::url_path(file.uri@) is None && failure(
                error,
                BackendErrorKind::InvalidData,
                "Clipboard entry is not a local file"@,
            ),
        },
{
    match content::local_path(file.uri.as_str()) {
        Some(path) => Ok(path),
        None => Err(
            backend_failure(BackendErrorKind::InvalidData, "Clipboard entry is not a local file"),
        ),
    }
}

/// What there is to open for an entry that names files.
pub open spec fn file_opens(
    details: EntryDetails,
    index: Option<usize>,
    reveal: bool,
    result: Result<Launch, ApiError>,
) -> bool {
    let at = match index {
        Some(index) => index,
        None => 0,
    };
    if at >= details.files@.len() {
        result matches Err(error) && error.invalid(
            "file_index does not identify a clipboard file"@,
        )
    } else {
        let uri = details.files@[at as int].uri@;
        match content::url_path(uri) {
            None => result matches Err(error) && failure(
                error,
                BackendErrorKind::InvalidData,
                "Clipboard entry is not a local file"@,
            ),
            Some(local) => result matches Ok(Launch::File { path, uri: shown, reveal: to })
                && path@ == local && shown@ == uri && to == reveal,
        }
    }
}

/// The web address to open for an entry. It has to be known to its end.
pub open spec fn link_opens(details: EntryDetails, result: Result<Launch, ApiError>) -> bool {
    if details.preview_truncated {
        result matches Err(error) && failure(
            error,
            BackendErrorKind::InvalidData,
            "Clipboard URL is too long to be opened"@,
        )
    } else {
        let value = match details.text {
            Some(value) => value@,
            None => ""@,
        };
        url_opens(value, result)
    }
}

/// The web address to open for an entry.
pub fn open_link(details: &EntryDetails) -> (result: Result<Launch, ApiError>)
    ensures
        link_opens(*details, result),
{
    if details.preview_truncated {
        return Err(
            backend_failure(
                BackendErrorKind::InvalidData,
                "Clipboard URL is too long to be opened",
            ),
        );
    }
    match &details.text {
        Some(value) => open_url(value.as_str()),
        None => open_url(""),
    }
}

/// The file to open for an entry.
pub fn open_file(details: &EntryDetails, index: Option<usize>, reveal: bool) -> (result: Result<
    Launch,
    ApiError,
>)
    ensures
        file_opens(*details, index, reveal, result),
{
    let file = match selected_file(details, index) {
        Ok(file) => file,
        Err(error) => {
            return Err(error);
        },
    };
    match local_path(&file) {
        Ok(path) => Ok(Launch::File { path, uri: file.uri, reveal }),
        Err(error) => Err(error),
    }
}

/// How something is opened, given whether its file exists.
pub open spec fn commands(
    launch: Launch,
    exists: bool,
    result: Result<LaunchCommand, ApiError>,
) -> bool {
    match launch {
        Launch::Url(url) => result matches Ok(LaunchCommand::Spawn { program, argument })
            && program@ == "xdg-open"@ && argument@ == encode_utf8(url@),
        Launch::File { path, uri, reveal } => if !exists {
            result matches Err(error) && failure(
                error,
                BackendErrorKind::NotFound,
                "Clipboard file no longer exists"@,
            )
        } else if !reveal {
            result matches Ok(LaunchCommand::Spawn { program, argument }) && program@
                == "xdg-open"@ && argument == path
        } else {
            match content::url_path(uri@) {
                Some(_) => result matches Ok(LaunchCommand::ShowItems(url)) && Some(url@)
                    == content::url_of_local(uri@),
                None => result matches Err(error) && failure(
                    error,
                    BackendErrorKind::InvalidData,
                    "Clipboard entry is not a local file"@,
                ),
            }
        },
    }
}

/// How something is opened. A file must exist at this moment.
pub fn launch_command(launch: Launch, exists: bool) -> (result: Result<LaunchCommand, ApiError>)
    ensures
        commands(launch, exists, result),
{
    match launch {
        Launch::Url(url) => {
            let mut argument: Vec<u8> = Vec::new();
            argument.extend_from_slice(url.as_str().as_bytes());
            assert(argument@ =~= encode_utf8(url@));
            Ok(LaunchCommand::Spawn { program: "xdg-open".to_owned(), argument })
        },
        Launch::File { path, uri, reveal } => {
            if !exists {
                return Err(
                    backend_failure(BackendErrorKind::NotFound, "Clipboard file no longer exists"),
                );
            }
            if !reveal {
                return Ok(LaunchCommand::Spawn { program: "xdg-open".to_owned(), argument: path });
            }
            match content::local_url(uri.as_str()) {
                Some(url) => Ok(LaunchCommand::ShowItems(url)),
                None => Err(
                    backend_failure(
                        BackendErrorKind::InvalidData,
                        "Clipboard entry is not a local file",
                    ),
                ),
            }
        },
    }
}

/// What came of opening something.
#[derive(Debug, Clone, Copy, PartialEq, Eq, Structural)]
pub enum LaunchOutcome {
    Launched,
    /// The program could not be run.
    NotSpawned,
    /// The session bus could not be reached.
    NoBus,
    /// There is no file manager.
    NoFileManager,
    /// The file manager could not show the file.
    NotRevealed,
}

/// What is told of something that was to be opened.
pub open spec fn launch_message(action: Seq<char>, outcome: LaunchOutcome) -> Seq<char> {
    match outcome {
        LaunchOutcome::Launched => if action == "open-url"@ {
            "URL opened"@
        } else if action == "reveal-file"@ {
            "File revealed"@
        } else {
            "File opened"@
        },
        LaunchOutcome::NotSpawned => "Application launch failed"@,
        LaunchOutcome::NoBus => "Could not connect to the desktop file manager"@,
        LaunchOutcome::NoFileManager => "Desktop file manager is unavailable"@,
        LaunchOutcome::NotRevealed => "Desktop file manager could not reveal the file"@,
    }
}

/// What is told of something that was to be opened.
pub open spec fn launch_told(
    action: Seq<char>,
    outcome: LaunchOutcome,
    result: Result<OperationResult, ApiError>,
) -> bool {
    match result {
        Ok(operation) => {
            &&& outcome is Launched
            &&& operation.action@ == action
            &&& operation.status@ == "completed"@
            &&& operation.message@ == launch_message(action, outcome)
            &&& operation.path is None
            &&& operation.warning is None
        },
        Err(error) => !(outcome is Launched) && failure(
            error,
            BackendErrorKind::OperationFailed,
            launch_message(action, outcome),
        ),
    }
}

/// What is told of something that was to be opened.
pub fn launched(action: &str, outcome: LaunchOutcome) -> (result: Result<OperationResult, ApiError>)
    ensures
        launch_told(action@, outcome, result),
{
    let message = match outcome {
        LaunchOutcome::Launched => {
            let message = if text::same(action, "open-url") {
                "URL opened"
            } else if text::same(action, "reveal-file") {
                "File revealed"
            } else {
                "File opened"
            };
            return Ok(OperationResult::completed(action, message));
        },
        LaunchOutcome::NotSpawned => "Application launch failed",
        LaunchOutcome::NoBus => "Could not connect to the desktop file manager",
        LaunchOutcome::NoFileManager => "Desktop file manager is unavailable",
        LaunchOutcome::NotRevealed => "Desktop file manager could not reveal the file",
    };
    Err(backend_failure(BackendErrorKind::OperationFailed, message))
}

} // verus!
