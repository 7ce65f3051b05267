//! What callers may ask for, and what is then done.
use crate::actions;
use crate::actions::{
    ApiError, Launch, LaunchCommand, LaunchOutcome, PublishFilesParams, QueryParams,
};
use crate::backend;
use crate::backend::{
    BackendError, BackendMutation, BackendResult, EntryTarget, FileSelection, ScreenshotMode,
    ScreenshotRegion,
};
use crate::model::{EntryDetails, FilePreview, OperationResult};
use crate::ringboard::content;
use crate::text;
use vstd::prelude::*;
use vstd::string::*;
use vstd::utf8::*;

verus! {

proof fn names_of_actions_differ()
    ensures
        "paste"@ != "copy"@,
        "annotate"@ != "paste"@ && "image-as-file"@ != "paste"@,
        "open-url"@ != "paste"@ && "open-url"@ != "image-as-file"@ && "open-url"@ != "annotate"@,
        "open-file"@ != "paste"@ && "open-file"@ != "image-as-file"@ && "open-file"@ != "annotate"@
            && "open-file"@ != "open-url"@,
        "reveal-file"@ != "paste"@ && "reveal-file"@ != "image-as-file"@ && "reveal-file"@
            != "annotate"@ && "reveal-file"@ != "open-url"@,
        forall|i: int| 0 <= i < 6 ==> #[trigger] always_allowed()[i] != "paste"@,
        forall|i: int| 0 <= i < 6 ==> #[trigger] always_allowed()[i] != "image-as-file"@,
        forall|i: int| 0 <= i < 6 ==> #[trigger] always_allowed()[i] != "annotate"@,
        forall|i: int| 0 <= i < 6 ==> #[trigger] always_allowed()[i] != "open-url"@,
        forall|i: int| 0 <= i < 6 ==> #[trigger] always_allowed()[i] != "open-file"@,
        forall|i: int| 0 <= i < 6 ==> #[trigger] always_allowed()[i] != "reveal-file"@,
{
    reveal_strlit("copy");
    reveal_strlit("delete");
    reveal_strlit("favorite");
    reveal_strlit("unfavorite");
    reveal_strlit("pin-current");
    reveal_strlit("cleanup");
    reveal_strlit("paste");
    reveal_strlit("image-as-file");
    reveal_strlit("annotate");
    reveal_strlit("open-url");
    reveal_strlit("open-file");
    reveal_strlit("reveal-file");
    assert("copy"@.len() == 4);
    assert("delete"@.len() == 6);
    assert("favorite"@.len() == 8);
    assert("unfavorite"@.len() == 10);
    assert("pin-current"@.len() == 11);
    assert("cleanup"@.len() == 7);
    assert("paste"@.len() == 5);
    assert("image-as-file"@.len() == 13);
    assert("annotate"@.len() == 8);
    assert("open-url"@.len() == 8);
    assert("open-file"@.len() == 9);
    assert("reveal-file"@.len() == 11);
    assert("favorite"@[0] != "annotate"@[0]);
    assert("favorite"@[0] != "open-url"@[0]);
    assert("annotate"@[0] != "open-url"@[0]);
    assert("pin-current"@[0] != "reveal-file"@[0]);
}

/// What may be done with any entry.
pub open spec fn always_allowed() -> Seq<Seq<char>> {
    seq!["copy"@, "delete"@, "favorite"@, "unfavorite"@, "pin-current"@, "cleanup"@]
}

/// What may be done with an entry: copying it, deleting it, marking it and cleaning up
/// always; pasting it unless it is binary; making a file of it or editing it where it
/// is an image; opening its address where it is a link, and its files where it names
/// any. Nothing else may be done.
pub proof fn actions_suit_their_entries(
    details: EntryDetails,
    action: &str,
    result: Result<(), ApiError>,
)
    requires
        call_ensures(actions::validate_action, (&details, action), result),
    ensures
        (exists|i: int| 0 <= i < 6 && #[trigger] always_allowed()[i] == action@) ==> result is Ok,
        action@ == "paste"@ ==> (result is Ok <==> !(details.entry.kind is Binary)),
        action@ == "image-as-file"@ || action@ == "annotate"@ ==> (result is Ok
            <==> details.entry.kind is Image),
        action@ == "open-url"@ ==> (result is Ok <==> details.entry.kind is Link),
        action@ == "open-file"@ || action@ == "reveal-file"@ ==> (result is Ok
            <==> details.files@.len() > 0),
        result is Ok ==> (exists|i: int| 0 <= i < 6 && #[trigger] always_allowed()[i] == action@)
            || action@ == "paste"@ || action@ == "image-as-file"@ || action@ == "annotate"@
            || action@ == "open-url"@ || action@ == "open-file"@ || action@ == "reveal-file"@,
        result matches Err(error) ==> error.code@ == "validation-error"@ && !error.retryable,
{
    names_of_actions_differ();
    assert(always_allowed()[0] == "copy"@);
    assert(always_allowed()[1] == "delete"@);
    assert(always_allowed()[2] == "favorite"@);
    assert(always_allowed()[3] == "unfavorite"@);
    assert(always_allowed()[4] == "pin-current"@);
    assert(always_allowed()[5] == "cleanup"@);
}

/// What an action changes: copying and pasting put the entry on the clipboard, and the
/// others do what they say; clearing the history is no such action.
pub proof fn actions_change_what_they_say(
    action: &str,
    max_bytes: u64,
    mutation: Option<BackendMutation>,
)
    requires
        call_ensures(BackendMutation::for_action, (action, max_bytes), mutation),
    ensures
        action@ == "copy"@ || action@ == "paste"@ ==> mutation == Some(
            BackendMutation::Restore { max_bytes },
        ),
        action@ == "image-as-file"@ ==> mutation == Some(BackendMutation::ImageAsFile { max_bytes }),
        action@ == "annotate"@ ==> mutation == Some(BackendMutation::Annotate { max_bytes }),
        action@ == "delete"@ ==> mutation == Some(BackendMutation::Remove),
        action@ == "favorite"@ || action@ == "pin-current"@ ==> mutation == Some(
            BackendMutation::SetFavorite(true),
        ),
        action@ == "unfavorite"@ ==> mutation == Some(BackendMutation::SetFavorite(false)),
        action@ == "cleanup"@ ==> mutation == Some(BackendMutation::Cleanup),
        mutation != Some(BackendMutation::Wipe),
{
    reveal_strlit("copy");
    reveal_strlit("paste");
    reveal_strlit("image-as-file");
    reveal_strlit("annotate");
    reveal_strlit("delete");
    reveal_strlit("favorite");
    reveal_strlit("pin-current");
    reveal_strlit("unfavorite");
    reveal_strlit("cleanup");
    assert("copy"@.len() == 4);
    assert("paste"@.len() == 5);
    assert("image-as-file"@.len() == 13);
    assert("annotate"@.len() == 8);
    assert("delete"@.len() == 6);
    assert("favorite"@.len() == 8);
    assert("pin-current"@.len() == 11);
    assert("unfavorite"@.len() == 10);
    assert("cleanup"@.len() == 7);
    assert("favorite"@[0] != "annotate"@[0]);
}

/// A change of one entry needs the revision that the caller saw; clearing the history
/// and cleaning up do not.
pub proof fn changes_of_entries_need_a_revision(
    mutation: BackendMutation,
    expected: Option<u64>,
    required: BackendResult<bool>,
)
    requires
        call_ensures(BackendMutation::require_revision, (mutation, expected), required),
    ensures
        mutation is Wipe || mutation is Cleanup ==> required == Ok::<bool, BackendError>(false),
        !(mutation is Wipe || mutation is Cleanup) ==> (required is Ok <==> expected is Some),
        !(mutation is Wipe || mutation is Cleanup) && required is Ok ==> required->Ok_0,
{
}

/// A revision is refused exactly where the caller named one and the entry has another.
pub proof fn other_revisions_are_refused(
    expected: Option<u64>,
    actual: u64,
    result: Result<(), ApiError>,
)
    requires
        call_ensures(actions::validate_revision, (expected, actual), result),
    ensures
        result is Err <==> expected is Some && expected->0 != actual,
        result matches Err(error) ==> error.code@ == "stale-entry"@ && error.retryable,
{
}

/// An entry has to be named.
pub proof fn entries_are_named(id: &str, result: Result<(), ApiError>)
    requires
        call_ensures(actions::validate_entry_id, (id,), result),
    ensures
        result is Ok <==> id@.len() > 0,
{
    reveal_strlit("");
    if id@.len() == 0 {
        assert(id@ =~= ""@);
    }
}

/// A query asks for 1 to 200 entries, with at most 4 096 bytes of text, or 256
/// characters where it is fuzzy.
pub proof fn queries_are_bounded(params: QueryParams, result: Result<(), ApiError>)
    requires
        call_ensures(actions::validate_query, (&params,), result),
    ensures
        result is Ok <==> 1 <= params.limit <= 200 && (params.fuzzy ==> params.query@.len() <= 256)
            && (!params.fuzzy ==> encode_utf8(params.query@).len() <= 4_096),
        result matches Err(error) ==> error.code@ == "validation-error"@,
{
}

/// A query that says nothing asks for the first hundred entries, for whatever they
/// hold.
pub proof fn queries_have_defaults(params: QueryParams)
    requires
        call_ensures(QueryParams::default, (), params),
    ensures
        params.limit == 100,
        params.offset == 0,
        params.generation == 0,
        params.query@.len() == 0,
        !params.fuzzy,
        params.cursor is None,
{
    reveal_strlit("");
}

/// A screenshot has at least one pixel, edges of at most 16 384 and an area of at most
/// 32 Mi pixels.
pub proof fn screenshots_are_bounded(region: ScreenshotRegion, result: Result<(), ApiError>)
    requires
        call_ensures(actions::validate_region, (&region,), result),
    ensures
        result is Ok <==> 1 <= region.width <= 16_384 && 1 <= region.height <= 16_384
            && region.width * region.height <= 33_554_432,
{
}

/// The two ways of taking a screenshot by hand have their names.
pub proof fn screenshot_modes_have_names(name: &str, mode: Option<ScreenshotMode>)
    requires
        call_ensures(ScreenshotMode::parse, (name,), mode),
    ensures
        mode == Some(ScreenshotMode::Region) <==> name@ == "region"@,
        mode == Some(ScreenshotMode::Screen) <==> name@ == "screen"@,
{
    reveal_strlit("region");
    reveal_strlit("screen");
    assert("region"@[0] != "screen"@[0]);
}

/// Content may be anything but nothing.
pub proof fn content_is_something(bytes: &[u8], result: Result<(), ApiError>)
    requires
        call_ensures(actions::validate_content, (bytes,), result),
    ensures
        result is Ok <==> bytes@.len() > 0,
{
}

/// Files are published as they are listed, from 1 to 100, by absolute paths, to be
/// copied or moved as the caller says.
pub proof fn files_are_selected_as_listed(
    params: PublishFilesParams,
    selection: Result<FileSelection, ApiError>,
)
    requires
        call_ensures(actions::file_selection, (params,), selection),
    ensures
        selection is Ok <==> (params.operation@ == "copy"@ || params.operation@ == "cut"@) && 1
            <= params.paths@.len() <= 100 && forall|i: int|
            0 <= i < params.paths@.len() ==> (#[trigger] params.paths@[i])@.len() > 0
                && params.paths@[i]@[0] == '/',
        selection matches Ok(selection) ==> selection.paths@ == params.paths@ && (
        params.operation@ == "copy"@ ==> selection.operation is Copy) && (params.operation@
            == "cut"@ ==> selection.operation is Cut),
{
    reveal_strlit("copy");
    reveal_strlit("cut");
    assert("copy"@.len() != "cut"@.len());
    assert forall|i: int| 0 <= i < params.paths@.len() implies (backend::absolute(
        (#[trigger] params.paths@[i])@,
    ) <==> params.paths@[i]@.len() > 0 && params.paths@[i]@[0] == '/') by {}
}

/// From 1 to 5 000 entries are deleted together, each named once.
pub proof fn deletions_are_bounded(targets: Vec<EntryTarget>, result: Result<(), ApiError>)
    requires
        call_ensures(actions::validate_targets, (&targets,), result),
    ensures
        result is Ok <==> 1 <= targets@.len() <= 5_000 && (forall|i: int|
            0 <= i < targets@.len() ==> (#[trigger] targets@[i]).opaque_id@.len() > 0) && (forall|
            i: int,
            j: int,
        |
            0 <= i < j < targets@.len() ==> (#[trigger] targets@[i]).opaque_id@
                != (#[trigger] targets@[j]).opaque_id@),
{
    reveal_strlit("");
    assert forall|i: int| 0 <= i < targets@.len() implies ((#[trigger] targets@[i]).opaque_id@
        != ""@ <==> targets@[i].opaque_id@.len() > 0) by {
        if targets@[i].opaque_id@.len() == 0 {
            assert(targets@[i].opaque_id@ =~= ""@);
        }
    }
}

/// The file that is asked for is the one at the place that was named, or the first.
pub proof fn files_are_picked_by_their_place(
    details: EntryDetails,
    index: Option<usize>,
    file: Result<FilePreview, ApiError>,
)
    requires
        call_ensures(actions::selected_file, (&details, index), file),
    ensures
        index is None ==> (file is Ok <==> details.files@.len() > 0),
        index matches Some(at) ==> (file is Ok <==> at < details.files@.len()),
        index is None && file is Ok ==> file->Ok_0 == details.files@[0],
        index is Some && file is Ok ==> file->Ok_0 == details.files@[index->0 as int],
{
}

/// A paste is prepared where there is a window to paste into, and else only copied.
pub proof fn pastes_need_a_window(
    has_target: bool,
    image_as_file: bool,
    feedback: (&'static str, &'static str),
)
    requires
        call_ensures(actions::paste_feedback, (has_target, image_as_file), feedback),
    ensures
        has_target ==> feedback.0@ == "paste-prepared"@,
        !has_target ==> feedback.0@ == "completed"@,
{
}

/// Only web addresses are opened, in their normal form, and the whole text has to be
/// one.
pub proof fn only_web_addresses_are_opened(
    scheme: Option<String>,
    url: Option<String>,
    result: Result<Launch, ApiError>,
)
    requires
        scheme is Some <==> url is Some,
        call_ensures(actions::web_url, (scheme, url), result),
    ensures
        result is Ok <==> scheme is Some && (scheme->0@ == "http"@ || scheme->0@ == "https"@),
        result matches Ok(launch) ==> launch == Launch::Url(url->0),
        result matches Err(error) ==> error.code@ == "invalid-entry"@ && !error.retryable,
{
}

/// An entry's address is opened only where all of it is known.
pub proof fn addresses_are_opened_whole(details: EntryDetails, result: Result<Launch, ApiError>)
    requires
        call_ensures(actions::open_link, (&details,), result),
    ensures
        details.preview_truncated ==> result is Err,
        result matches Ok(launch) ==> (launch matches Launch::Url(url) && details.text is Some
            && content::url_text(text::trimmed(details.text->0@)) == Some(url@)) || details.text is None,
{
}

/// A file is opened, or shown in the file manager, by the local path that its address
/// stands for, and only while it exists.
pub proof fn files_are_opened_while_they_exist(
    details: EntryDetails,
    index: Option<usize>,
    reveal: bool,
    launch: Result<Launch, ApiError>,
    exists_now: bool,
    command: Result<LaunchCommand, ApiError>,
)
    requires
        call_ensures(actions::open_file, (&details, index, reveal), launch),
        launch is Ok,
        call_ensures(actions::launch_command, (launch->Ok_0, exists_now), command),
    ensures
        !exists_now ==> (command matches Err(error) && error.code@ == "entry-not-found"@),
        exists_now ==> command is Ok,
        exists_now && !reveal ==> (command matches Ok(LaunchCommand::Spawn { program, argument })
            && program@ == "xdg-open"@ && content::url_path(
            details.files@[if index is Some {
                index->0 as int
            } else {
                0
            }].uri@,
        ) == Some(argument@)),
        exists_now && reveal ==> command->Ok_0 is ShowItems,
{
}

/// An address is opened with the program for it, as it is.
pub proof fn addresses_are_opened_as_they_are(
    url: String,
    exists_now: bool,
    command: Result<LaunchCommand, ApiError>,
)
    requires
        call_ensures(actions::launch_command, (Launch::Url(url), exists_now), command),
    ensures
        command matches Ok(LaunchCommand::Spawn { program, argument }) && program@ == "xdg-open"@
            && argument@ == encode_utf8(url@),
{
}

/// Opening something is told as done exactly where it was launched.
pub proof fn launches_are_told_as_they_went(
    action: &str,
    outcome: LaunchOutcome,
    result: Result<OperationResult, ApiError>,
)
    requires
        call_ensures(actions::launched, (action, outcome), result),
    ensures
        result is Ok <==> outcome is Launched,
        result matches Ok(operation) ==> operation.action@ == action@ && operation.status@
            == "completed"@ && operation.path is None && operation.warning is None,
        result matches Err(error) ==> error.code@ == "operation-failed"@,
{
}

/// A failure of the store keeps what it says and has a code of its own; only one that
/// is unavailable may be tried again.
pub proof fn failures_have_codes(error: BackendError, result: ApiError)
    requires
        call_ensures(ApiError::from_backend, (error,), result),
    ensures
        result.message@ == error.message@,
        result.retryable <==> error.kind is Unavailable,
        error.kind is Unavailable ==> result.code@ == "backend-unavailable"@,
        error.kind is NotFound ==> result.code@ == "entry-not-found"@,
        error.kind is Stale ==> result.code@ == "stale-action"@,
        error.kind is InvalidData ==> result.code@ == "invalid-entry"@,
        error.kind is OperationFailed ==> result.code@ == "operation-failed"@,
{
}

/// A text is opened as the web address that it is, without the white space around it;
/// anything but a web address is refused.
pub proof fn texts_are_opened_as_addresses(
    value: &str,
    result: Result<Launch, ApiError>,
    file: FilePreview,
    path: Result<Vec<u8>, ApiError>,
)
    requires
        call_ensures(actions::open_url, (value,), result),
        call_ensures(actions::local_path, (&file,), path),
    ensures
        result is Ok <==> (content::url_scheme(text::trimmed(value@)) matches Some(scheme) && (scheme
            == "http"@ || scheme == "https"@)),
        result matches Ok(launch) ==> (launch matches Launch::Url(url) && content::url_text(
            text::trimmed(value@),
        ) == Some(url@)),
        path is Ok <==> content::url_path(file.uri@) is Some,
        path matches Ok(path) ==> content::url_path(file.uri@) == Some(path@),
{
}

/// A rectangle that may be captured is not empty, and a path is absolute that begins
/// with a slash.
pub proof fn bounds_and_roots_are_checked(
    region: ScreenshotRegion,
    bounded: bool,
    path: &str,
    absolute: bool,
)
    requires
        call_ensures(ScreenshotRegion::is_bounded, (&region,), bounded),
        call_ensures(backend::is_absolute, (path,), absolute),
    ensures
        bounded <==> 1 <= region.width <= 16_384 && 1 <= region.height <= 16_384 && region.width
            * region.height <= 33_554_432,
        absolute <==> path@.len() > 0 && path@[0] == '/',
{
}

/// What is told of an operation is what was done: its name, and whether it is done or
/// has only begun.
pub proof fn operations_are_told_as_they_stand(
    action: &str,
    message: &str,
    completed: OperationResult,
    started: OperationResult,
    id: String,
    status: &str,
    given: OperationResult,
)
    requires
        call_ensures(OperationResult::completed, (action, message), completed),
        call_ensures(OperationResult::started, (action, message), started),
        call_ensures(OperationResult::with_id, (id, action, status, message), given),
    ensures
        completed.action@ == action@ && completed.status@ == "completed"@ && completed.message@
            == message@,
        started.action@ == action@ && started.status@ == "started"@ && started.message@ == message@,
        given.id == id && given.action@ == action@ && given.status@ == status@ && given.message@
            == message@,
        completed.warning is None && completed.path is None,
        started.warning is None && started.path is None,
        given.warning is None && given.path is None,
{
}

} // verus!
