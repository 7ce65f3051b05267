//! Putting content and files on the clipboard for a caller.
use crate::backend;
use crate::backend::{
    BackendError, BackendErrorKind, BackendResult, FileSelection, MAX_FILES,
};
use crate::bytes;
use crate::model::OperationResult;
use crate::ringboard::content::file_url;
use crate::ringboard::mutation;
use crate::selection::{SelectionPublisher, SelectionService};
use crate::text;
use vstd::prelude::*;
use vstd::string::*;
use vstd::utf8::*;

verus! {

/// Why a path cannot be put on the clipboard, where it cannot.
pub open spec fn path_refusal(path: Seq<char>) -> Option<Seq<char>> {
    if !backend::absolute(path) {
        Some("File selection paths must be absolute"@)
    } else {
        None
    }
}

/// The URLs of the paths, each on a line.
pub open spec fn uri_list(paths: Seq<String>) -> Seq<u8>
    decreases paths.len(),
{
    if paths.len() == 0 {
        Seq::empty()
    } else {
        uri_list(paths.drop_last()) + mutation::link_bytes(mutation::path_url(paths.last()@)->0)
    }
}

/// The list for paths whose URLs are known, where they all are.
pub fn join_uris(urls: &Vec<String>) -> (list: Vec<u8>)
    ensures
        list@ == joined_urls(urls@),
{
    let mut list: Vec<u8> = Vec::new();
    let mut at: usize = 0;
    assert(urls@.take(0) =~= Seq::empty());
    while at < urls.len()
        invariant
            at <= urls@.len(),
            list@ == joined_urls(urls@.take(at as int)),
        decreases urls@.len() - at,
    {
        assert(urls@.take(at + 1).drop_last() =~= urls@.take(at as int));
        bytes::append(&mut list, urls[at].as_str().as_bytes());
        bytes::append(&mut list, "\r\n".as_bytes());
        assert(list@ =~= joined_urls(urls@.take(at + 1)));
        at = at + 1;
    }
    assert(urls@.take(at as int) =~= urls@);
    list
}

/// The URLs, each on a line.
pub open spec fn joined_urls(urls: Seq<String>) -> Seq<u8>
    decreases urls.len(),
{
    if urls.len() == 0 {
        Seq::empty()
    } else {
        joined_urls(urls.drop_last()) + mutation::link_bytes(urls.last()@)
    }
}

/// The list of URLs for paths; the first path that cannot be put on the
/// clipboard decides the error.
pub fn encode_file_uris(paths: &Vec<String>) -> (list: BackendResult<Vec<u8>>)
    ensures
        match list {
            Ok(list) => {
                &&& forall|i: int|
                    0 <= i < paths@.len() ==> path_refusal((#[trigger] paths@[i])@) is None
                &&& list@ == uri_list(paths@)
            },
            Err(error) => exists|i: int|
                0 <= i < paths@.len() && path_refusal((#[trigger] paths@[i])@) is Some && error.is(
                    BackendErrorKind::InvalidData,
                    path_refusal(paths@[i]@)->0,
                ) && forall|j: int|
                    0 <= j < i ==> path_refusal((#[trigger] paths@[j])@) is None,
        },
{
    let mut urls: Vec<String> = Vec::new();
    let mut at: usize = 0;
    assert(paths@.take(0) =~= Seq::empty());
    while at < paths.len()
        invariant
            at <= paths@.len(),
            urls@.len() == at,
            forall|i: int| 0 <= i < at ==> path_refusal((#[trigger] paths@[i])@) is None,
            joined_urls(urls@) == uri_list(paths@.take(at as int)),
        decreases paths@.len() - at,
    {
        let path = paths[at].as_str();
        if !backend::is_absolute(path) {
            assert(path_refusal(paths@[at as int]@) is Some);
            return Err(
                BackendError::new(
                    BackendErrorKind::InvalidData,
                    "File selection paths must be absolute",
                ),
            );
        }
        match file_url(path) {
            Some(url) => {
                let ghost before = urls@;
                urls.push(url);
                assert(urls@.drop_last() =~= before);
                assert(paths@.take(at + 1).drop_last() =~= paths@.take(at as int));
            },
            None => {
                assert(path_refusal(paths@[at as int]@) is Some);
                return Err(
                    BackendError::new(
                        BackendErrorKind::InvalidData,
                        "File selection path is invalid",
                    ),
                );
            },
        }
        at = at + 1;
    }
    assert(paths@.take(at as int) =~= paths@);
    Ok(join_uris(&urls))
}

/// What is told of published content.
fn told(result: BackendResult<()>, action: &str, message: &str) -> (operation: BackendResult<
    OperationResult,
>)
    ensures
        match (result, operation) {
            (Ok(_), Ok(operation)) => mutation::is_completed(operation, action@, message@)
                && operation.path is None,
            (Err(reason), Err(error)) => error == reason,
            _ => false,
        },
{
    match result {
        Ok(_) => Ok(OperationResult::completed(action, message)),
        Err(error) => Err(error),
    }
}

/// Puts content on the clipboard.
pub fn publish_content<P: SelectionPublisher>(
    selection: &SelectionService<P>,
    mime: &str,
    content: Vec<u8>,
    max_bytes: u64,
) -> (operation: BackendResult<OperationResult>)
    ensures
        if content@.len() == 0 {
            operation matches Err(error) && error.is(
                BackendErrorKind::InvalidData,
                "Published clipboard content must not be empty"@,
            )
        } else {
            exists|result: BackendResult<()>| #[trigger]
                selection.publishes(mime, content, max_bytes, result) && match (
                    result,
                    operation,
                ) {
                    (Ok(_), Ok(operation)) => mutation::is_completed(
                        operation,
                        "publish"@,
                        "Content published to the Wayland clipboard"@,
                    ),
                    (Err(reason), Err(error)) => error == reason,
                    _ => false,
                }
        },
{
    if content.len() == 0 {
        return Err(
            BackendError::new(
                BackendErrorKind::InvalidData,
                "Published clipboard content must not be empty",
            ),
        );
    }
    let ghost whole = content;
    let result = selection.publish(mime, content, max_bytes);
    assert(selection.publishes(mime, whole, max_bytes, result));
    told(result, "publish", "Content published to the Wayland clipboard")
}

/// What is told of so many published files.
pub open spec fn mirrored_message(count: nat) -> Seq<char> {
    "Mirrored "@ + text::decimal(count) + if count == 1 {
        " file"@
    } else {
        " files"@
    } + " to the clipboard"@
}

/// Puts files on the clipboard, to be copied or moved.
pub fn publish_files<P: SelectionPublisher>(
    selection: &SelectionService<P>,
    files: FileSelection,
    max_bytes: u64,
) -> (operation: BackendResult<OperationResult>)
    ensures
        if !(1 <= files.paths@.len() <= MAX_FILES) {
            operation matches Err(error) && error.is(
                BackendErrorKind::InvalidData,
                "File selection must contain between 1 and 100 paths"@,
            )
        } else if exists|i: int|
            0 <= i < files.paths@.len() && path_refusal((#[trigger] files.paths@[i])@) is Some {
            operation matches Err(error) && exists|i: int|
                0 <= i < files.paths@.len() && path_refusal((#[trigger] files.paths@[i])@) is Some
                    && error.is(
                    BackendErrorKind::InvalidData,
                    path_refusal(files.paths@[i]@)->0,
                )
        } else {
            exists|list: Vec<u8>, result: BackendResult<()>|
                list@ == uri_list(files.paths@) && #[trigger] selection.publishes_files(
                    files.operation.name(),
                    list,
                    max_bytes,
                    result,
                ) && match (result, operation) {
                    (Ok(_), Ok(operation)) => mutation::is_completed(
                        operation,
                        "publish-files"@,
                        mirrored_message(files.paths@.len()),
                    ),
                    (Err(reason), Err(error)) => error == reason,
                    _ => false,
                }
        },
{
    let count: usize = files.paths.len();
    if count < 1 || count > MAX_FILES {
        return Err(
            BackendError::new(
                BackendErrorKind::InvalidData,
                "File selection must contain between 1 and 100 paths",
            ),
        );
    }
    let list = match encode_file_uris(&files.paths) {
        Ok(list) => list,
        Err(error) => {
            return Err(error);
        },
    };
    let ghost whole = list;
    let operation = files.operation.as_str();
    let result = selection.publish_files(operation, list, max_bytes);
    assert(selection.publishes_files(files.operation.name(), whole, max_bytes, result));
    let mut message = text::join("Mirrored ", text::format_u64(count as u64).as_str());
    message.append(
        if count == 1 {
            " file"
        } else {
            " files"
        },
    );
    message.append(" to the clipboard");
    assert(message@ =~= mirrored_message(files.paths@.len()));
    told(result, "publish-files", message.as_str())
}

} // verus!
