//! Putting contents on the Wayland clipboard.
use crate::backend::{BackendError, BackendErrorKind, BackendResult, MAX_WAYLAND_SELECTION_BYTES};
use crate::bytes;
use crate::classification;
use crate::text;
use std::sync::Arc;
use vstd::prelude::*;
use vstd::string::*;
use vstd::utf8::*;

verus! {

/// Whoever owns the clipboard.
pub trait SelectionPublisher {
    fn publish(&self, mime: &str, content: Vec<u8>) -> BackendResult<()>;

    /// Offers a link to a file; unless it is done better, as a list of one URI.
    fn publish_file_link(&self, uri: Vec<u8>) -> (result: BackendResult<()>)
        default_ensures
            exists|mime: &str|
                mime@ == "text/uri-list"@ && #[trigger] call_ensures(
                    Self::publish,
                    (self, mime, uri),
                    result,
                ),
    {
        self.publish("text/uri-list", uri)
    }

    /// Offers files; unless it is done better, to file managers alone.
    fn publish_files(&self, gnome_payload: Vec<u8>, uri_list: Vec<u8>) -> (result: BackendResult<()>)
        default_ensures
            exists|mime: &str|
                mime@ == "x-special/gnome-copied-files"@ && #[trigger] call_ensures(
                    Self::publish,
                    (self, mime, gnome_payload),
                    result,
                ),
    {
        self.publish("x-special/gnome-copied-files", gnome_payload)
    }
}

/// One MIME type of an offer, with its content.
pub struct Offered {
    /// The exact MIME type, or plain text in general.
    pub mime: Option<String>,
    pub content: Vec<u8>,
}

/// What is offered to other programs.
pub struct WaylandOffer {
    pub sources: Vec<Offered>,
    /// No further names of plain text are offered.
    pub omit_text_aliases: bool,
}

/// Text that is offered under the other names of plain text too.
pub open spec fn gains_aliases(mime: Seq<char>, content: Seq<u8>) -> bool {
    &&& mime == "text/plain"@ || mime == "text/plain;charset=utf-8"@
    &&& valid_utf8(content)
}

/// The content without the line end that it ends with.
pub open spec fn without_line_end(content: Seq<u8>) -> Seq<u8> {
    if content.len() >= 2 && content[content.len() - 2] == 0x0d && content[content.len() - 1]
        == 0x0a {
        content.take(content.len() - 2)
    } else {
        content
    }
}

/// Offers contents to other programs as a Wayland selection.
pub struct WaylandSelectionPublisher;

impl WaylandSelectionPublisher {
    /// The offer of some content: exactly under its MIME type, and, for plain
    /// text, under the other names of plain text.
    pub fn offer(mime: &str, content: Vec<u8>) -> (offer: WaylandOffer)
        ensures
            offer.sources@.len() == 1,
            offer.sources@[0].mime matches Some(offered) && offered@ == mime@,
            offer.sources@[0].content == content,
            offer.omit_text_aliases == !gains_aliases(mime@, content@),
    {
        let plain: bool = text::same(mime, "text/plain") || text::same(
            mime,
            "text/plain;charset=utf-8",
        );
        let aliases: bool = plain && text::text_of(content.as_slice()).is_some();
        let mut sources: Vec<Offered> = Vec::new();
        sources.push(Offered { mime: Some(mime.to_owned()), content });
        WaylandOffer { sources, omit_text_aliases: !aliases }
    }

    /// The offer of a link to a file: as a list of files, and as text without
    /// the line end.
    pub fn offer_file_link(uri: Vec<u8>) -> (offer: WaylandOffer)
        ensures
            offer.sources@.len() == 2,
            offer.sources@[0].mime matches Some(offered) && offered@ == "text/uri-list"@,
            offer.sources@[0].content == uri,
            offer.sources@[1].mime is None,
            offer.sources@[1].content@ == without_line_end(uri@),
            !offer.omit_text_aliases,
    {
        let n: usize = uri.len();
        let end: usize = if n >= 2 && uri[n - 2] == 0x0d && uri[n - 1] == 0x0a {
            n - 2
        } else {
            n
        };
        let link = bytes::copy_range(uri.as_slice(), 0, end);
        assert(link@ =~= without_line_end(uri@));
        let mut sources: Vec<Offered> = Vec::new();
        sources.push(Offered { mime: Some("text/uri-list".to_owned()), content: uri });
        sources.push(Offered { mime: None, content: link });
        WaylandOffer { sources, omit_text_aliases: false }
    }

    /// The offer of files to be copied or moved: in the form that says which, and
    /// as a plain list.
    pub fn offer_files(gnome_payload: Vec<u8>, uri_list: Vec<u8>) -> (offer: WaylandOffer)
        ensures
            offer.sources@.len() == 2,
            offer.sources@[0].mime matches Some(offered) && offered@
                == "x-special/gnome-copied-files"@,
            offer.sources@[0].content == gnome_payload,
            offer.sources@[1].mime matches Some(offered) && offered@ == "text/uri-list"@,
            offer.sources@[1].content == uri_list,
            offer.omit_text_aliases,
    {
        let mut sources: Vec<Offered> = Vec::new();
        sources.push(
            Offered {
                mime: Some("x-special/gnome-copied-files".to_owned()),
                content: gnome_payload,
            },
        );
        sources.push(Offered { mime: Some("text/uri-list".to_owned()), content: uri_list });
        WaylandOffer { sources, omit_text_aliases: true }
    }
}

/// The limit in force: the configured one, and never more than can be published.
pub open spec fn limit_of(configured_limit: u64) -> u64 {
    if configured_limit < MAX_WAYLAND_SELECTION_BYTES {
        configured_limit
    } else {
        MAX_WAYLAND_SELECTION_BYTES
    }
}

/// The limit in force.
pub fn effective_limit(configured_limit: u64) -> (limit: u64)
    ensures
        limit == limit_of(configured_limit),
{
    if configured_limit < MAX_WAYLAND_SELECTION_BYTES {
        configured_limit
    } else {
        MAX_WAYLAND_SELECTION_BYTES
    }
}

/// What is said of content that is too large.
pub open spec fn size_message(size: u64, limit: u64) -> Seq<char> {
    "Clipboard entry is "@ + text::decimal(size as nat)
        + " bytes; Wayland publishing is limited to "@ + text::decimal(limit as nat) + " bytes"@
}

/// Content of this size is too large, and `error` says so.
pub open spec fn too_large(size: u64, configured_limit: u64, error: BackendError) -> bool {
    &&& size > limit_of(configured_limit)
    &&& error.is(BackendErrorKind::InvalidData, size_message(size, limit_of(configured_limit)))
}

/// Whether content of this size may be published.
pub fn validate_size(size: u64, configured_limit: u64) -> (result: BackendResult<()>)
    ensures
        match result {
            Ok(_) => size <= limit_of(configured_limit),
            Err(error) => too_large(size, configured_limit, error),
        },
{
    let limit = effective_limit(configured_limit);
    if size > limit {
        let mut message = text::join("Clipboard entry is ", text::format_u64(size).as_str());
        message.append(" bytes; Wayland publishing is limited to ");
        message.append(text::format_u64(limit).as_str());
        message.append(" bytes");
        return Err(BackendError::new(BackendErrorKind::InvalidData, message.as_str()));
    }
    Ok(())
}

/// A character of which the parts of a MIME type are made.
pub open spec fn token_char(c: char) -> bool {
    ||| ('0' <= c <= '9') || ('a' <= c <= 'z') || ('A' <= c <= 'Z')
    ||| c == '!' || c == '#' || c == '$' || c == '&' || c == '^' || c == '_' || c == '.' || c == '+'
        || c == '-'
}

/// A part of a MIME type.
pub open spec fn token(s: Seq<char>) -> bool {
    s.len() > 0 && forall|i: int| 0 <= i < s.len() ==> token_char(#[trigger] s[i])
}

/// A MIME type under which content may be published: printable ASCII of at most
/// 255 bytes that begins with two parts and a slash between them.
pub open spec fn publishable_mime(mime: Seq<char>) -> bool {
    &&& 1 <= mime.len() <= 255
    &&& forall|i: int| 0 <= i < mime.len() ==> ' ' <= #[trigger] mime[i] <= '~'
    &&& match text::split_first(classification::essence(mime), '/') {
        Some((kind, subkind)) => token(kind) && token(subkind),
        None => false,
    }
}

fn valid_mime_token(value: &[char]) -> (valid: bool)
    ensures
        valid == token(value@),
{
    if value.len() == 0 {
        return false;
    }
    for i in 0..value.len()
        invariant
            forall|j: int| 0 <= j < i ==> token_char(#[trigger] value@[j]),
    {
        let c: char = value[i];
        let valid: bool = ('0' <= c && c <= '9') || ('a' <= c && c <= 'z') || ('A' <= c && c
            <= 'Z') || c == '!' || c == '#' || c == '$' || c == '&' || c == '^' || c == '_' || c
            == '.' || c == '+' || c == '-';
        if !valid {
            assert(!token_char(value@[i as int]));
            return false;
        }
    }
    true
}

fn valid_mime_ascii(mime: &[char]) -> (valid: bool)
    ensures
        valid == (1 <= mime@.len() <= 255 && forall|i: int|
            0 <= i < mime@.len() ==> ' ' <= #[trigger] mime@[i] <= '~'),
{
    if mime.len() == 0 || mime.len() > 255 {
        return false;
    }
    for i in 0..mime.len()
        invariant
            forall|j: int| 0 <= j < i ==> ' ' <= #[trigger] mime@[j] <= '~',
    {
        if !(' ' <= mime[i] && mime[i] <= '~') {
            return false;
        }
    }
    true
}

/// Whether content may be published under a MIME type.
pub fn validate_mime(mime: &str) -> (result: BackendResult<()>)
    ensures
        match result {
            Ok(_) => publishable_mime(mime@),
            Err(error) => !publishable_mime(mime@) && error.is(
                BackendErrorKind::InvalidData,
                "Clipboard MIME type is invalid for Wayland publishing"@,
            ),
        },
{
    let chars = text::chars_of(mime);
    let essence = classification::mime_essence(mime);
    let parts: bool = match text::split_once(essence.as_slice(), '/') {
        Some((kind, subkind)) => valid_mime_token(kind.as_slice()) && valid_mime_token(
            subkind.as_slice(),
        ),
        None => false,
    };
    if valid_mime_ascii(chars.as_slice()) && parts {
        Ok(())
    } else {
        Err(
            BackendError::new(
                BackendErrorKind::InvalidData,
                "Clipboard MIME type is invalid for Wayland publishing",
            ),
        )
    }
}

/// The content of a file that was opened, as far as it was read: one byte past
/// the limit at most.
pub struct FileContent {
    pub size: u64,
    pub content: Result<Vec<u8>, String>,
}

/// What reading content of a declared size gives: neither what is declared nor
/// what is read may exceed the limit.
pub fn read_selection(file: FileContent, configured_limit: u64) -> (result: BackendResult<Vec<u8>>)
    ensures
        match result {
            Ok(content) => file.size <= limit_of(configured_limit) && content@.len() <= limit_of(
                configured_limit,
            ) && file.content == Ok::<Vec<u8>, String>(content),
            Err(error) => if file.size > limit_of(configured_limit) {
                too_large(file.size, configured_limit, error)
            } else {
                match file.content {
                    Ok(content) => too_large(content@.len() as u64, configured_limit, error),
                    Err(message) => error.is(BackendErrorKind::OperationFailed, message@),
                }
            },
        },
{
    match validate_size(file.size, configured_limit) {
        Ok(_) => {},
        Err(error) => {
            return Err(error);
        },
    }
    match file.content {
        Ok(content) => {
            let length: usize = content.len();
            match validate_size(length as u64, configured_limit) {
                Ok(_) => Ok(content),
                Err(error) => Err(error),
            }
        },
        Err(message) => Err(
            BackendError::new(BackendErrorKind::OperationFailed, message.as_str()),
        ),
    }
}

/// The content that says whether files are to be copied or moved.
pub open spec fn gnome_payload_of(operation: Seq<char>, uri_list: Seq<u8>) -> Seq<u8> {
    encode_utf8(operation).push(0x0a) + uri_list
}

/// Publishes contents that may be published.
pub struct SelectionService<P: SelectionPublisher> {
    pub publisher: Arc<P>,
}

impl<P: SelectionPublisher> SelectionService<P> {
    pub fn with_publisher(publisher: Arc<P>) -> (service: Self)
        ensures
            service.publisher == publisher,
    {
        SelectionService { publisher }
    }

    /// What comes of publishing content: it is rejected, or handed to the
    /// publisher, whose answer this is.
    pub open spec fn publishes(
        &self,
        mime: &str,
        content: Vec<u8>,
        configured_limit: u64,
        result: BackendResult<()>,
    ) -> bool {
        if !publishable_mime(mime@) {
            result matches Err(error) && error.is(
                BackendErrorKind::InvalidData,
                "Clipboard MIME type is invalid for Wayland publishing"@,
            )
        } else if content@.len() > limit_of(configured_limit) {
            result matches Err(error) && too_large(
                content@.len() as u64,
                configured_limit,
                error,
            )
        } else {
            call_ensures(P::publish, (&*self.publisher, mime, content), result)
        }
    }

    /// What comes of publishing files: they are rejected, or handed to the
    /// publisher, whose answer this is.
    pub open spec fn publishes_files(
        &self,
        operation: Seq<char>,
        uri_list: Vec<u8>,
        configured_limit: u64,
        result: BackendResult<()>,
    ) -> bool {
        if operation != "copy"@ && operation != "cut"@ {
            result matches Err(error) && error.is(
                BackendErrorKind::InvalidData,
                "File selection operation must be copy or cut"@,
            )
        } else if uri_list@.len() > limit_of(configured_limit) {
            result matches Err(error) && too_large(
                uri_list@.len() as u64,
                configured_limit,
                error,
            )
        } else if gnome_payload_of(operation, uri_list@).len() > limit_of(configured_limit) {
            result matches Err(error) && too_large(
                gnome_payload_of(operation, uri_list@).len() as u64,
                configured_limit,
                error,
            )
        } else {
            exists|payload: Vec<u8>|
                payload@ == gnome_payload_of(operation, uri_list@) && #[trigger] call_ensures(
                    P::publish_files,
                    (&*self.publisher, payload, uri_list),
                    result,
                )
        }
    }

    /// Publishes content under its MIME type. Nothing reaches the clipboard that
    /// is too large or whose MIME type is none.
    pub fn publish(&self, mime: &str, content: Vec<u8>, configured_limit: u64) -> (result:
        BackendResult<()>)
        ensures
            self.publishes(mime, content, configured_limit, result),
    {
        match validate_mime(mime) {
            Ok(_) => {},
            Err(error) => {
                return Err(error);
            },
        }
        let length: usize = content.len();
        match validate_size(length as u64, configured_limit) {
            Ok(_) => {},
            Err(error) => {
                return Err(error);
            },
        }
        self.publisher.publish(mime, content)
    }

    /// Publishes a link to a file.
    pub fn publish_file_link(&self, uri: Vec<u8>, configured_limit: u64) -> (result: BackendResult<
        (),
    >)
        ensures
            if uri@.len() > limit_of(configured_limit) {
                result matches Err(error) && too_large(uri@.len() as u64, configured_limit, error)
            } else {
                call_ensures(P::publish_file_link, (&*self.publisher, uri), result)
            },
    {
        let length: usize = uri.len();
        match validate_size(length as u64, configured_limit) {
            Ok(_) => {},
            Err(error) => {
                return Err(error);
            },
        }
        self.publisher.publish_file_link(uri)
    }

    /// Publishes files to be copied or moved.
    pub fn publish_files(&self, operation: &str, uri_list: Vec<u8>, configured_limit: u64) -> (result:
        BackendResult<()>)
        ensures
            self.publishes_files(operation@, uri_list, configured_limit, result),
    {
        if !text::same(operation, "copy") && !text::same(operation, "cut") {
            return Err(
                BackendError::new(
                    BackendErrorKind::InvalidData,
                    "File selection operation must be copy or cut",
                ),
            );
        }
        let mut payload: Vec<u8> = Vec::new();
        bytes::append(&mut payload, operation.as_bytes());
        payload.push(0x0a);
        bytes::append(&mut payload, uri_list.as_slice());
        assert(payload@ =~= gnome_payload_of(operation@, uri_list@));
        let list_length: usize = uri_list.len();
        match validate_size(list_length as u64, configured_limit) {
            Ok(_) => {},
            Err(error) => {
                return Err(error);
            },
        }
        let payload_length: usize = payload.len();
        match validate_size(payload_length as u64, configured_limit) {
            Ok(_) => {},
            Err(error) => {
                return Err(error);
            },
        }
        self.publisher.publish_files(payload, uri_list)
    }

    /// Publishes the content of a file.
    pub fn publish_file(&self, mime: &str, file: FileContent, configured_limit: u64) -> (result:
        BackendResult<()>)
        ensures
            if !publishable_mime(mime@) {
                result matches Err(error) && error.is(
                    BackendErrorKind::InvalidData,
                    "Clipboard MIME type is invalid for Wayland publishing"@,
                )
            } else if file.size > limit_of(configured_limit) {
                result matches Err(error) && too_large(file.size, configured_limit, error)
            } else {
                match file.content {
                    Err(message) => result matches Err(error) && error.is(
                        BackendErrorKind::OperationFailed,
                        message@,
                    ),
                    Ok(content) => if content@.len() > limit_of(configured_limit) {
                        result matches Err(error) && too_large(
                            content@.len() as u64,
                            configured_limit,
                            error,
                        )
                    } else {
                        call_ensures(P::publish, (&*self.publisher, mime, content), result)
                    },
                }
            },
    {
        match validate_mime(mime) {
            Ok(_) => {},
            Err(error) => {
                return Err(error);
            },
        }
        match read_selection(file, configured_limit) {
            Ok(content) => self.publisher.publish(mime, content),
            Err(error) => Err(error),
        }
    }
}

} // verus!
