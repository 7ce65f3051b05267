//! What the bytes and the MIME type of a stored entry mean.
use crate::backend;
use crate::backend::{BackendError, BackendErrorKind, BackendResult, MAX_FILES};
use crate::bytes;
use crate::classification;
use crate::classification::classify;
use crate::digest;
use crate::model::{EntryKind, FilePreview, ImageMetadata};
use crate::text;
use image::{ImageFormat, ImageReader, Limits};
use std::io::Cursor;
use url::Url;
use vstd::bytes::*;
use vstd::prelude::*;
use vstd::string::*;
use vstd::utf8::*;

verus! {

/// The most bytes of an image that is scaled down or edited.
pub const MAX_THUMBNAIL_BYTES: u64 = 33_554_432;

/// The longest edge of an image that is decoded.
pub const MAX_IMAGE_DIMENSION: u32 = 16_384;

/// The most memory that decoding an image may take.
pub const MAX_DECODED_IMAGE_BYTES: u64 = 134_217_728;

/// The MIME type of the image format that some bytes begin like.
pub uninterp spec fn sniffed_mime(content: Seq<u8>) -> Option<Seq<char>>;

/// `image::guess_format` and `ImageFormat::to_mime_type`: the format is a
/// function of the bytes.
#[verifier::external_body]
pub(crate) fn detected_image_mime(content: &[u8]) -> (mime: Option<&'static str>)
    ensures
        match mime {
            Some(mime) => sniffed_mime(content@) == Some(mime@),
            None => sniffed_mime(content@) is None,
        },
{
    image::guess_format(content).ok().map(|format| format.to_mime_type())
}

/// The size of the image that some bytes hold, where a decoder that is held to
/// an edge and an amount of memory can tell.
pub uninterp spec fn image_size(content: Seq<u8>, edge: u32, memory: u64) -> Option<(u32, u32)>;

/// `ImageReader::into_dimensions`: the size is a function of the bytes and the
/// limits.
#[verifier::external_body]
fn read_image_size(content: &[u8], edge: u32, memory: u64) -> (size: Option<(u32, u32)>)
    ensures
        size == image_size(content@, edge, memory),
{
    let mut reader = ImageReader::new(Cursor::new(content)).with_guessed_format().ok()?;
    let mut limits = Limits::default();
    limits.max_image_width = Some(edge);
    limits.max_image_height = Some(edge);
    limits.max_alloc = Some(memory);
    reader.limits(limits);
    reader.into_dimensions().ok()
}

/// A decoder that is held to an edge and an amount of memory reads the image to
/// its end.
pub uninterp spec fn image_decodes(content: Seq<u8>, edge: u32, memory: u64) -> bool;

/// `ImageReader::decode`: whether it succeeds is a function of the bytes and the
/// limits.
#[verifier::external_body]
fn decode_image(content: &[u8], edge: u32, memory: u64) -> (decoded: bool)
    ensures
        decoded == image_decodes(content@, edge, memory),
{
    let Ok(mut reader) = ImageReader::new(Cursor::new(content)).with_guessed_format() else {
        return false;
    };
    let mut limits = Limits::default();
    limits.max_image_width = Some(edge);
    limits.max_image_height = Some(edge);
    limits.max_alloc = Some(memory);
    reader.limits(limits);
    reader.decode().is_ok()
}

/// The PNG image, with its size, that an image becomes when it is scaled to fit a
/// square of `edge` pixels, where a decoder that is held to an edge and an amount
/// of memory reads it to its end.
pub uninterp spec fn scaled_png(
    content: Seq<u8>,
    max_edge: u32,
    memory: u64,
    edge: u32,
) -> Option<(Seq<u8>, u32, u32)>;

/// `DynamicImage::thumbnail` of what `ImageReader::decode` gives, written as PNG:
/// what comes out is a function of the bytes, the limits and the edge. It fits
/// the square, and there is none where the image cannot be decoded.
#[verifier::external_body]
fn scale_to_png(content: &[u8], max_edge: u32, memory: u64, edge: u32) -> (png: Option<
    (Vec<u8>, u32, u32),
>)
    requires
        edge > 0,
    ensures
        match png {
            Some(png) => {
                &&& scaled_png(content@, max_edge, memory, edge) == Some((png.0@, png.1, png.2))
                &&& png.1 <= edge && png.2 <= edge
                &&& image_decodes(content@, max_edge, memory)
            },
            None => scaled_png(content@, max_edge, memory, edge) is None,
        },
{
    let mut reader = ImageReader::new(Cursor::new(content)).with_guessed_format().ok()?;
    let mut limits = Limits::default();
    limits.max_image_width = Some(max_edge);
    limits.max_image_height = Some(max_edge);
    limits.max_alloc = Some(memory);
    reader.limits(limits);
    let picture = reader.decode().ok()?.thumbnail(edge, edge);
    let mut png = Cursor::new(Vec::new());
    picture.write_to(&mut png, ImageFormat::Png).ok()?;
    Some((png.into_inner(), picture.width(), picture.height()))
}

/// The normal form of a URL, where the text is one.
pub uninterp spec fn url_text(uri: Seq<char>) -> Option<Seq<char>>;

/// `Url::parse` and its text: the normal form is a function of the text.
#[verifier::external_body]
pub(crate) fn normal_url(uri: &str) -> (url: Option<String>)
    ensures
        match url {
            Some(url) => url_text(uri@) == Some(url@),
            None => url_text(uri@) is None,
        },
{
    Url::parse(uri).ok().map(String::from)
}

/// The scheme of a URL, where the text is one.
pub uninterp spec fn url_scheme(uri: Seq<char>) -> Option<Seq<char>>;

/// `Url::parse` and `Url::scheme`: the scheme is a function of the text, and
/// every URL has one.
#[verifier::external_body]
pub(crate) fn scheme(uri: &str) -> (scheme: Option<String>)
    ensures
        match scheme {
            Some(scheme) => url_scheme(uri@) == Some(scheme@),
            None => url_scheme(uri@) is None,
        },
        scheme is Some <==> url_text(uri@) is Some,
{
    Url::parse(uri).ok().map(|url| url.scheme().to_owned())
}

/// The local path that a URL stands for, where it stands for one.
pub uninterp spec fn url_path(uri: Seq<char>) -> Option<Seq<u8>>;

/// `Url::parse` and `Url::to_file_path`: the path is a function of the text, and
/// only a URL has one.
#[verifier::external_body]
pub(crate) fn local_path(uri: &str) -> (path: Option<Vec<u8>>)
    ensures
        match path {
            Some(path) => url_path(uri@) == Some(path@),
            None => url_path(uri@) is None,
        },
        path is Some ==> url_text(uri@) is Some,
{
    let path = Url::parse(uri).ok()?.to_file_path().ok()?;
    Some(path.into_os_string().into_encoded_bytes())
}

/// The URL of a path, where it has one.
pub uninterp spec fn file_path_url(path: Seq<u8>) -> Option<Seq<char>>;

/// `Url::from_file_path`: every absolute path has a URL, which is a function of
/// the bytes of the path, and no other path has one.
#[verifier::external_body]
pub(crate) fn file_url(path: &str) -> (url: Option<String>)
    ensures
        match url {
            Some(url) => file_path_url(encode_utf8(path@)) == Some(url@),
            None => file_path_url(encode_utf8(path@)) is None,
        },
        url is Some <==> backend::absolute(path@),
{
    Url::from_file_path(path).ok().map(String::from)
}

/// The URL of the local file that a URL stands for, as it is written for a path.
pub open spec fn url_of_local(uri: Seq<char>) -> Option<Seq<char>> {
    match url_path(uri) {
        Some(path) => file_path_url(path),
        None => None,
    }
}

/// `Url::from_file_path` of what `Url::to_file_path` gives: the URL of that path.
/// There is one wherever there is a path, since such a path begins at the root.
#[verifier::external_body]
pub(crate) fn local_url(uri: &str) -> (url: Option<String>)
    ensures
        match url {
            Some(url) => url_path(uri@) is Some && file_path_url(url_path(uri@)->0) == Some(url@),
            None => url_path(uri@) is None,
        },
{
    let path = Url::parse(uri).ok()?.to_file_path().ok()?;
    Url::from_file_path(path).ok().map(String::from)
}

/// The last part of the path of a URL, where it has parts.
pub uninterp spec fn url_segment(uri: Seq<char>) -> Option<Seq<char>>;

/// `Url::parse` and the last of `Url::path_segments`: a function of the text.
#[verifier::external_body]
fn last_segment(uri: &str) -> (segment: Option<String>)
    ensures
        match segment {
            Some(segment) => url_segment(uri@) == Some(segment@),
            None => url_segment(uri@) is None,
        },
{
    Url::parse(uri).ok()?.path_segments()?.last().map(String::from)
}

/// Where the last part of a path begins: behind its last slash.
pub open spec fn last_part(path: Seq<u8>) -> int
    decreases path.len(),
{
    if path.len() == 0 || path.last() == 0x2f {
        path.len() as int
    } else {
        last_part(path.drop_last())
    }
}

/// The name of the file at the end of an absolute path: its last part, not
/// counting empty parts and `.`; none for `..` and for the root.
pub open spec fn file_name_of(path: Seq<u8>) -> Option<Seq<u8>>
    decreases path.len(),
    via file_name_decreases
{
    if path.len() == 0 {
        None
    } else {
        let part = path.skip(last_part(path));
        if part.len() == 0 {
            file_name_of(path.drop_last())
        } else if part == seq![0x2eu8] && last_part(path) > 0 {
            file_name_of(path.take(last_part(path) - 1))
        } else if part == seq![0x2eu8, 0x2eu8] {
            None
        } else {
            Some(part)
        }
    }
}

proof fn last_part_bounds(path: Seq<u8>)
    ensures
        0 <= last_part(path) <= path.len(),
        last_part(path) > 0 ==> path[last_part(path) - 1] == 0x2f,
    decreases path.len(),
{
    if path.len() > 0 && path.last() != 0x2f {
        last_part_bounds(path.drop_last());
    }
}

#[via_fn]
proof fn file_name_decreases(path: Seq<u8>) {
    last_part_bounds(path);
}

/// The name of the file at the end of an absolute path.
pub fn file_name(path: &[u8]) -> (name: Option<Vec<u8>>)
    ensures
        match name {
            Some(name) => file_name_of(path@) == Some(name@),
            None => file_name_of(path@) is None,
        },
{
    let mut end: usize = path.len();
    assert(path@.take(end as int) =~= path@);
    while end > 0
        invariant
            end <= path@.len(),
            file_name_of(path@) == file_name_of(path@.take(end as int)),
        decreases end,
    {
        let ghost rest = path@.take(end as int);
        let mut start: usize = end;
        while start > 0 && path[start - 1] != 0x2f
            invariant
                start <= end <= path@.len(),
                rest == path@.take(end as int),
                last_part(rest) == last_part(path@.take(start as int)),
            decreases start,
        {
            assert(path@.take(start as int).drop_last() =~= path@.take(start - 1));
            start = start - 1;
        }
        assert(last_part(rest) == start);
        assert(rest.skip(start as int) =~= path@.subrange(start as int, end as int));
        if start == end {
            assert(rest.drop_last() =~= path@.take(end - 1));
            end = end - 1;
        } else if end - start == 1 && path[start] == 0x2e && start > 0 {
            assert(path@.subrange(start as int, end as int) =~= seq![0x2eu8]);
            assert(rest.take(start - 1) =~= path@.take(start - 1));
            end = start - 1;
        } else {
            let part = bytes::copy_range(path, start, end);
            proof {
                if part@ == seq![0x2eu8] {
                    assert(part@[0] == 0x2e);
                }
            }
            if part.len() == 2 && part[0] == 0x2e && part[1] == 0x2e {
                assert(part@ =~= seq![0x2eu8, 0x2eu8]);
                return None;
            }
            proof {
                if part@ == seq![0x2eu8, 0x2eu8] {
                    assert(part@[0] == 0x2e && part@[1] == 0x2e);
                }
            }
            return Some(part);
        }
    }
    None
}

/// A MIME type that stands for another.
pub open spec fn canonical(mime: Seq<char>) -> Seq<char> {
    let essence = classification::essence(mime);
    if text::same_ignoring_case(essence, "image/x-png"@) {
        "image/png"@
    } else if text::same_ignoring_case(essence, "image/jpg"@) || text::same_ignoring_case(
        essence,
        "image/pjpeg"@,
    ) {
        "image/jpeg"@
    } else if text::same_ignoring_case(essence, "application/x-gnome-copied-files"@) {
        "x-special/gnome-copied-files"@
    } else if text::same_ignoring_case(essence, "text/x-uri"@) || text::same_ignoring_case(
        essence,
        "text/x-uri-list"@,
    ) {
        "text/uri-list"@
    } else {
        essence
    }
}

fn alias(essence: &[char], name: &str) -> (result: bool)
    ensures
        result == text::same_ignoring_case(essence@, name@),
{
    text::eq_ignore_ascii_case(essence, text::chars_of(name).as_slice())
}

/// A MIME type without parameters, under its usual name.
pub fn canonical_mime(mime: &str) -> (result: String)
    ensures
        result@ == canonical(mime@),
{
    let essence = classification::mime_essence(mime);
    let e = essence.as_slice();
    if alias(e, "image/x-png") {
        "image/png".to_owned()
    } else if alias(e, "image/jpg") || alias(e, "image/pjpeg") {
        "image/jpeg".to_owned()
    } else if alias(e, "application/x-gnome-copied-files") {
        "x-special/gnome-copied-files".to_owned()
    } else if alias(e, "text/x-uri") || alias(e, "text/x-uri-list") {
        "text/uri-list".to_owned()
    } else {
        text::string_of(e)
    }
}

/// The MIME type under which an entry is known: plain text where none is stored.
pub open spec fn mime_or_default_of(mime: Seq<char>) -> Seq<char> {
    if mime.len() == 0 {
        "text/plain"@
    } else {
        mime
    }
}

fn mime_or_default(mime: &str) -> (result: String)
    ensures
        result@ == mime_or_default_of(mime@),
{
    if mime.is_empty() {
        "text/plain".to_owned()
    } else {
        mime.to_owned()
    }
}

/// What the digest under which an image is known is the digest of.
pub open spec fn image_identity_input(mime: Seq<char>, content: Seq<u8>) -> Seq<u8> {
    encode_utf8("clip-daemon:resolved-image:v1:"@) + (encode_utf8(canonical(mime))
        + spec_u64_to_le_bytes(content.len() as u64) + content)
}

/// The digest under which an image is known.
pub open spec fn image_identity_of(mime: Seq<char>, content: Seq<u8>) -> Seq<char> {
    digest::hex_of(digest::sha256_of(image_identity_input(mime, content)))
}

/// The digest under which an image is known.
pub fn image_identity(mime: &str, content: &[u8]) -> (identity: String)
    ensures
        identity@ == image_identity_of(mime@, content@),
{
    let canonical = canonical_mime(mime);
    let mut parts: Vec<u8> = Vec::new();
    bytes::append(&mut parts, canonical.as_str().as_bytes());
    bytes::append(&mut parts, u64_to_le_bytes(content.len() as u64).as_slice());
    bytes::append(&mut parts, content);
    assert(parts@ =~= encode_utf8(canonical@) + spec_u64_to_le_bytes(content@.len() as u64)
        + content@);
    digest::hex_encode(
        digest::sha256(
            bytes::tagged("clip-daemon:resolved-image:v1:", parts.as_slice()).as_slice(),
        ).as_slice(),
    )
}

/// One file that an entry names.
pub struct NamedFile {
    pub display_name: String,
    pub uri: String,
    pub path: Option<Vec<u8>>,
    pub operation: String,
}

/// What an entry names a file as.
pub struct NamedFileView {
    pub display_name: Seq<char>,
    pub uri: Seq<char>,
    pub path: Option<Seq<u8>>,
    pub operation: Seq<char>,
}

impl View for NamedFile {
    type V = NamedFileView;

    open spec fn view(&self) -> NamedFileView {
        NamedFileView {
            display_name: self.display_name@,
            uri: self.uri@,
            path: match self.path {
                Some(path) => Some(path@),
                None => None,
            },
            operation: self.operation@,
        }
    }
}

/// The name under which a file is shown: that of the file, else the end of the
/// address, else a word.
pub open spec fn shown_name(path: Option<Seq<u8>>, segment: Option<Seq<char>>) -> Seq<char> {
    let name = match path {
        Some(path) => file_name_of(path),
        None => None,
    };
    match name {
        Some(name) => classification::lossy_text(name),
        None => match segment {
            Some(segment) => if segment.len() > 0 {
                segment
            } else {
                "File"@
            },
            None => "File"@,
        },
    }
}

/// The name under which a file is shown.
pub fn display_name(path: &Option<Vec<u8>>, segment: Option<String>) -> (result: String)
    ensures
        result@ == shown_name(
            match *path {
                Some(path) => Some(path@),
                None => None,
            },
            match segment {
                Some(segment) => Some(segment@),
                None => None,
            },
        ),
{
    let name = match path {
        Some(path) => file_name(path.as_slice()),
        None => None,
    };
    match name {
        Some(name) => classification::lossy(name.as_slice()),
        None => match segment {
            Some(segment) => if segment.as_str().is_empty() {
                "File".to_owned()
            } else {
                segment
            },
            None => "File".to_owned(),
        },
    }
}

/// The file that a line names, where it names one.
pub open spec fn named_file(uri: Seq<char>, operation: Seq<char>) -> Option<NamedFileView> {
    match url_text(uri) {
        Some(url) => Some(
            NamedFileView {
                display_name: shown_name(url_path(uri), url_segment(uri)),
                uri: url,
                path: url_path(uri),
                operation,
            },
        ),
        None => None,
    }
}

fn file_preview(uri: &str, operation: &str) -> (file: Option<NamedFile>)
    ensures
        match file {
            Some(file) => named_file(uri@, operation@) == Some(file@),
            None => named_file(uri@, operation@) is None,
        },
{
    let url = match normal_url(uri) {
        Some(url) => url,
        None => {
            return None;
        },
    };
    let path = local_path(uri);
    let display_name = display_name(&path, last_segment(uri));
    Some(NamedFile { display_name, uri: url, path, operation: operation.to_owned() })
}

/// A line that is empty or a comment.
pub open spec fn skipped(line: Seq<char>) -> bool {
    line.len() == 0 || line[0] == '#'
}

/// The lines that name files, in order.
pub open spec fn file_lines(s: Seq<char>) -> Seq<Seq<char>> {
    text::lines_of(s).filter(|line: Seq<char>| !skipped(line))
}

/// Whether files are to be copied or moved: in the one format that says so, the
/// first line does.
pub open spec fn operation_of(mime: Seq<char>, lines: Seq<Seq<char>>) -> Seq<char> {
    if mime == "x-special/gnome-copied-files"@ && lines.len() > 0 && lines[0] == "cut"@ {
        "cut"@
    } else {
        "copy"@
    }
}

/// The lines behind the one that says whether to copy or move.
pub open spec fn uri_lines(mime: Seq<char>, lines: Seq<Seq<char>>) -> Seq<Seq<char>> {
    let rest = if mime == "x-special/gnome-copied-files"@ && lines.len() > 0 {
        lines.drop_first()
    } else {
        lines
    };
    if rest.len() <= MAX_FILES {
        rest
    } else {
        rest.take(MAX_FILES as int)
    }
}

/// The files that some lines name.
pub open spec fn files_in(lines: Seq<Seq<char>>, operation: Seq<char>) -> Seq<NamedFileView>
    decreases lines.len(),
{
    if lines.len() == 0 {
        Seq::empty()
    } else {
        let before = files_in(lines.drop_last(), operation);
        match named_file(lines.last(), operation) {
            Some(file) => before.push(file),
            None => before,
        }
    }
}

/// The files that an entry names, at most the first hundred lines of them.
pub open spec fn parsed_files(mime: Seq<char>, content: Seq<u8>) -> Seq<NamedFileView> {
    if valid_utf8(content) {
        let lines = file_lines(decode_utf8(content));
        files_in(uri_lines(mime, lines), operation_of(mime, lines))
    } else {
        Seq::empty()
    }
}

/// The views of a list of files.
pub open spec fn file_views(files: Seq<NamedFile>) -> Seq<NamedFileView> {
    Seq::new(files.len(), |i: int| files[i]@)
}

fn kept_lines(content: &str) -> (lines: Vec<Vec<char>>)
    ensures
        text::views(lines@) == file_lines(content@),
{
    let all = text::lines(text::chars_of(content).as_slice());
    let ghost keep = |line: Seq<char>| !skipped(line);
    let ghost views = text::views(all@);
    let mut lines: Vec<Vec<char>> = Vec::new();
    proof {
        reveal(Seq::filter);
        assert(views.take(0).filter(keep) =~= Seq::empty());
        assert(text::views(lines@) =~= Seq::empty());
    }
    for i in 0..all.len()
        invariant
            views == text::views(all@),
            keep == (|line: Seq<char>| !skipped(line)),
            text::views(lines@) == views.take(i as int).filter(keep),
    {
        let ghost before = lines@;
        proof {
            reveal(Seq::filter);
            assert(views.take(i + 1).drop_last() =~= views.take(i as int));
            assert(views.take(i + 1).last() == all@[i as int]@);
        }
        if !(all[i].len() == 0 || all[i][0] == '#') {
            let line = text::slice_chars(all[i].as_slice(), 0, all[i].len());
            assert(line@ =~= all@[i as int]@);
            lines.push(line);
            assert(text::views(lines@) =~= text::views(before).push(line@));
        }
    }
    assert(views.take(all@.len() as int) =~= views);
    lines
}

/// The lines of a text that name files, and whether those are to be copied or
/// moved.
pub struct FileUris {
    pub operation: String,
    pub uris: Vec<Vec<char>>,
}

/// The lines of a text that name files, and whether those are to be copied or
/// moved.
pub fn file_uris(mime: &str, content: &str) -> (files: FileUris)
    ensures
        files.operation@ == operation_of(mime@, file_lines(content@)),
        text::views(files.uris@) == uri_lines(mime@, file_lines(content@)),
{
    let lines = kept_lines(content);
    let ghost views = text::views(lines@);
    let gnome: bool = text::same(mime, "x-special/gnome-copied-files");
    let mut from: usize = 0;
    let mut operation = "copy";
    if gnome && lines.len() > 0 {
        from = 1;
        assert(views[0] == lines@[0]@);
        if text::same(text::string_of(lines[0].as_slice()).as_str(), "cut") {
            operation = "cut";
        }
    }
    let to: usize = if lines.len() - from <= MAX_FILES {
        lines.len()
    } else {
        from + MAX_FILES
    };
    let mut uris: Vec<Vec<char>> = Vec::new();
    let ghost wanted = uri_lines(mime@, views);
    assert(wanted =~= views.subrange(from as int, to as int));
    assert(text::views(uris@) =~= wanted.take(0));
    for i in from..to
        invariant
            from <= to <= lines@.len(),
            views == text::views(lines@),
            wanted == views.subrange(from as int, to as int),
            text::views(uris@) == wanted.take(i - from),
    {
        let ghost before = uris@;
        let line = text::slice_chars(lines[i].as_slice(), 0, lines[i].len());
        assert(line@ =~= lines@[i as int]@);
        uris.push(line);
        proof {
            let k = i - from;
            assert(wanted[k] == lines@[i as int]@);
            assert(text::views(uris@) =~= text::views(before).push(line@));
            assert(wanted.take(k + 1) =~= wanted.take(k).push(wanted[k]));
        }
    }
    assert(wanted.take(to - from) =~= wanted);
    FileUris { operation: operation.to_owned(), uris }
}

/// The files that an entry names.
pub fn parse_files(mime: &str, content: &[u8]) -> (files: Vec<NamedFile>)
    ensures
        file_views(files@) == parsed_files(mime@, content@),
{
    let mut files: Vec<NamedFile> = Vec::new();
    assert(file_views(files@) =~= Seq::empty());
    let content = match text::text_of(content) {
        Some(content) => content,
        None => {
            return files;
        },
    };
    let named = file_uris(mime, content);
    let ghost uris = text::views(named.uris@);
    assert(uris.take(0) =~= Seq::empty());
    for i in 0..named.uris.len()
        invariant
            uris == text::views(named.uris@),
            file_views(files@) == files_in(uris.take(i as int), named.operation@),
    {
        let ghost before = files@;
        let line = text::string_of(named.uris[i].as_slice());
        proof {
            assert(uris.take(i + 1).drop_last() =~= uris.take(i as int));
            assert(uris.take(i + 1).last() == named.uris@[i as int]@);
        }
        if let Some(file) = file_preview(line.as_str(), named.operation.as_str()) {
            files.push(file);
            assert(file_views(files@) =~= file_views(before).push(file@));
        }
    }
    assert(uris.take(named.uris@.len() as int) =~= uris);
    files
}

/// What is found out about a named file on disk.
pub struct FileProbe {
    /// There is something at the path.
    pub exists: bool,
    /// It is a regular file itself, no link to one.
    pub regular: bool,
    pub size: u64,
    /// It begins like an image of this MIME type and size.
    pub image: Option<ProbedImage>,
}

/// What is found out about an image on disk.
pub struct ProbedImage {
    pub mime: String,
    pub dimensions: ImageMetadata,
}

/// The image that the content of a file is, where it is one whose size a decoder
/// within its limits can tell.
pub fn probe_image(content: &[u8]) -> (image: Option<ProbedImage>)
    ensures
        match image {
            Some(image) => sniffed_mime(content@) == Some(image.mime@) && image_size(
                content@,
                MAX_IMAGE_DIMENSION,
                MAX_DECODED_IMAGE_BYTES,
            ) == Some((image.dimensions.width, image.dimensions.height)),
            None => sniffed_mime(content@) is None || image_size(
                content@,
                MAX_IMAGE_DIMENSION,
                MAX_DECODED_IMAGE_BYTES,
            ) is None,
        },
{
    let mime = match detected_image_mime(content) {
        Some(mime) => mime.to_owned(),
        None => {
            return None;
        },
    };
    match read_image_size(content, MAX_IMAGE_DIMENSION, MAX_DECODED_IMAGE_BYTES) {
        Some((width, height)) => Some(
            ProbedImage { mime, dimensions: ImageMetadata { width, height } },
        ),
        None => None,
    }
}

/// An image that an entry names.
pub struct LocalImageSource {
    pub path: Vec<u8>,
    pub mime: String,
    pub dimensions: ImageMetadata,
}

/// The image that an entry holds or names.
pub enum ResolvedImage {
    Inline { mime: String, dimensions: Option<ImageMetadata> },
    LocalFile(LocalImageSource),
}

/// What is put on the clipboard for an entry.
pub enum Publication<'a> {
    Bytes { mime: &'a str },
    File { mime: &'a str, path: &'a [u8] },
}

/// What the bytes and the MIME type of an entry mean.
pub struct ResolvedContent {
    pub stored_mime: String,
    pub kind: EntryKind,
    pub files: Vec<FilePreview>,
    pub image: Option<ResolvedImage>,
}

/// Entries of these MIME types can name files.
pub open spec fn names_files(mime: Seq<char>) -> bool {
    mime == "text/uri-list"@ || mime == "x-special/gnome-copied-files"@ || mime == "text/plain"@
}

/// The files that an entry names, by its MIME type.
pub open spec fn named_files(stored_mime: Seq<char>, content: Seq<u8>) -> Seq<NamedFileView> {
    let mime = canonical(mime_or_default_of(stored_mime));
    if sniffed_mime(content) is None && names_files(mime) {
        parsed_files(mime, content)
    } else {
        Seq::empty()
    }
}

/// `preview` shows `file`, of which `exists` was found out.
pub open spec fn previews(preview: FilePreview, file: NamedFileView, exists: bool) -> bool {
    &&& preview.display_name@ == file.display_name
    &&& preview.uri@ == file.uri
    &&& preview.operation@ == file.operation
    &&& preview.exists == exists
}

/// There is something at the path of the `i`th file.
pub open spec fn probed_exists(probes: Seq<FileProbe>, files: Seq<NamedFileView>, i: int) -> bool {
    files[i].path is Some && i < probes.len() && probes[i].exists
}

/// The one file that an entry names is an image that may be shown: a regular
/// file within the limit.
pub open spec fn probed_image(
    probes: Seq<FileProbe>,
    files: Seq<NamedFileView>,
    max_bytes: u64,
) -> Option<ProbedImage> {
    if files.len() == 1 && files[0].path is Some && probes.len() > 0 && probes[0].regular
        && probes[0].size <= max_bytes {
        probes[0].image
    } else {
        None
    }
}

/// What is found out about the content of an entry by looking at it.
pub struct Findings {
    /// The MIME type of the image that it is.
    pub sniffed: Option<String>,
    /// The size of that image.
    pub size: Option<(u32, u32)>,
    /// The files that it names.
    pub named: Vec<NamedFile>,
    /// What it is, if it is no image and names none.
    pub kind: EntryKind,
}

impl ResolvedContent {
    /// `self` is what an entry means, given what its content looks like and what
    /// was found out about the files that it names.
    pub open spec fn follows(
        self,
        stored_mime: Seq<char>,
        sniffed: Option<Seq<char>>,
        size: Option<(u32, u32)>,
        files: Seq<NamedFileView>,
        kind: EntryKind,
        max_file_bytes: u64,
        probes: Seq<FileProbe>,
    ) -> bool {
        &&& self.stored_mime@ == mime_or_default_of(stored_mime)
        &&& self.files@.len() == files.len()
        &&& forall|i: int|
            #![trigger self.files@[i]]
            0 <= i < files.len() ==> previews(
                self.files@[i],
                files[i],
                probed_exists(probes, files, i),
            )
        &&& match sniffed {
            Some(mime) => {
                &&& self.kind == EntryKind::Image
                &&& self.image matches Some(ResolvedImage::Inline { mime: found, dimensions })
                &&& found@ == mime
                &&& dimensions == match size {
                    Some((width, height)) => Some(ImageMetadata { width, height }),
                    None => None,
                }
            },
            None => match probed_image(probes, files, max_file_bytes) {
                Some(image) => {
                    &&& self.kind == EntryKind::Image
                    &&& self.image matches Some(ResolvedImage::LocalFile(source))
                    &&& Some(source.path@) == files[0].path
                    &&& source.mime@ == image.mime@
                    &&& source.dimensions == image.dimensions
                },
                None => {
                    &&& self.kind == kind
                    &&& self.image is None
                },
            },
        }
    }

    /// `self` is what an entry means, given what was found out about the files
    /// that it names.
    pub open spec fn resolves(
        self,
        stored_mime: Seq<char>,
        content: Seq<u8>,
        max_file_bytes: u64,
        probes: Seq<FileProbe>,
    ) -> bool {
        self.follows(
            stored_mime,
            sniffed_mime(content),
            image_size(content, MAX_IMAGE_DIMENSION, MAX_DECODED_IMAGE_BYTES),
            named_files(stored_mime, content),
            classification::kind_of(canonical(mime_or_default_of(stored_mime)), content),
            max_file_bytes,
            probes,
        )
    }

    /// The local paths that have to be probed before an entry can be resolved,
    /// one for each file that it names.
    pub fn paths_to_probe(stored_mime: &str, content: &[u8]) -> (paths: Vec<Option<Vec<u8>>>)
        ensures
            paths@.len() == named_files(stored_mime@, content@).len(),
            forall|i: int|
                #![trigger paths@[i]]
                0 <= i < paths@.len() ==> match paths@[i] {
                    Some(path) => named_files(stored_mime@, content@)[i].path == Some(path@),
                    None => named_files(stored_mime@, content@)[i].path is None,
                },
    {
        let mut paths: Vec<Option<Vec<u8>>> = Vec::new();
        if detected_image_mime(content).is_some() {
            return paths;
        }
        let files = ResolvedContent::list_files(stored_mime, content);
        for i in 0..files.len()
            invariant
                file_views(files@) == named_files(stored_mime@, content@),
                paths@.len() == i,
                forall|j: int|
                    #![trigger paths@[j]]
                    0 <= j < i ==> match paths@[j] {
                        Some(path) => named_files(stored_mime@, content@)[j].path == Some(path@),
                        None => named_files(stored_mime@, content@)[j].path is None,
                    },
        {
            assert(file_views(files@)[i as int] == files@[i as int]@);
            match &files[i].path {
                Some(path) => {
                    let copy = bytes::copy_range(path.as_slice(), 0, path.len());
                    assert(copy@ =~= path@);
                    paths.push(Some(copy));
                },
                None => {
                    paths.push(None);
                },
            }
        }
        paths
    }

    fn list_files(stored_mime: &str, content: &[u8]) -> (files: Vec<NamedFile>)
        requires
            sniffed_mime(content@) is None,
        ensures
            file_views(files@) == named_files(stored_mime@, content@),
    {
        let known = mime_or_default(stored_mime);
        let semantic = canonical_mime(known.as_str());
        let mime = semantic.as_str();
        if text::same(mime, "text/uri-list") || text::same(mime, "x-special/gnome-copied-files")
            || text::same(mime, "text/plain") {
            parse_files(mime, content)
        } else {
            let files: Vec<NamedFile> = Vec::new();
            assert(file_views(files@) =~= Seq::empty());
            files
        }
    }

    /// What an entry means. `probes` says, in the order of `paths_to_probe`, what
    /// was found out about the files that it names.
    pub fn resolve(
        stored_mime: &str,
        content: &[u8],
        max_file_bytes: u64,
        probes: &[FileProbe],
    ) -> (resolved: Self)
        ensures
            resolved.resolves(stored_mime@, content@, max_file_bytes, probes@),
    {
        let known = mime_or_default(stored_mime);
        let kind = classify(canonical_mime(known.as_str()).as_str(), content);
        match detected_image_mime(content) {
            Some(mime) => {
                let named: Vec<NamedFile> = Vec::new();
                assert(file_views(named@) =~= Seq::empty());
                let size = read_image_size(content, MAX_IMAGE_DIMENSION, MAX_DECODED_IMAGE_BYTES);
                ResolvedContent::interpret(
                    stored_mime,
                    Findings { sniffed: Some(mime.to_owned()), size, named, kind },
                    max_file_bytes,
                    probes,
                )
            },
            None => {
                let named = ResolvedContent::list_files(stored_mime, content);
                ResolvedContent::interpret(
                    stored_mime,
                    Findings { sniffed: None, size: None, named, kind },
                    max_file_bytes,
                    probes,
                )
            },
        }
    }

    /// What an entry means, given what its content looks like.
    pub fn interpret(
        stored_mime: &str,
        findings: Findings,
        max_file_bytes: u64,
        probes: &[FileProbe],
    ) -> (resolved: Self)
        ensures
            resolved.follows(
                stored_mime@,
                match findings.sniffed {
                    Some(mime) => Some(mime@),
                    None => None,
                },
                findings.size,
                file_views(findings.named@),
                findings.kind,
                max_file_bytes,
                probes@,
            ),
    {
        let named = findings.named;
        let ghost views = file_views(named@);
        let mut files: Vec<FilePreview> = Vec::new();
        for i in 0..named.len()
            invariant
                views == file_views(named@),
                files@.len() == i,
                forall|j: int|
                    #![trigger files@[j]]
                    0 <= j < i ==> previews(files@[j], views[j], probed_exists(probes@, views, j)),
        {
            let exists: bool = named[i].path.is_some() && i < probes.len() && probes[i].exists;
            files.push(
                FilePreview {
                    display_name: named[i].display_name.clone(),
                    uri: named[i].uri.clone(),
                    exists,
                    operation: named[i].operation.clone(),
                },
            );
        }
        let stored_mime = mime_or_default(stored_mime);
        if let Some(mime) = findings.sniffed {
            let dimensions = match findings.size {
                Some((width, height)) => Some(ImageMetadata { width, height }),
                None => None,
            };
            return ResolvedContent {
                stored_mime,
                kind: EntryKind::Image,
                files,
                image: Some(ResolvedImage::Inline { mime, dimensions }),
            };
        }
        let mut image: Option<ResolvedImage> = None;
        if named.len() == 1 && probes.len() > 0 && probes[0].regular && probes[0].size
            <= max_file_bytes {
            if let Some(path) = &named[0].path {
                if let Some(found) = &probes[0].image {
                    let copy = bytes::copy_range(path.as_slice(), 0, path.len());
                    assert(copy@ =~= path@);
                    image = Some(
                        ResolvedImage::LocalFile(
                            LocalImageSource {
                                path: copy,
                                mime: found.mime.clone(),
                                dimensions: found.dimensions,
                            },
                        ),
                    );
                }
            }
        }
        let kind = if image.is_some() {
            EntryKind::Image
        } else {
            findings.kind
        };
        ResolvedContent { stored_mime, kind, files, image }
    }

    pub fn kind(&self) -> (kind: EntryKind)
        ensures
            kind == self.kind,
    {
        self.kind
    }

    /// The MIME type under which the entry is shown and published: the actual
    /// one of an image, the stored one of anything else.
    pub open spec fn shown_mime(self) -> Seq<char> {
        match self.image {
            Some(ResolvedImage::Inline { mime, .. }) => mime@,
            _ => self.stored_mime@,
        }
    }

    /// The MIME type under which the entry is shown and published.
    pub fn mime(&self) -> (mime: &str)
        ensures
            mime@ == self.shown_mime(),
    {
        match &self.image {
            Some(ResolvedImage::Inline { mime, .. }) => mime.as_str(),
            _ => self.stored_mime.as_str(),
        }
    }

    pub fn files(&self) -> (files: &[FilePreview])
        ensures
            files@ == self.files@,
    {
        self.files.as_slice()
    }

    /// The size of the image that the entry holds or names.
    pub fn image_metadata(&self) -> (metadata: Option<ImageMetadata>)
        ensures
            metadata == (match self.image {
                Some(ResolvedImage::Inline { dimensions, .. }) => dimensions,
                Some(ResolvedImage::LocalFile(source)) => Some(source.dimensions),
                None => None,
            }),
    {
        match &self.image {
            Some(ResolvedImage::Inline { dimensions, .. }) => *dimensions,
            Some(ResolvedImage::LocalFile(source)) => Some(source.dimensions),
            None => None,
        }
    }

    pub fn image(&self) -> (image: Option<&ResolvedImage>)
        ensures
            match image {
                Some(image) => self.image == Some(*image),
                None => self.image is None,
            },
    {
        self.image.as_ref()
    }

    /// The image file that the entry names.
    pub fn local_image(&self) -> (source: Option<&LocalImageSource>)
        ensures
            match source {
                Some(source) => self.image == Some(ResolvedImage::LocalFile(*source)),
                None => !(self.image is Some && self.image->0 is LocalFile),
            },
    {
        match &self.image {
            Some(ResolvedImage::LocalFile(source)) => Some(source),
            _ => None,
        }
    }

    /// What is put on the clipboard for the entry: the image that it names, else
    /// its own bytes.
    pub fn default_publication(&self) -> (publication: Publication<'_>)
        ensures
            match publication {
                Publication::File { mime, path } => match self.image {
                    Some(ResolvedImage::LocalFile(source)) => mime@ == source.mime@ && path@
                        == source.path@,
                    _ => false,
                },
                Publication::Bytes { mime } => !(self.image is Some && self.image->0 is LocalFile)
                    && mime@ == self.shown_mime(),
            },
    {
        match &self.image {
            Some(ResolvedImage::LocalFile(source)) => Publication::File {
                mime: source.mime.as_str(),
                path: source.path.as_slice(),
            },
            _ => Publication::Bytes { mime: self.mime() },
        }
    }
}

/// A failure of an entry.
pub fn invalid_entry(message: &str) -> (error: BackendError)
    ensures
        error.is(BackendErrorKind::InvalidData, message@),
{
    BackendError::new(BackendErrorKind::InvalidData, message)
}

/// Where the image for a thumbnail is read from.
pub enum ThumbnailSource {
    Stored,
    File(Vec<u8>),
}

/// Where the image for a thumbnail of an entry is read from, where the entry is
/// an image that is small enough.
pub fn thumbnail_source(content: &ResolvedContent, kind: EntryKind, byte_size: u64) -> (source:
    BackendResult<ThumbnailSource>)
    ensures
        match source {
            Ok(ThumbnailSource::Stored) => kind == EntryKind::Image && byte_size
                <= MAX_THUMBNAIL_BYTES && content.image is Some && content.image->0 is Inline,
            Ok(ThumbnailSource::File(path)) => kind == EntryKind::Image && (content.image matches Some(
                ResolvedImage::LocalFile(image),
            ) && path@ == image.path@),
            Err(error) => error.is(
                BackendErrorKind::InvalidData,
                "Clipboard entry cannot be thumbnailed"@,
            ) && !(kind == EntryKind::Image && content.image is Some && (content.image->0 is LocalFile
                || byte_size <= MAX_THUMBNAIL_BYTES)),
        },
{
    if !matches!(kind, EntryKind::Image) {
        return Err(invalid_entry("Clipboard entry cannot be thumbnailed"));
    }
    match &content.image {
        Some(ResolvedImage::Inline { .. }) => if byte_size <= MAX_THUMBNAIL_BYTES {
            Ok(ThumbnailSource::Stored)
        } else {
            Err(invalid_entry("Clipboard entry cannot be thumbnailed"))
        },
        Some(ResolvedImage::LocalFile(image)) => {
            let path = bytes::copy_range(image.path.as_slice(), 0, image.path.len());
            assert(path@ =~= image.path@);
            Ok(ThumbnailSource::File(path))
        },
        None => Err(invalid_entry("Clipboard entry cannot be thumbnailed")),
    }
}

/// The edge of a thumbnail: between 32 and 1024 pixels.
pub open spec fn thumbnail_edge_of(edge: u32) -> u32 {
    if edge < 32 {
        32
    } else if edge > 1024 {
        1024
    } else {
        edge
    }
}

/// The edge of a thumbnail.
pub fn thumbnail_edge(edge: u32) -> (result: u32)
    ensures
        result == thumbnail_edge_of(edge),
{
    if edge < 32 {
        32
    } else if edge > 1024 {
        1024
    } else {
        edge
    }
}

/// What a thumbnail of an image is made to be.
pub open spec fn thumbnail_png(content: Seq<u8>, edge: u32) -> Option<(Seq<u8>, u32, u32)> {
    scaled_png(
        content,
        MAX_IMAGE_DIMENSION,
        MAX_DECODED_IMAGE_BYTES,
        thumbnail_edge_of(edge),
    )
}

/// The thumbnail of an image: a PNG image, with its size.
pub fn thumbnail_of_image(content: &[u8], edge: u32) -> (made: BackendResult<(Vec<u8>, u32, u32)>)
    ensures
        match made {
            Ok(made) => thumbnail_png(content@, edge) == Some((made.0@, made.1, made.2)) && made.1
                <= thumbnail_edge_of(edge) && made.2 <= thumbnail_edge_of(edge),
            Err(error) => thumbnail_png(content@, edge) is None && error.is(
                BackendErrorKind::InvalidData,
                if image_decodes(content@, MAX_IMAGE_DIMENSION, MAX_DECODED_IMAGE_BYTES) {
                    "Clipboard thumbnail could not be written"@
                } else {
                    "Clipboard image could not be decoded"@
                },
            ),
        },
{
    match scale_to_png(
        content,
        MAX_IMAGE_DIMENSION,
        MAX_DECODED_IMAGE_BYTES,
        thumbnail_edge(edge),
    ) {
        Some(made) => Ok(made),
        None => if decode_image(content, MAX_IMAGE_DIMENSION, MAX_DECODED_IMAGE_BYTES) {
            Err(invalid_entry("Clipboard thumbnail could not be written"))
        } else {
            Err(invalid_entry("Clipboard image could not be decoded"))
        },
    }
}

/// The size of a thumbnail that was made before, where the file is still one.
pub fn cached_dimensions(content: &[u8]) -> (size: Option<(u32, u32)>)
    ensures
        size == image_size(content@, MAX_IMAGE_DIMENSION, MAX_DECODED_IMAGE_BYTES),
{
    read_image_size(content, MAX_IMAGE_DIMENSION, MAX_DECODED_IMAGE_BYTES)
}

/// How the names of the thumbnails of an entry in one state begin.
pub open spec fn thumbnail_prefix_of(id: Seq<char>, revision: u64) -> Seq<char> {
    id + "-"@ + text::decimal(revision as nat) + "-"@
}

/// How the names of the thumbnails of an entry in one state begin.
pub fn thumbnail_prefix(id: &str, revision: u64) -> (prefix: String)
    ensures
        prefix@ == thumbnail_prefix_of(id@, revision),
{
    let mut prefix = text::join(id, "-");
    prefix.append(text::format_u64(revision).as_str());
    prefix.append("-");
    prefix
}

/// The name of a thumbnail.
pub fn thumbnail_name(id: &str, revision: u64, edge: u32) -> (name: String)
    ensures
        name@ == thumbnail_prefix_of(id@, revision) + text::decimal(thumbnail_edge_of(edge) as nat)
            + ".png"@,
{
    let mut name = thumbnail_prefix(id, revision);
    name.append(text::format_u64(thumbnail_edge(edge) as u64).as_str());
    name.append(".png");
    name
}

/// The thumbnail of one of these entries in these states.
pub open spec fn thumbnail_of(name: Seq<char>, valid: Seq<(String, u64)>) -> bool {
    exists|i: int|
        0 <= i < valid.len() && text::begins(
            name,
            thumbnail_prefix_of((#[trigger] valid[i]).0@, valid[i].1),
        )
}

/// Whether a thumbnail is still that of an entry; others are deleted.
pub fn keeps_thumbnail(name: &str, valid: &[(String, u64)]) -> (kept: bool)
    ensures
        kept == thumbnail_of(name@, valid@),
{
    for i in 0..valid.len()
        invariant
            forall|j: int|
                0 <= j < i ==> !text::begins(
                    name@,
                    thumbnail_prefix_of((#[trigger] valid@[j]).0@, valid@[j].1),
                ),
    {
        let (id, revision) = &valid[i];
        let prefix = thumbnail_prefix(id.as_str(), *revision);
        if text::starts_with(name, prefix.as_str()) {
            assert(text::begins(name@, thumbnail_prefix_of(valid@[i as int].0@, valid@[i as int].1)));
            return true;
        }
    }
    false
}

/// The extension of an image file of a MIME type.
pub open spec fn extension_of(mime: Seq<char>) -> Seq<char> {
    let essence = mime.take(text::index_of(mime, ';'));
    if essence == "image/jpeg"@ {
        "jpg"@
    } else if essence == "image/webp"@ {
        "webp"@
    } else if essence == "image/gif"@ {
        "gif"@
    } else if essence == "image/bmp"@ {
        "bmp"@
    } else if essence == "image/tiff"@ {
        "tiff"@
    } else if essence == "image/svg+xml"@ {
        "svg"@
    } else {
        "png"@
    }
}

/// The extension of an image file of a MIME type.
pub fn image_extension(mime: &str) -> (extension: &'static str)
    ensures
        extension@ == extension_of(mime@),
{
    let chars = text::chars_of(mime);
    let at = text::find_char(chars.as_slice(), ';');
    let head = text::slice_chars(chars.as_slice(), 0, at);
    assert(head@ =~= mime@.take(at as int));
    let essence = text::string_of(head.as_slice());
    let e = essence.as_str();
    if text::same(e, "image/jpeg") {
        "jpg"
    } else if text::same(e, "image/webp") {
        "webp"
    } else if text::same(e, "image/gif") {
        "gif"
    } else if text::same(e, "image/bmp") {
        "bmp"
    } else if text::same(e, "image/tiff") {
        "tiff"
    } else if text::same(e, "image/svg+xml") {
        "svg"
    } else {
        "png"
    }
}

/// An edited image that may take the place of another: a regular file within
/// the limits that holds a PNG image which can be read to its end.
pub open spec fn valid_edit(
    regular: bool,
    size: u64,
    mime: Option<Seq<char>>,
    decodes: bool,
    max_bytes: u64,
) -> bool {
    &&& regular
    &&& size <= max_bytes
    &&& size <= MAX_THUMBNAIL_BYTES
    &&& mime == Some("image/png"@)
    &&& decodes
}

/// Whether an edited image may take the place of another, given what its
/// content looks like.
pub fn accepts_edit(
    regular: bool,
    size: u64,
    mime: Option<&str>,
    decodes: bool,
    max_bytes: u64,
) -> (valid: bool)
    ensures
        valid == valid_edit(
            regular,
            size,
            match mime {
                Some(mime) => Some(mime@),
                None => None,
            },
            decodes,
            max_bytes,
        ),
{
    let png: bool = match mime {
        Some(mime) => text::same(mime, "image/png"),
        None => false,
    };
    regular && size <= max_bytes && size <= MAX_THUMBNAIL_BYTES && png && decodes
}

/// Whether an edited image may take the place of another.
pub fn valid_edited_image(regular: bool, size: u64, content: &[u8], max_bytes: u64) -> (valid: bool)
    ensures
        valid == valid_edit(
            regular,
            size,
            sniffed_mime(content@),
            image_decodes(content@, MAX_IMAGE_DIMENSION, MAX_DECODED_IMAGE_BYTES),
            max_bytes,
        ),
{
    accepts_edit(
        regular,
        size,
        detected_image_mime(content),
        decode_image(content, MAX_IMAGE_DIMENSION, MAX_DECODED_IMAGE_BYTES),
        max_bytes,
    )
}

} // verus!
