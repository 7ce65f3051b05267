//! What is put on the clipboard, and what is not.
use crate::backend::{BackendResult, FileSelection, FileSelectionOperation};
use crate::classification;
use crate::model::OperationResult;
use crate::ringboard::content;
use crate::ringboard::publication;
use crate::selection;
use crate::selection::{
    FileContent, SelectionPublisher, SelectionService, WaylandOffer, WaylandSelectionPublisher,
};
use crate::text;
use vstd::prelude::*;
use vstd::string::*;
use vstd::utf8::*;

verus! {

/// The most bytes that are published: what was configured, and at most 64 MiB.
pub open spec fn at_most(configured: u64) -> int {
    if configured < 64 * 1024 * 1024 {
        configured as int
    } else {
        67_108_864
    }
}

/// The limit in force is the configured one, and never more than 64 MiB; content is
/// accepted exactly up to it.
pub proof fn sizes_are_limited(
    configured: u64,
    limit: u64,
    size: u64,
    accepted: BackendResult<()>,
)
    requires
        call_ensures(selection::effective_limit, (configured,), limit),
        call_ensures(selection::validate_size, (size, configured), accepted),
    ensures
        limit == at_most(configured),
        accepted is Ok <==> size <= at_most(configured),
        accepted matches Err(error) ==> error.kind is InvalidData,
{
}

/// A letter, a digit, or one of the signs that the parts of a MIME type may hold.
pub open spec fn plain_sign(c: char) -> bool {
    ||| 'a' <= c <= 'z'
    ||| 'A' <= c <= 'Z'
    ||| '0' <= c <= '9'
    ||| c == '!' || c == '#' || c == '$' || c == '&' || c == '^' || c == '_' || c == '.' || c == '+'
        || c == '-'
}

/// Two parts of plain signs with a slash between them are a MIME type; anything
/// longer than 255 characters, with a character that is not printable ASCII, or
/// without a slash is none.
pub proof fn types_have_two_parts(
    mime: &str,
    kind: Seq<char>,
    subkind: Seq<char>,
    result: BackendResult<()>,
)
    requires
        call_ensures(selection::validate_mime, (mime,), result),
    ensures
        mime@ == kind.push('/') + subkind && mime@.len() <= 255 && kind.len() > 0 && subkind.len()
            > 0 && (forall|i: int| 0 <= i < kind.len() ==> plain_sign(#[trigger] kind[i])) && (
        forall|i: int| 0 <= i < subkind.len() ==> plain_sign(#[trigger] subkind[i])) ==> result is Ok,
        mime@.len() > 255 || mime@.len() == 0 ==> result is Err,
        (exists|i: int|
            0 <= i < mime@.len() && ((#[trigger] mime@[i] as int) < 0x20 || mime@[i] as int > 0x7e))
            ==> result is Err,
        !mime@.contains('/') ==> result is Err,
        result matches Err(error) ==> error.kind is InvalidData,
{
    if mime@ == kind.push('/') + subkind && mime@.len() <= 255 && kind.len() > 0 && subkind.len()
        > 0 && (forall|i: int| 0 <= i < kind.len() ==> plain_sign(#[trigger] kind[i])) && (
    forall|i: int| 0 <= i < subkind.len() ==> plain_sign(#[trigger] subkind[i])) {
        let m = mime@;
        assert forall|i: int| 0 <= i < m.len() implies ' ' <= #[trigger] m[i] <= '~' && m[i]
            != ';' by {
            if i < kind.len() {
                assert(m[i] == kind[i]);
            } else if i > kind.len() {
                assert(m[i] == subkind[i - kind.len() - 1]);
            }
        }
        assert(!m.contains(';'));
        text::index_of_is_first(m, ';');
        assert(m.take(m.len() as int) =~= m);
        assert(m[0] == kind[0]);
        assert(m.last() == subkind[subkind.len() - 1]);
        assert(plain_sign(kind[0]));
        text::trimmed_is_same(m);
        assert forall|i: int| 0 <= i < kind.len() implies #[trigger] kind[i] != '/' by {
            assert(plain_sign(kind[i]));
        }
        assert(!kind.contains('/'));
        text::splits_at(kind, '/', subkind);
        assert(selection::token(kind));
        assert(selection::token(subkind));
    }
    if !mime@.contains('/') && result is Ok {
        let essence = classification::essence(mime@);
        text::index_of_is_first(essence, '/');
        let at = choose|i: int| 0 <= i < essence.len() && essence[i] == '/';
        let head = mime@.take(text::index_of(mime@, ';'));
        text::index_of_is_first(mime@, ';');
        a_trimmed_character_was_there(head, at);
        let i = choose|i: int| 0 <= i < head.len() && head[i] == essence[at];
        assert(mime@[i] == '/');
    }
}

proof fn a_trimmed_character_was_there(s: Seq<char>, at: int)
    requires
        0 <= at < text::trimmed(s).len(),
    ensures
        exists|i: int| 0 <= i < s.len() && s[i] == text::trimmed(s)[at],
{
    a_start_is_taken_away(s);
    let rest = text::trim_start(s);
    an_end_is_taken_away(rest);
    let from = s.len() - rest.len();
    assert(s[from + at] == text::trimmed(s)[at]);
}

proof fn a_start_is_taken_away(s: Seq<char>)
    ensures
        text::trim_start(s).len() <= s.len(),
        text::trim_start(s) == s.skip(s.len() - text::trim_start(s).len()),
    decreases s.len(),
{
    if s.len() > 0 && text::white(s[0]) {
        a_start_is_taken_away(s.drop_first());
        let rest = text::trim_start(s);
        assert(s.drop_first().skip(s.len() - 1 - rest.len()) =~= s.skip(s.len() - rest.len()));
    } else {
        assert(s.skip(0) =~= s);
    }
}

proof fn an_end_is_taken_away(s: Seq<char>)
    ensures
        text::trim_end(s).len() <= s.len(),
        text::trim_end(s) == s.take(text::trim_end(s).len() as int),
    decreases s.len(),
{
    if s.len() > 0 && text::white(s.last()) {
        an_end_is_taken_away(s.drop_last());
        let rest = text::trim_end(s);
        assert(s.drop_last().take(rest.len() as int) =~= s.take(rest.len() as int));
    } else {
        assert(s.take(s.len() as int) =~= s);
    }
}

/// Content is offered as it is, under its own type; only plain text that is text is
/// offered under the other names of plain text too.
pub proof fn content_is_offered_as_it_is(mime: &str, content: Vec<u8>, offer: WaylandOffer)
    requires
        call_ensures(WaylandSelectionPublisher::offer, (mime, content), offer),
    ensures
        offer.sources@.len() == 1,
        offer.sources@[0].content@ == content@,
        offer.sources@[0].mime matches Some(offered) && offered@ == mime@,
        offer.omit_text_aliases <==> !((mime@ == "text/plain"@ || mime@
            == "text/plain;charset=utf-8"@) && valid_utf8(content@)),
{
}

/// A link is offered as a list of files, and as text without its line end.
pub proof fn links_are_offered_as_list_and_text(
    url: Seq<u8>,
    uri: Vec<u8>,
    offer: WaylandOffer,
)
    requires
        uri@ == url + seq![0x0du8, 0x0a],
        call_ensures(WaylandSelectionPublisher::offer_file_link, (uri,), offer),
    ensures
        offer.sources@.len() == 2,
        offer.sources@[0].mime matches Some(offered) && offered@ == "text/uri-list"@,
        offer.sources@[0].content@ == uri@,
        offer.sources@[1].mime is None,
        offer.sources@[1].content@ == url,
        !offer.omit_text_aliases,
{
    assert(uri@[uri@.len() - 2] == 0x0d);
    assert(uri@[uri@.len() - 1] == 0x0a);
    assert(uri@.take(uri@.len() - 2) =~= url);
}

/// Files are offered in the form that says whether to copy or move them, and as a
/// plain list.
pub proof fn files_are_offered_in_both_forms(
    payload: Vec<u8>,
    list: Vec<u8>,
    offer: WaylandOffer,
)
    requires
        call_ensures(WaylandSelectionPublisher::offer_files, (payload, list), offer),
    ensures
        offer.sources@.len() == 2,
        offer.sources@[0].mime matches Some(offered) && offered@ == "x-special/gnome-copied-files"@,
        offer.sources@[0].content@ == payload@,
        offer.sources@[1].mime matches Some(offered) && offered@ == "text/uri-list"@,
        offer.sources@[1].content@ == list@,
        offer.omit_text_aliases,
{
}

/// Content within the limit and with a proper type is handed to whoever owns the
/// clipboard, as it is, and what that says is what comes back; anything else is
/// refused.
pub proof fn content_is_handed_over_as_it_is<P: SelectionPublisher>(
    service: SelectionService<P>,
    mime: &str,
    content: Vec<u8>,
    configured: u64,
    valid: BackendResult<()>,
    result: BackendResult<()>,
)
    requires
        call_ensures(SelectionService::<P>::publish, (&service, mime, content, configured), result),
        call_ensures(selection::validate_mime, (mime,), valid),
    ensures
        valid is Ok && content@.len() <= at_most(configured) ==> call_ensures(
            P::publish,
            (&*service.publisher, mime, content),
            result,
        ),
        valid is Err || content@.len() > at_most(configured) ==> (result matches Err(error)
            && error.kind is InvalidData),
{
}

/// The content of a file is handed over as it is within the same limits.
pub proof fn files_contents_are_handed_over_as_they_are<P: SelectionPublisher>(
    service: SelectionService<P>,
    mime: &str,
    file: FileContent,
    configured: u64,
    valid: BackendResult<()>,
    result: BackendResult<()>,
)
    requires
        call_ensures(
            SelectionService::<P>::publish_file,
            (&service, mime, file, configured),
            result,
        ),
        call_ensures(selection::validate_mime, (mime,), valid),
    ensures
        valid is Ok && file.size <= at_most(configured) && file.content is Ok
            && file.content->Ok_0@.len() <= at_most(configured) ==> call_ensures(
            P::publish,
            (&*service.publisher, mime, file.content->Ok_0),
            result,
        ),
        !(valid is Ok && file.size <= at_most(configured) && file.content is Ok
            && file.content->Ok_0@.len() <= at_most(configured)) ==> result is Err,
{
}

/// A link within the limit is handed over as it is.
pub proof fn links_are_handed_over_as_they_are<P: SelectionPublisher>(
    service: SelectionService<P>,
    uri: Vec<u8>,
    configured: u64,
    result: BackendResult<()>,
)
    requires
        call_ensures(
            SelectionService::<P>::publish_file_link,
            (&service, uri, configured),
            result,
        ),
    ensures
        uri@.len() <= at_most(configured) ==> call_ensures(
            P::publish_file_link,
            (&*service.publisher, uri),
            result,
        ),
        uri@.len() > at_most(configured) ==> result is Err,
{
}

/// Files are handed over with their list, and with the word for copying or moving on
/// a line before it.
pub proof fn file_lists_are_handed_over<P: SelectionPublisher>(
    service: SelectionService<P>,
    operation: &str,
    list: Vec<u8>,
    configured: u64,
    result: BackendResult<()>,
)
    requires
        call_ensures(
            SelectionService::<P>::publish_files,
            (&service, operation, list, configured),
            result,
        ),
    ensures
        operation@ != "copy"@ && operation@ != "cut"@ ==> result is Err,
        (operation@ == "copy"@ || operation@ == "cut"@) && encode_utf8(operation@).len() + 1
            + list@.len() <= at_most(configured) ==> exists|payload: Vec<u8>|
            payload@ == encode_utf8(operation@) + seq![0x0au8] + list@ && #[trigger] call_ensures(
                P::publish_files,
                (&*service.publisher, payload, list),
                result,
            ),
        (operation@ == "copy"@ || operation@ == "cut"@) && encode_utf8(operation@).len() + 1
            + list@.len() > at_most(configured) ==> (result matches Err(error)
            && error.kind is InvalidData),
{
    assert(encode_utf8(operation@).push(0x0a) + list@ =~= encode_utf8(operation@) + seq![0x0au8]
        + list@);
}

/// One more path adds its URL and a line end to a list of files, behind the others;
/// a list with a path that does not begin at the root is refused.
pub proof fn lists_grow_line_by_line(
    paths: Vec<String>,
    path: String,
    longer: Vec<String>,
    list: BackendResult<Vec<u8>>,
    longer_list: BackendResult<Vec<u8>>,
)
    requires
        longer@ == paths@.push(path),
        call_ensures(publication::encode_file_uris, (&paths,), list),
        call_ensures(publication::encode_file_uris, (&longer,), longer_list),
    ensures
        longer_list is Ok <==> list is Ok && path@.len() > 0 && path@[0] == '/',
        longer_list is Ok ==> longer_list->Ok_0@ == list->Ok_0@ + (encode_utf8(
            content::file_path_url(encode_utf8(path@))->0,
        ) + encode_utf8("\r\n"@)),
        paths@.len() == 0 ==> (list matches Ok(list) && list@.len() == 0),
        longer_list matches Err(error) ==> error.kind is InvalidData,
{
    assert(longer@.drop_last() =~= paths@);
    assert(longer@[paths@.len() as int] == path);
    if list is Err {
        let i = choose|i: int|
            0 <= i < paths@.len() && publication::path_refusal((#[trigger] paths@[i])@) is Some;
        assert(longer@[i] == paths@[i]);
    }
    if longer_list is Err {
        let i = choose|i: int|
            0 <= i < longer@.len() && publication::path_refusal((#[trigger] longer@[i])@) is Some;
        if i < paths@.len() {
            assert(longer@[i] == paths@[i]);
            assert(publication::path_refusal(paths@[i]@) is Some);
        }
    }
}

/// Nothing is not published; content that was published is told as that, and what was
/// refused as it was refused.
pub proof fn publications_are_told<P: SelectionPublisher>(
    service: SelectionService<P>,
    mime: &str,
    content: Vec<u8>,
    max_bytes: u64,
    operation: BackendResult<OperationResult>,
)
    requires
        call_ensures(
            publication::publish_content::<P>,
            (&service, mime, content, max_bytes),
            operation,
        ),
    ensures
        content@.len() == 0 || content@.len() > at_most(max_bytes) ==> (operation matches Err(error)
            && error.kind is InvalidData),
        operation matches Ok(told) ==> told.action@ == "publish"@ && told.status@ == "completed"@
            && exists|result: BackendResult<()>|
            result is Ok && #[trigger] call_ensures(
                P::publish,
                (&*service.publisher, mime, content),
                result,
            ),
{
}

/// From 1 to 100 files are published at once, each under an absolute path.
pub proof fn files_are_published_together<P: SelectionPublisher>(
    service: SelectionService<P>,
    files: FileSelection,
    max_bytes: u64,
    operation: BackendResult<OperationResult>,
    list: BackendResult<Vec<u8>>,
)
    requires
        call_ensures(publication::publish_files::<P>, (&service, files, max_bytes), operation),
        call_ensures(publication::encode_file_uris, (&files.paths,), list),
    ensures
        files.paths@.len() == 0 || files.paths@.len() > 100 ==> operation is Err,
        list is Err ==> operation is Err,
        operation matches Ok(told) ==> told.action@ == "publish-files"@ && told.status@
            == "completed"@ && list is Ok,
        operation is Ok && files.operation is Copy ==> exists|
            sent: Vec<u8>,
            result: BackendResult<()>,
        |
            sent@ == list->Ok_0@ && result is Ok && #[trigger] service.publishes_files(
                "copy"@,
                sent,
                max_bytes,
                result,
            ),
        operation is Ok && files.operation is Cut ==> exists|
            sent: Vec<u8>,
            result: BackendResult<()>,
        |
            sent@ == list->Ok_0@ && result is Ok && #[trigger] service.publishes_files(
                "cut"@,
                sent,
                max_bytes,
                result,
            ),
{
    if list is Err {
        let i = choose|i: int|
            0 <= i < files.paths@.len() && publication::path_refusal(
                (#[trigger] files.paths@[i])@,
            ) is Some;
        assert(publication::path_refusal(files.paths@[i]@) is Some);
    }
}

/// Copying and moving files are named on the clipboard as file managers name them.
pub proof fn operations_have_their_names(operation: FileSelectionOperation, name: &str)
    requires
        call_ensures(FileSelectionOperation::as_str, (operation,), name),
    ensures
        operation is Copy ==> name@ == "copy"@,
        operation is Cut ==> name@ == "cut"@,
{
}

/// Content is taken from a file exactly where neither the declared nor the actual
/// size is over the limit, and then as it is.
pub proof fn selections_are_read_within_the_limit(
    file: FileContent,
    configured: u64,
    result: BackendResult<Vec<u8>>,
)
    requires
        call_ensures(selection::read_selection, (file, configured), result),
    ensures
        result is Ok <==> file.size <= at_most(configured) && file.content is Ok
            && file.content->Ok_0@.len() <= at_most(configured),
        result matches Ok(content) ==> content@ == file.content->Ok_0@,
{
}

/// A list of addresses has each on a line of its own, in order.
pub proof fn addresses_stand_on_lines(
    urls: Vec<String>,
    url: String,
    longer: Vec<String>,
    list: Vec<u8>,
    longer_list: Vec<u8>,
)
    requires
        longer@ == urls@.push(url),
        call_ensures(publication::join_uris, (&urls,), list),
        call_ensures(publication::join_uris, (&longer,), longer_list),
    ensures
        longer_list@ == list@ + (encode_utf8(url@) + encode_utf8("\r\n"@)),
        urls@.len() == 0 ==> list@.len() == 0,
{
    assert(longer@.drop_last() =~= urls@);
}

} // verus!
