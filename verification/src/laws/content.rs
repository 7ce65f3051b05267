//! What the content of an entry means: its kind, its preview, the files and the
//! image that it names.
use crate::backend::BackendResult;
use crate::classification;
use crate::model::{EntryKind, ImageMetadata};
use crate::ringboard::content;
use crate::ringboard::content::{
    FileProbe, FileUris, Findings, NamedFile, Publication, ResolvedContent, ResolvedImage,
    ThumbnailSource,
};
use crate::text;
use vstd::prelude::*;
use vstd::string::*;
use vstd::utf8::*;

verus! {

/// A MIME type as it is usually written: without parameters and without white space
/// around it.
pub open spec fn bare(mime: Seq<char>) -> bool {
    &&& mime.len() > 0
    &&& !mime.contains(';')
    &&& !text::white(mime[0])
    &&& !text::white(mime.last())
}

proof fn bare_types_are_their_essence(mime: Seq<char>)
    requires
        bare(mime),
    ensures
        classification::essence(mime) == mime,
{
    text::index_of_is_first(mime, ';');
    assert(mime.take(mime.len() as int) =~= mime);
    text::trimmed_is_same(mime);
}

proof fn names_differ(a: Seq<char>, b: Seq<char>, i: int)
    requires
        a.len() != b.len() || (0 <= i < a.len() && text::ascii_lower(a[i]) != text::ascii_lower(
            b[i],
        )),
    ensures
        !text::same_ignoring_case(a, b),
{
}

/// The MIME type of an entry settles its kind, whatever it holds: lists of files,
/// HTML, JSON and images are told by their types, and whatever is no text is binary.
pub proof fn types_settle_kinds(mime: &str, bytes: &[u8], kind: EntryKind)
    requires
        call_ensures(classification::classify, (mime, bytes), kind),
        bare(mime@),
    ensures
        mime@ == "text/uri-list"@ || mime@ == "x-special/gnome-copied-files"@ ==> kind
            == EntryKind::Files,
        mime@ == "text/html"@ || mime@ == "application/xhtml+xml"@ ==> kind == EntryKind::Html,
        mime@ == "application/json"@ || mime@ == "application/ld+json"@ ==> kind
            == EntryKind::Json,
        mime@.len() >= 6 && mime@.take(6) == "image/"@ ==> kind == EntryKind::Image,
        mime@[0] != 't' && mime@[0] != 'T' && mime@[0] != 'i' && mime@[0] != 'I' && mime@[0] != 'a'
            && mime@[0] != 'A' && mime@[0] != 'x' && mime@[0] != 'X' ==> kind == EntryKind::Binary,
{
    bare_types_are_their_essence(mime@);
    reveal_strlit("");
    reveal_strlit("text/plain");
    reveal_strlit("text/uri-list");
    reveal_strlit("x-special/gnome-copied-files");
    reveal_strlit("text/html");
    reveal_strlit("application/xhtml+xml");
    reveal_strlit("application/json");
    reveal_strlit("application/ld+json");
    reveal_strlit("image/");
    reveal_strlit("text/");
    let m = mime@;
    if m.len() >= 6 && m.take(6) == "image/"@ {
        assert(m.take(6)[0] == m[0]);
        names_differ(m, "text/plain"@, 0);
        names_differ(m, "text/uri-list"@, 0);
        names_differ(m, "x-special/gnome-copied-files"@, 0);
        names_differ(m, "text/html"@, 0);
        names_differ(m, "application/xhtml+xml"@, 0);
        names_differ(m, "application/json"@, 0);
        names_differ(m, "application/ld+json"@, 0);
        assert(classification::begins_named(m, "image/"@));
    } else if m == "text/uri-list"@ {
        names_differ(m, "text/plain"@, 0);
    } else if m == "x-special/gnome-copied-files"@ {
        names_differ(m, "text/plain"@, 0);
    } else if m == "text/html"@ {
        names_differ(m, "text/plain"@, 0);
        names_differ(m, "text/uri-list"@, 0);
        names_differ(m, "x-special/gnome-copied-files"@, 0);
    } else if m == "application/xhtml+xml"@ || m == "application/json"@ || m
        == "application/ld+json"@ {
        names_differ(m, "text/plain"@, 0);
        names_differ(m, "text/uri-list"@, 0);
        names_differ(m, "x-special/gnome-copied-files"@, 0);
        names_differ(m, "text/html"@, 0);
        if m == "application/json"@ {
            names_differ(m, "application/xhtml+xml"@, 0);
        } else if m == "application/ld+json"@ {
            names_differ(m, "application/xhtml+xml"@, 0);
        }
    } else if m[0] != 't' && m[0] != 'T' && m[0] != 'i' && m[0] != 'I' && m[0] != 'a' && m[0] != 'A'
        && m[0] != 'x' && m[0] != 'X' {
        names_differ(m, "text/plain"@, 0);
        names_differ(m, "text/uri-list"@, 0);
        names_differ(m, "x-special/gnome-copied-files"@, 0);
        names_differ(m, "text/html"@, 0);
        names_differ(m, "application/xhtml+xml"@, 0);
        names_differ(m, "application/json"@, 0);
        names_differ(m, "application/ld+json"@, 0);
        if m.len() >= 6 {
            assert(m.take(6)[0] == m[0]);
            names_differ(m.take(6), "image/"@, 0);
        }
        if m.len() >= 5 {
            assert(m.take(5)[0] == m[0]);
            names_differ(m.take(5), "text/"@, 0);
        }
    }
}

/// Plain text, or an entry without a type, is looked into: bytes that are no text
/// are binary, and a text is what it reads as without the white space around it.
pub proof fn plain_text_is_looked_into(
    mime: &str,
    bytes: &[u8],
    kind: EntryKind,
    value: &[char],
    is_json: bool,
    read_as: EntryKind,
)
    requires
        call_ensures(classification::classify, (mime, bytes), kind),
        mime@ == "text/plain"@ || mime@ == ""@,
        bytes@.len() <= 65_536,
        valid_utf8(bytes@) ==> value@ == text::trimmed(decode_utf8(bytes@)),
        is_json == classification::json_value(value@),
        call_ensures(classification::text_kind, (value, is_json), read_as),
    ensures
        !valid_utf8(bytes@) ==> kind == EntryKind::Binary,
        valid_utf8(bytes@) ==> kind == read_as,
{
    reveal_strlit("");
    reveal_strlit("text/plain");
    if mime@ == "text/plain"@ {
        bare_types_are_their_essence(mime@);
    } else {
        assert(mime@.take(text::index_of(mime@, ';')) =~= mime@);
    }
}

/// A text is a colour exactly where it is `#` and 3, 4, 6 or 8 hexadecimal digits, a
/// JSON document exactly where it is a JSON value in braces or brackets, and a link
/// only where it begins like a web address, goes on, and has no white space.
pub proof fn texts_are_told_by_their_form(value: &[char], is_json: bool, kind: EntryKind)
    requires
        call_ensures(classification::text_kind, (value, is_json), kind),
    ensures
        kind == EntryKind::Color <==> (value@.len() == 4 || value@.len() == 5 || value@.len() == 7
            || value@.len() == 9) && value@[0] == '#' && forall|i: int|
            1 <= i < value@.len() ==> ('0' <= #[trigger] value@[i] <= '9') || ('a' <= value@[i]
                <= 'f') || ('A' <= value@[i] <= 'F'),
        kind == EntryKind::Json <==> is_json && value@.len() >= 2 && ((value@[0] == '{'
            && value@.last() == '}') || (value@[0] == '[' && value@.last() == ']')),
        kind == EntryKind::Link ==> value@.len() > 7 && (value@[0] == 'h' || value@[0] == 'H')
            && value@.contains('/') && forall|i: int|
            0 <= i < value@.len() ==> !text::white(#[trigger] value@[i]),
        value@.len() > 7 && value@.take(7) == "http://"@ && (forall|i: int|
            0 <= i < value@.len() ==> !text::white(#[trigger] value@[i])) ==> kind
            == EntryKind::Link,
        value@.len() > 8 && value@.take(8) == "https://"@ && (forall|i: int|
            0 <= i < value@.len() ==> !text::white(#[trigger] value@[i])) ==> kind
            == EntryKind::Link,
        kind == EntryKind::Color || kind == EntryKind::Json || kind == EntryKind::Link || kind
            == EntryKind::Text,
{
    reveal_strlit("http://");
    reveal_strlit("https://");
    let v = value@;
    if v.len() > 7 {
        assert(v.take(7)[0] == v[0]);
        assert(v.take(7)[5] == v[5]);
        if classification::begins_named(v, "http://"@) {
            assert(text::ascii_lower(v.take(7)[0]) == text::ascii_lower("http://"@[0]));
            assert(text::ascii_lower(v.take(7)[5]) == text::ascii_lower("http://"@[5]));
            assert(v[5] == '/');
        }
    }
    if v.len() > 8 {
        assert(v.take(8)[0] == v[0]);
        assert(v.take(8)[6] == v[6]);
        if classification::begins_named(v, "https://"@) {
            assert(text::ascii_lower(v.take(8)[0]) == text::ascii_lower("https://"@[0]));
            assert(text::ascii_lower(v.take(8)[6]) == text::ascii_lower("https://"@[6]));
            assert(v[6] == '/');
        }
    }
}

/// A character that a preview leaves out: it controls, or shows nothing of itself.
pub open spec fn unseen(c: char) -> bool {
    let n = c as int;
    ||| n <= 0x1f
    ||| 0x7f <= n <= 0x9f
    ||| n == 0xad || n == 0x34f || n == 0x61c || n == 0x180e || n == 0xfeff
    ||| 0x200b <= n <= 0x200f
    ||| 0x202a <= n <= 0x202e
    ||| 0x2060 <= n <= 0x206f
}

/// A word as it can be shown: something to see in each character, and no white
/// space.
pub open spec fn word(s: Seq<char>) -> bool {
    &&& s.len() > 0
    &&& forall|i: int| 0 <= i < s.len() ==> !unseen(#[trigger] s[i]) && !text::white(s[i])
}

proof fn words_are_shown_whole(s: Seq<char>)
    requires
        word(s),
    ensures
        classification::shown(s) == s,
    decreases s.len(),
{
    reveal(Seq::filter);
    let keep = |c: char| classification::visible(c);
    assert(classification::visible(s.last())) by {
        assert(!unseen(s[s.len() - 1]));
    }
    if s.len() > 1 {
        let front = s.drop_last();
        assert forall|i: int| 0 <= i < front.len() implies !unseen(#[trigger] front[i])
            && !text::white(front[i]) by {
            assert(front[i] == s[i]);
        }
        words_are_shown_whole(front);
        assert(s =~= front.push(s.last()));
    } else {
        assert(s.drop_last().filter(keep) =~= Seq::empty());
        assert(s =~= seq![s.last()]);
    }
    assert(s.filter(keep) =~= s);
}

proof fn words_end_at_white_space(a: Seq<char>, rest: Seq<char>)
    requires
        forall|i: int| 0 <= i < a.len() ==> !text::white(#[trigger] a[i]),
        rest.len() == 0 || text::white(rest[0]),
    ensures
        classification::word_end(a + rest) == a.len(),
    decreases a.len(),
{
    let s = a + rest;
    if a.len() == 0 {
        assert(s =~= rest);
    } else {
        assert(s[0] == a[0]);
        let tail = a.drop_first();
        assert forall|i: int| 0 <= i < tail.len() implies !text::white(#[trigger] tail[i]) by {
            assert(tail[i] == a[i + 1]);
        }
        words_end_at_white_space(tail, rest);
        assert(s.drop_first() =~= tail + rest);
    }
}

proof fn one_word_makes_a_line(line: Seq<char>, a: Seq<char>)
    requires
        word(a),
    ensures
        classification::one_line(line, a) == if line.len() == 0 {
            a
        } else {
            line.push(' ') + a
        },
{
    words_are_shown_whole(a);
    words_end_at_white_space(a, Seq::empty());
    assert(a + Seq::<char>::empty() =~= a);
    assert(!text::white(a[0]));
    assert(a.take(a.len() as int) =~= a);
    let rest = a.skip(a.len() as int);
    assert(rest.len() == 0);
    assert(classification::one_line(classification::line_with(line, a), rest)
        == classification::line_with(line, a));
}

proof fn short_lines_stay(s: Seq<char>, limit: usize)
    ensures
        encode_utf8(s).len() <= limit ==> classification::truncated(s, limit) == s,
        classification::truncated(s, limit).len() <= s.len(),
        classification::truncated(s, limit) == s.take(
            classification::truncated(s, limit).len() as int,
        ),
        classification::truncated(s, limit).len() < s.len() ==> encode_utf8(
            s.take((classification::truncated(s, limit).len() + 1) as int),
        ).len() > limit,
    decreases s.len(),
{
    if s.len() == 0 || encode_utf8(s).len() <= limit {
        assert(s.take(s.len() as int) =~= s);
    } else {
        let front = s.drop_last();
        short_lines_stay(front, limit);
        let n = classification::truncated(s, limit).len() as int;
        assert(front.take(n) =~= s.take(n));
        if n < front.len() {
            assert(front.take(n + 1) =~= s.take(n + 1));
        } else {
            assert(s.take(n + 1) =~= s);
        }
    }
}

/// A preview takes at most 256 bytes and shows nothing that controls or cannot be
/// seen. A word that fits is its own preview; of one that does not, as much is shown
/// as fits.
pub proof fn previews_show_what_fits(content: &str, preview: String)
    requires
        call_ensures(classification::preview_line, (content,), preview),
    ensures
        encode_utf8(preview@).len() <= 256,
        forall|i: int| 0 <= i < preview@.len() ==> !unseen(#[trigger] preview@[i]),
        word(content@) && encode_utf8(content@).len() <= 256 ==> preview@ == content@,
        word(content@) && encode_utf8(content@).len() > 256 ==> preview@.len() < content@.len()
            && preview@ == content@.take(preview@.len() as int) && encode_utf8(
            content@.take((preview@.len() + 1) as int),
        ).len() > 256,
{
    assert forall|i: int| 0 <= i < preview@.len() implies !unseen(#[trigger] preview@[i]) by {
        assert(preview@[i] == ' ' || classification::visible(preview@[i]));
    }
    if word(content@) {
        one_word_makes_a_line(Seq::empty(), content@);
        short_lines_stay(content@, 256);
        if encode_utf8(content@).len() > 256 && preview@.len() == content@.len() {
            assert(content@.take(content@.len() as int) =~= content@);
        }
    }
}

/// White space between two words becomes one space, and around them none.
pub proof fn white_space_becomes_one_space(
    content: &str,
    first: Seq<char>,
    gap: char,
    second: Seq<char>,
    preview: String,
)
    requires
        call_ensures(classification::preview_line, (content,), preview),
        word(first),
        word(second),
        text::white(gap),
        content@ == first + (seq![gap] + second),
        encode_utf8(first.push(' ') + second).len() <= 256,
    ensures
        preview@ == first.push(' ') + second,
{
    let rest = seq![gap] + second;
    words_are_shown_whole(first);
    assert(rest[0] == gap);
    words_end_at_white_space(first, rest);
    assert(content@[0] == first[0]);
    assert(!text::white(first[0]));
    assert(content@.take(first.len() as int) =~= first);
    assert(content@.skip(first.len() as int) =~= rest);
    assert(rest.drop_first() =~= second);
    one_word_makes_a_line(first, second);
    assert(classification::line_with(Seq::empty(), first) == first);
    assert(classification::one_line(first, rest) == classification::one_line(first, second));
    short_lines_stay(first.push(' ') + second, 256);
}

/// A character that cannot be seen leaves no trace in a preview.
pub proof fn unseen_characters_are_left_out(
    content: &str,
    first: Seq<char>,
    hidden: char,
    second: Seq<char>,
    preview: String,
)
    requires
        call_ensures(classification::preview_line, (content,), preview),
        word(first),
        word(second),
        unseen(hidden),
        !text::white(hidden),
        content@ == first + (seq![hidden] + second),
        encode_utf8(first + second).len() <= 256,
    ensures
        preview@ == first + second,
{
    let keep = |c: char| classification::visible(c);
    let s = content@;
    words_are_shown_whole(first);
    words_are_shown_whole(second);
    assert forall|i: int| 0 <= i < s.len() implies !text::white(#[trigger] s[i]) by {
        if i < first.len() {
            assert(s[i] == first[i]);
        } else if i > first.len() {
            assert(s[i] == second[i - first.len() - 1]);
        }
    }
    words_end_at_white_space(s, Seq::empty());
    assert(s + Seq::<char>::empty() =~= s);
    reveal(Seq::filter);
    Seq::filter_distributes_over_add(first, seq![hidden] + second, keep);
    Seq::filter_distributes_over_add(seq![hidden], second, keep);
    assert(!keep(hidden));
    assert(seq![hidden].drop_last() =~= Seq::<char>::empty());
    assert(seq![hidden].filter(keep) =~= Seq::<char>::empty());
    assert(classification::shown(s) =~= first + second);
    assert(s.take(s.len() as int) =~= s);
    let rest = s.skip(s.len() as int);
    assert(rest.len() == 0);
    assert(!text::white(s[0]));
    assert(classification::one_line(first + second, rest) == first + second);
    assert(classification::one_line(Seq::empty(), s) == first + second);
    short_lines_stay(first + second, 256);
}

/// Other names of a MIME type stand for the usual one, with any parameters; a type
/// without another name stands for itself.
pub proof fn types_have_one_name(mime: &str, result: String)
    requires
        call_ensures(content::canonical_mime, (mime,), result),
        bare(mime@),
    ensures
        mime@ == "image/x-png"@ ==> result@ == "image/png"@,
        mime@ == "image/jpg"@ || mime@ == "image/pjpeg"@ ==> result@ == "image/jpeg"@,
        mime@ == "application/x-gnome-copied-files"@ ==> result@ == "x-special/gnome-copied-files"@,
        mime@ == "text/x-uri"@ || mime@ == "text/x-uri-list"@ ==> result@ == "text/uri-list"@,
        mime@ == "text/plain"@ || mime@ == "image/png"@ || mime@ == "image/jpeg"@ || mime@
            == "text/uri-list"@ || mime@ == "x-special/gnome-copied-files"@ ==> result@ == mime@,
{
    bare_types_are_their_essence(mime@);
    reveal_strlit("image/x-png");
    reveal_strlit("image/jpg");
    reveal_strlit("image/pjpeg");
    reveal_strlit("application/x-gnome-copied-files");
    reveal_strlit("text/x-uri");
    reveal_strlit("text/x-uri-list");
    reveal_strlit("image/png");
    reveal_strlit("image/jpeg");
    reveal_strlit("text/uri-list");
    reveal_strlit("text/plain");
    reveal_strlit("x-special/gnome-copied-files");
    let m = mime@;
    if m == "image/jpg"@ || m == "image/pjpeg"@ {
        names_differ(m, "image/x-png"@, 6);
    } else if m == "application/x-gnome-copied-files"@ {
        names_differ(m, "image/x-png"@, 0);
        names_differ(m, "image/jpg"@, 0);
        names_differ(m, "image/pjpeg"@, 0);
    } else if m == "text/x-uri"@ || m == "text/x-uri-list"@ {
        names_differ(m, "image/x-png"@, 0);
        names_differ(m, "image/jpg"@, 0);
        names_differ(m, "image/pjpeg"@, 0);
        names_differ(m, "application/x-gnome-copied-files"@, 0);
    }
    if m == "text/plain"@ || m == "image/png"@ || m == "image/jpeg"@ || m
        == "text/uri-list"@ || m == "x-special/gnome-copied-files"@ {
        names_differ(m, "image/x-png"@, 6);
        if m == "image/png"@ {
            assert(m[6] == 'p');
            assert("image/jpg"@[6] == 'j');
            names_differ(m, "image/jpg"@, 6);
        } else {
            names_differ(m, "image/jpg"@, 0);
        }
        names_differ(m, "image/pjpeg"@, 0);
        names_differ(m, "application/x-gnome-copied-files"@, 0);
        if m == "text/plain"@ {
            names_differ(m, "text/x-uri"@, 5);
        } else {
            names_differ(m, "text/x-uri"@, 0);
        }
        names_differ(m, "text/x-uri-list"@, 0);
    }
}

/// The files of a list are its lines, in order, without empty ones and comments, and
/// at most a hundred; in the one format that says so, the first line says whether
/// they are to be moved, and names none.
pub proof fn lists_name_files_line_by_line(
    mime: &str,
    listed: &str,
    files: FileUris,
    kept: Seq<Seq<char>>,
)
    requires
        call_ensures(content::file_uris, (mime, listed), files),
        kept == text::lines_of(listed@).filter(
            |line: Seq<char>| line.len() > 0 && line[0] != '#',
        ),
    ensures
        files.uris@.len() <= 100,
        mime@ != "x-special/gnome-copied-files"@ ==> files.operation@ == "copy"@,
        mime@ != "x-special/gnome-copied-files"@ && kept.len() <= 100 ==> text::views(files.uris@)
            == kept,
        mime@ == "x-special/gnome-copied-files"@ && 0 < kept.len() <= 101 ==> text::views(
            files.uris@,
        ) == kept.skip(1) && (kept[0] == "cut"@ ==> files.operation@ == "cut"@) && (kept[0]
            != "cut"@ ==> files.operation@ == "copy"@),
{
    assert((|line: Seq<char>| line.len() > 0 && line[0] != '#') =~= (|line: Seq<char>|
        !content::skipped(line)));
    assert(kept == content::file_lines(listed@));
    assert(text::views(files.uris@).len() == files.uris@.len());
    if kept.len() > 0 {
        assert(kept.drop_first() =~= kept.skip(1));
    }
}

proof fn each_line_is_parsed(lines: Seq<Seq<char>>, operation: Seq<char>, i: int, k: int)
    ensures
        content::files_in(lines, operation).len() <= lines.len(),
        0 <= i < lines.len() && content::url_text(lines[i]) is Some ==> exists|j: int|
            0 <= j < content::files_in(lines, operation).len() && (#[trigger] content::files_in(
                lines,
                operation,
            )[j]).uri == content::url_text(lines[i])->0 && content::files_in(
                lines,
                operation,
            )[j].path == content::url_path(lines[i]),
        0 <= k < content::files_in(lines, operation).len() ==> content::files_in(
            lines,
            operation,
        )[k].operation == operation && exists|l: int|
            0 <= l < lines.len() && content::url_text(#[trigger] lines[l]) == Some(
                content::files_in(lines, operation)[k].uri,
            ) && content::url_path(lines[l]) == content::files_in(lines, operation)[k].path,
    decreases lines.len(),
{
    if lines.len() > 0 {
        let front = lines.drop_last();
        let all = content::files_in(lines, operation);
        let before = content::files_in(front, operation);
        each_line_is_parsed(front, operation, i, k);
        assert(lines.last() == lines[lines.len() - 1]);
        if 0 <= i < lines.len() && content::url_text(lines[i]) is Some {
            if i < front.len() {
                assert(front[i] == lines[i]);
                let j = choose|j: int|
                    0 <= j < before.len() && (#[trigger] before[j]).uri == content::url_text(
                        lines[i],
                    )->0 && before[j].path == content::url_path(lines[i]);
                assert(all[j] == before[j]);
            } else {
                assert(all[all.len() - 1].uri == content::url_text(lines[i])->0);
            }
        }
        if 0 <= k < all.len() {
            if k < before.len() {
                assert(all[k] == before[k]);
                let l = choose|l: int|
                    0 <= l < front.len() && content::url_text(#[trigger] front[l]) == Some(
                        before[k].uri,
                    ) && content::url_path(front[l]) == before[k].path;
                assert(lines[l] == front[l]);
            } else {
                assert(content::url_text(lines[lines.len() - 1]) == Some(all[k].uri));
            }
        }
    }
}

/// Every line that is an address names a file, under its normal form and with its
/// local path; nothing else names one, and text that is none names none.
pub proof fn addresses_name_files(
    mime: &str,
    bytes: &[u8],
    files: Vec<NamedFile>,
    listed: &str,
    uris: FileUris,
    i: int,
    k: int,
)
    requires
        call_ensures(content::parse_files, (mime, bytes), files),
        valid_utf8(bytes@) ==> listed@ == decode_utf8(bytes@),
        call_ensures(content::file_uris, (mime, listed), uris),
    ensures
        !valid_utf8(bytes@) ==> files@.len() == 0,
        files@.len() <= 100,
        valid_utf8(bytes@) && 0 <= i < uris.uris@.len() && content::url_text(uris.uris@[i]@) is Some
            ==> exists|j: int|
            0 <= j < files@.len() && (#[trigger] files@[j]).uri@ == content::url_text(
                uris.uris@[i]@,
            )->0,
        valid_utf8(bytes@) && 0 <= k < files@.len() ==> files@[k].operation@ == uris.operation@
            && exists|l: int|
            0 <= l < uris.uris@.len() && content::url_text((#[trigger] uris.uris@[l])@) == Some(
                files@[k].uri@,
            ) && content::url_path(uris.uris@[l]@) == files@[k]@.path,
{
    let views = content::file_views(files@);
    assert(views.len() == files@.len());
    if valid_utf8(bytes@) {
        let lines = text::views(uris.uris@);
        assert(lines.len() == uris.uris@.len());
        each_line_is_parsed(lines, uris.operation@, i, k);
        if 0 <= i < lines.len() && content::url_text(lines[i]) is Some {
            let j = choose|j: int|
                0 <= j < views.len() && (#[trigger] views[j]).uri == content::url_text(lines[i])->0
                    && views[j].path == content::url_path(lines[i]);
            assert(views[j] == files@[j]@);
            assert(files@[j].uri@ == content::url_text(uris.uris@[i]@)->0);
        }
        if 0 <= k < files@.len() {
            assert(views[k] == files@[k]@);
            let l = choose|l: int|
                0 <= l < lines.len() && content::url_text(#[trigger] lines[l]) == Some(
                    views[k].uri,
                ) && content::url_path(lines[l]) == views[k].path;
            assert(lines[l] == uris.uris@[l]@);
        }
    }
}

/// An entry that is an image is one, whatever its type says. One that names a single
/// file, itself an image and no link within the size limit, stands for that image.
/// Anything else is of its kind and no image. Every file that is named is shown, and
/// whether it exists is what was found out.
pub proof fn entries_mean_what_was_found(
    stored_mime: &str,
    findings: Findings,
    max_file_bytes: u64,
    probes: &[FileProbe],
    resolved: ResolvedContent,
    i: int,
)
    requires
        call_ensures(
            ResolvedContent::interpret,
            (stored_mime, findings, max_file_bytes, probes),
            resolved,
        ),
    ensures
        stored_mime@.len() > 0 ==> resolved.stored_mime@ == stored_mime@,
        stored_mime@.len() == 0 ==> resolved.stored_mime@ == "text/plain"@,
        findings.sniffed matches Some(mime) ==> {
            &&& resolved.kind == EntryKind::Image
            &&& resolved.image matches Some(ResolvedImage::Inline { mime: found, dimensions })
                && found@ == mime@ && (dimensions is Some <==> findings.size is Some) && (
            findings.size matches Some((width, height)) ==> dimensions == Some(
                ImageMetadata { width, height },
            ))
        },
        findings.sniffed is None ==> {
            let named = findings.named@.len() == 1 && findings.named@[0].path is Some
                && probes@.len() > 0 && probes@[0].regular && probes@[0].size <= max_file_bytes
                && probes@[0].image is Some;
            &&& named ==> resolved.kind == EntryKind::Image && (resolved.image matches Some(
                ResolvedImage::LocalFile(source),
            ) && source.path@ == findings.named@[0].path->0@ && source.mime@
                == probes@[0].image->0.mime@ && source.dimensions
                == probes@[0].image->0.dimensions)
            &&& !named ==> resolved.kind == findings.kind && resolved.image is None
        },
        resolved.files@.len() == findings.named@.len(),
        0 <= i < resolved.files@.len() ==> {
            let file = resolved.files@[i];
            &&& file.uri@ == findings.named@[i].uri@
            &&& file.display_name@ == findings.named@[i].display_name@
            &&& file.operation@ == findings.named@[i].operation@
            &&& file.exists <==> findings.named@[i].path is Some && i < probes@.len()
                && probes@[i].exists
        },
{
    let views = content::file_views(findings.named@);
    assert(views.len() == findings.named@.len());
    if 0 <= i < views.len() {
        assert(views[i] == findings.named@[i]@);
        assert(content::previews(
            resolved.files@[i],
            views[i],
            content::probed_exists(probes@, views, i),
        ));
    }
    if views.len() == 1 {
        assert(views[0] == findings.named@[0]@);
    }
}

/// An entry is shown and published as what it is: an image under its actual type,
/// the file that it names in its place, and anything else as it is stored.
pub proof fn entries_are_published_as_what_they_are(
    entry: ResolvedContent,
    publication: Publication,
    mime: &str,
    size: Option<ImageMetadata>,
)
    requires
        call_ensures(ResolvedContent::default_publication, (&entry,), publication),
        call_ensures(ResolvedContent::mime, (&entry,), mime),
        call_ensures(ResolvedContent::image_metadata, (&entry,), size),
    ensures
        entry.image matches Some(ResolvedImage::Inline { mime: actual, dimensions }) ==> mime@
            == actual@ && size == dimensions && (publication matches Publication::Bytes { mime: sent }
            && sent@ == actual@),
        entry.image matches Some(ResolvedImage::LocalFile(source)) ==> mime@ == entry.stored_mime@
            && size == Some(source.dimensions) && (publication matches Publication::File {
            mime: sent,
            path,
        } && sent@ == source.mime@ && path@ == source.path@),
        entry.image is None ==> mime@ == entry.stored_mime@ && size is None && (
        publication matches Publication::Bytes { mime: sent } && sent@ == entry.stored_mime@),
{
}

/// A thumbnail is made of an image only: of the file that the entry names, or of its
/// own content up to 32 MiB.
pub proof fn only_images_have_thumbnails(
    entry: ResolvedContent,
    kind: EntryKind,
    byte_size: u64,
    source: BackendResult<ThumbnailSource>,
)
    requires
        call_ensures(content::thumbnail_source, (&entry, kind, byte_size), source),
    ensures
        source is Ok <==> kind == EntryKind::Image && (match entry.image {
            Some(ResolvedImage::LocalFile(_)) => true,
            Some(ResolvedImage::Inline { .. }) => byte_size <= 32 * 1024 * 1024,
            None => false,
        }),
        source matches Ok(ThumbnailSource::File(path)) ==> (entry.image matches Some(
            ResolvedImage::LocalFile(image),
        ) && path@ == image.path@),
        source matches Ok(ThumbnailSource::Stored) ==> entry.image is Some
            && entry.image->0 is Inline,
{
}

/// A thumbnail has an edge of 32 to 1024 pixels, the one that was asked for within
/// those, and a name that says whose and which it is. It is kept exactly as long as
/// the entry is in the state that it was made of.
pub proof fn thumbnails_are_named_after_their_entry(
    id: &str,
    revision: u64,
    edge: u32,
    actual: u32,
    name: String,
    thumbnail: &str,
    written: String,
    size: String,
    valid: &[(String, u64)],
    kept: bool,
)
    requires
        call_ensures(content::thumbnail_edge, (edge,), actual),
        call_ensures(content::thumbnail_name, (id, revision, edge), name),
        call_ensures(text::format_u64, (revision,), written),
        call_ensures(text::format_u64, (actual as u64,), size),
        thumbnail@ == name@,
        call_ensures(content::keeps_thumbnail, (thumbnail, valid), kept),
    ensures
        32 <= edge <= 1024 ==> actual == edge,
        edge < 32 ==> actual == 32,
        edge > 1024 ==> actual == 1024,
        name@ == id@ + "-"@ + written@ + "-"@ + size@ + ".png"@,
        (exists|i: int|
            0 <= i < valid@.len() && (#[trigger] valid@[i]).0@ == id@ && valid@[i].1 == revision)
            ==> kept,
        valid@.len() == 0 ==> !kept,
{
    if exists|i: int|
        0 <= i < valid@.len() && (#[trigger] valid@[i]).0@ == id@ && valid@[i].1 == revision {
        let i = choose|i: int|
            0 <= i < valid@.len() && (#[trigger] valid@[i]).0@ == id@ && valid@[i].1 == revision;
        let prefix = content::thumbnail_prefix_of(id@, revision);
        assert(name@.take(prefix.len() as int) =~= prefix);
        assert(text::begins(
            thumbnail@,
            content::thumbnail_prefix_of(valid@[i].0@, valid@[i].1),
        ));
    }
}

/// A thumbnail is kept only where its name begins with an entry and its state.
pub proof fn other_thumbnails_are_deleted(name: &str, valid: &[(String, u64)], kept: bool)
    requires
        call_ensures(content::keeps_thumbnail, (name, valid), kept),
    ensures
        kept ==> exists|i: int|
            #![trigger valid@[i]]
            0 <= i < valid@.len() && valid@[i].0@.len() <= name@.len() && name@.take(
                valid@[i].0@.len() as int,
            ) == valid@[i].0@,
{
    if kept {
        let i = choose|i: int|
            0 <= i < valid@.len() && text::begins(
                name@,
                content::thumbnail_prefix_of((#[trigger] valid@[i]).0@, valid@[i].1),
            );
        let prefix = content::thumbnail_prefix_of(valid@[i].0@, valid@[i].1);
        assert(name@.take(valid@[i].0@.len() as int) =~= prefix.take(valid@[i].0@.len() as int));
        assert(prefix.take(valid@[i].0@.len() as int) =~= valid@[i].0@);
    }
}

/// An image file has the extension of its type.
pub proof fn images_have_the_extension_of_their_type(mime: &str, extension: &str)
    requires
        call_ensures(content::image_extension, (mime,), extension),
        !mime@.contains(';'),
    ensures
        mime@ == "image/png"@ ==> extension@ == "png"@,
        mime@ == "image/jpeg"@ ==> extension@ == "jpg"@,
        mime@ == "image/webp"@ ==> extension@ == "webp"@,
        mime@ == "image/gif"@ ==> extension@ == "gif"@,
        mime@ == "image/bmp"@ ==> extension@ == "bmp"@,
        mime@ == "image/tiff"@ ==> extension@ == "tiff"@,
        mime@ == "image/svg+xml"@ ==> extension@ == "svg"@,
{
    text::index_of_is_first(mime@, ';');
    assert(mime@.take(mime@.len() as int) =~= mime@);
    reveal_strlit("image/png");
    reveal_strlit("image/jpeg");
    reveal_strlit("image/webp");
    reveal_strlit("image/gif");
    reveal_strlit("image/bmp");
    reveal_strlit("image/tiff");
    reveal_strlit("image/svg+xml");
    let m = mime@;
    if m == "image/webp"@ {
        assert(m[6] != "image/jpeg"@[6]);
    } else if m == "image/bmp"@ {
        assert(m[6] != "image/gif"@[6]);
    } else if m == "image/tiff"@ {
        assert(m[6] != "image/jpeg"@[6]);
        assert(m[6] != "image/webp"@[6]);
    } else if m == "image/png"@ {
        assert(m[6] != "image/gif"@[6]);
        assert(m[6] != "image/bmp"@[6]);
    }
}

/// An edited image is accepted exactly where it is a regular file of at most the size
/// that is allowed and 32 MiB, and a PNG image that can be read to its end.
pub proof fn edits_must_be_whole_images(
    regular: bool,
    size: u64,
    mime: Option<&str>,
    decodes: bool,
    max_bytes: u64,
    valid: bool,
)
    requires
        call_ensures(content::accepts_edit, (regular, size, mime, decodes, max_bytes), valid),
    ensures
        valid <==> regular && decodes && size <= max_bytes && size <= 32 * 1024 * 1024 && (
        mime matches Some(mime) && mime@ == "image/png"@),
{
}

proof fn the_last_part_is_behind_the_last_slash(dir: Seq<u8>, name: Seq<u8>)
    requires
        forall|i: int| 0 <= i < name.len() ==> #[trigger] name[i] != 0x2f,
    ensures
        content::last_part(dir.push(0x2f) + name) == dir.len() + 1,
    decreases name.len(),
{
    let path = dir.push(0x2f) + name;
    if name.len() == 0 {
        assert(path.last() == 0x2f);
    } else {
        let front = name.drop_last();
        assert forall|i: int| 0 <= i < front.len() implies #[trigger] front[i] != 0x2f by {
            assert(front[i] == name[i]);
        }
        assert(path.last() == name[name.len() - 1]);
        the_last_part_is_behind_the_last_slash(dir, front);
        assert(path.drop_last() =~= dir.push(0x2f) + front);
    }
}

/// A file is named by what stands behind the last slash of its path; a path that ends
/// with a slash names what it names without it, and `..` names nothing.
pub proof fn files_are_named_by_the_end_of_their_path(
    dir: Seq<u8>,
    name: Seq<u8>,
    path: &[u8],
    found: Option<Vec<u8>>,
    folder: &[u8],
    folder_name: Option<Vec<u8>>,
)
    requires
        forall|i: int| 0 <= i < name.len() ==> #[trigger] name[i] != 0x2f,
        name.len() > 0,
        path@ == dir.push(0x2f) + name,
        folder@ == path@.push(0x2f),
        call_ensures(content::file_name, (path,), found),
        call_ensures(content::file_name, (folder,), folder_name),
    ensures
        name != seq![0x2eu8] && name != seq![0x2eu8, 0x2eu8] ==> (found matches Some(found)
            && found@ == name),
        name == seq![0x2eu8, 0x2eu8] ==> found is None,
        folder_name is Some <==> found is Some,
        folder_name is Some ==> folder_name->0@ == found->0@,
{
    the_last_part_is_behind_the_last_slash(dir, name);
    assert(path@.skip((dir.len() + 1) as int) =~= name);
    assert(folder@ =~= path@.push(0x2f) + Seq::<u8>::empty());
    the_last_part_is_behind_the_last_slash(path@, Seq::empty());
    assert(folder@.skip((path@.len() + 1) as int).len() == 0);
    assert(folder@.drop_last() =~= path@);
    assert(content::file_name_of(folder@) == content::file_name_of(path@));
}

/// The preview of an entry that is text is that of its text, as far as it is looked at.
pub proof fn entries_preview_their_text(
    bytes: &[u8],
    limit: usize,
    preview: String,
    shown: &str,
    line: String,
)
    requires
        call_ensures(classification::bounded_preview, (bytes, limit), preview),
        ({
            let head = if bytes@.len() <= limit {
                bytes@
            } else {
                bytes@.take(limit as int)
            };
            shown@ == classification::lossy_text(head)
        }),
        call_ensures(classification::preview_line, (shown,), line),
    ensures
        preview@ == line@,
{
}

/// What is found out about an image file is what a decoder within its limits says: edges
/// of at most 16 384 pixels, and 128 MiB of memory.
pub proof fn images_are_looked_at_within_limits(
    content: &[u8],
    image: Option<content::ProbedImage>,
    size: Option<(u32, u32)>,
    edge: u32,
    actual: u32,
    made: BackendResult<(Vec<u8>, u32, u32)>,
    regular: bool,
    length: u64,
    max_bytes: u64,
    valid: bool,
)
    requires
        call_ensures(content::probe_image, (content,), image),
        call_ensures(content::cached_dimensions, (content,), size),
        call_ensures(content::thumbnail_edge, (edge,), actual),
        call_ensures(content::thumbnail_of_image, (content, edge), made),
        call_ensures(content::valid_edited_image, (regular, length, content, max_bytes), valid),
    ensures
        size == content::image_size(content@, 16_384, 134_217_728),
        image is Some <==> content::sniffed_mime(content@) is Some && size is Some,
        image matches Some(image) ==> content::sniffed_mime(content@) == Some(image.mime@) && size
            == Some((image.dimensions.width, image.dimensions.height)),
        made is Ok <==> content::scaled_png(content@, 16_384, 134_217_728, actual) is Some,
        made matches Ok(made) ==> content::scaled_png(content@, 16_384, 134_217_728, actual) == Some(
            (made.0@, made.1, made.2),
        ) && made.1 <= actual && made.2 <= actual,
        valid <==> regular && length <= max_bytes && length <= 33_554_432 && content::sniffed_mime(
            content@,
        ) == Some("image/png"@) && content::image_decodes(content@, 16_384, 134_217_728),
{
}

/// The files that an entry names are looked for at the paths that their addresses stand
/// for, each at its own; the image file that it stands for is that of its one file.
pub proof fn named_files_are_looked_for(
    stored_mime: &str,
    content: &[u8],
    paths: Vec<Option<Vec<u8>>>,
    max_file_bytes: u64,
    probes: &[FileProbe],
    resolved: ResolvedContent,
    i: int,
)
    requires
        call_ensures(ResolvedContent::paths_to_probe, (stored_mime, content), paths),
        call_ensures(
            ResolvedContent::resolve,
            (stored_mime, content, max_file_bytes, probes),
            resolved,
        ),
        0 <= i < paths@.len(),
    ensures
        resolved.files@.len() == paths@.len(),
        resolved.files@[i].exists <==> paths@[i] is Some && i < probes@.len() && probes@[i].exists,
        content::sniffed_mime(content@) matches Some(mime) ==> resolved.kind == EntryKind::Image && (
        resolved.image matches Some(ResolvedImage::Inline { mime: actual, .. }) && actual@ == mime),
        content::sniffed_mime(content@) is None && paths@.len() == 1 && paths@[0] is Some
            && probes@.len() > 0 && probes@[0].regular && probes@[0].size <= max_file_bytes
            && probes@[0].image is Some ==> resolved.kind == EntryKind::Image && (
        resolved.image matches Some(ResolvedImage::LocalFile(source)) && source.path@
            == paths@[0]->0@),
        content::sniffed_mime(content@) is None && paths@.len() > 1 ==> resolved.image is None,
{
    let files = content::named_files(stored_mime@, content@);
    assert(content::previews(
        resolved.files@[i],
        files[i],
        content::probed_exists(probes@, files, i),
    ));
    assert(paths@[0] is Some ==> files[0].path == Some(paths@[0]->0@));
}

/// The image file that an entry names is the one that it stands for.
pub proof fn image_files_are_those_that_are_named(
    entry: ResolvedContent,
    source: Option<&content::LocalImageSource>,
)
    requires
        call_ensures(ResolvedContent::local_image, (&entry,), source),
    ensures
        source is Some <==> (entry.image matches Some(ResolvedImage::LocalFile(_))),
        source matches Some(source) ==> entry.image == Some(ResolvedImage::LocalFile(*source)),
{
}

} // verus!
