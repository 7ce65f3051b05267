//! What an entry is, and what is shown of it.
use crate::bytes as byte_strings;
use crate::model::EntryKind;
use crate::text;
use crate::utf8;
use vstd::prelude::*;
use vstd::string::*;
use vstd::utf8::*;

verus! {

/// The most bytes of an entry that are looked at.
pub const INSPECTION_LIMIT: usize = 65_536;

/// The most bytes that a preview takes.
pub const PREVIEW_LIMIT: usize = 256;

/// A MIME type without its parameters.
pub open spec fn essence(mime: Seq<char>) -> Seq<char> {
    text::trimmed(mime.take(text::index_of(mime, ';')))
}

/// A MIME type without its parameters.
pub fn mime_essence(mime: &str) -> (result: Vec<char>)
    ensures
        result@ == essence(mime@),
{
    let chars = text::chars_of(mime);
    let at = text::find_char(chars.as_slice(), ';');
    let head = text::slice_chars(chars.as_slice(), 0, at);
    assert(head@ =~= mime@.take(at as int));
    text::trim_chars(head.as_slice())
}

/// `s` is `name` up to ASCII case.
pub open spec fn named(s: Seq<char>, name: Seq<char>) -> bool {
    text::same_ignoring_case(s, name)
}

/// `s` begins with `prefix` up to ASCII case.
pub open spec fn begins_named(s: Seq<char>, prefix: Seq<char>) -> bool {
    prefix.len() <= s.len() && text::same_ignoring_case(s.take(prefix.len() as int), prefix)
}

fn is_named(chars: &[char], name: &str) -> (result: bool)
    ensures
        result == named(chars@, name@),
{
    text::eq_ignore_ascii_case(chars, text::chars_of(name).as_slice())
}

fn is_begun(chars: &[char], prefix: &str) -> (result: bool)
    ensures
        result == begins_named(chars@, prefix@),
{
    let p = text::chars_of(prefix);
    if p.len() > chars.len() {
        return false;
    }
    let head = text::slice_chars(chars, 0, p.len());
    assert(head@ =~= chars@.take(prefix@.len() as int));
    text::eq_ignore_ascii_case(head.as_slice(), p.as_slice())
}

/// The kind that a MIME type settles, whatever the content: none for text.
pub open spec fn authoritative(mime: Seq<char>) -> Option<EntryKind> {
    if named(mime, ""@) || named(mime, "text/plain"@) {
        None
    } else if named(mime, "text/uri-list"@) || named(mime, "x-special/gnome-copied-files"@) {
        Some(EntryKind::Files)
    } else if named(mime, "text/html"@) || named(mime, "application/xhtml+xml"@) {
        Some(EntryKind::Html)
    } else if named(mime, "application/json"@) || named(mime, "application/ld+json"@) {
        Some(EntryKind::Json)
    } else if begins_named(mime, "image/"@) {
        Some(EntryKind::Image)
    } else if begins_named(mime, "text/"@) {
        None
    } else {
        Some(EntryKind::Binary)
    }
}

fn authoritative_kind(mime: &[char]) -> (kind: Option<EntryKind>)
    ensures
        kind == authoritative(mime@),
{
    if is_named(mime, "") || is_named(mime, "text/plain") {
        None
    } else if is_named(mime, "text/uri-list") || is_named(mime, "x-special/gnome-copied-files") {
        Some(EntryKind::Files)
    } else if is_named(mime, "text/html") || is_named(mime, "application/xhtml+xml") {
        Some(EntryKind::Html)
    } else if is_named(mime, "application/json") || is_named(mime, "application/ld+json") {
        Some(EntryKind::Json)
    } else if is_begun(mime, "image/") {
        Some(EntryKind::Image)
    } else if is_begun(mime, "text/") {
        None
    } else {
        Some(EntryKind::Binary)
    }
}

/// `serde_json` reads `s` as a JSON value.
pub uninterp spec fn json_value(s: Seq<char>) -> bool;

/// `serde_json::from_str` into a `Value`: whether it succeeds is a function of
/// the text.
#[verifier::external_body]
fn is_json(s: &str) -> (result: bool)
    ensures
        result == json_value(s@),
{
    serde_json::from_str::<serde_json::Value>(s).is_ok()
}

/// No white space.
pub open spec fn unbroken(s: Seq<char>) -> bool {
    forall|i: int| 0 <= i < s.len() ==> !text::white(#[trigger] s[i])
}

/// A web address: `http://` or `https://` in any case, something after it, and
/// no white space.
pub open spec fn url(s: Seq<char>) -> bool {
    &&& unbroken(s)
    &&& (begins_named(s, "http://"@) && s.len() > "http://"@.len()) || (begins_named(
        s,
        "https://"@,
    ) && s.len() > "https://"@.len())
}

/// A JSON object or list, given whether the text is a JSON value at all.
pub open spec fn json(s: Seq<char>, value: bool) -> bool {
    &&& s.len() >= 2
    &&& (s[0] == '{' && s.last() == '}') || (s[0] == '[' && s.last() == ']')
    &&& value
}

/// A hexadecimal digit.
pub open spec fn hex_digit(c: char) -> bool {
    ('0' <= c <= '9') || ('a' <= c <= 'f') || ('A' <= c <= 'F')
}

/// A colour: `#` and 3, 4, 6 or 8 hexadecimal digits.
pub open spec fn color(s: Seq<char>) -> bool {
    &&& s.len() == 4 || s.len() == 5 || s.len() == 7 || s.len() == 9
    &&& s[0] == '#'
    &&& forall|i: int| 1 <= i < s.len() ==> hex_digit(#[trigger] s[i])
}

/// The kind of a text, given whether it is a JSON value.
pub open spec fn text_kind_of(value: Seq<char>, is_json: bool) -> EntryKind {
    if url(value) {
        EntryKind::Link
    } else if json(value, is_json) {
        EntryKind::Json
    } else if color(value) {
        EntryKind::Color
    } else {
        EntryKind::Text
    }
}

/// The kind that the content settles.
pub open spec fn semantic(bytes: Seq<u8>) -> EntryKind {
    if !valid_utf8(bytes) {
        EntryKind::Binary
    } else {
        let value = text::trimmed(decode_utf8(bytes));
        text_kind_of(value, json_value(value))
    }
}

fn looks_like_url(value: &[char]) -> (result: bool)
    ensures
        result == url(value@),
{
    let http: bool = is_begun(value, "http://") && value.len() > text::chars_of("http://").len();
    let https: bool = is_begun(value, "https://") && value.len() > text::chars_of("https://").len();
    if !http && !https {
        return false;
    }
    for i in 0..value.len()
        invariant
            forall|j: int| 0 <= j < i ==> !text::white(#[trigger] value@[j]),
    {
        if text::is_white(value[i]) {
            assert(text::white(value@[i as int]));
            return false;
        }
    }
    true
}

fn enclosed(value: &[char]) -> (result: bool)
    ensures
        result == json(value@, true),
{
    let n: usize = value.len();
    if n < 2 {
        return false;
    }
    let braced: bool = value[0] == '{' && value[n - 1] == '}';
    let listed: bool = value[0] == '[' && value[n - 1] == ']';
    braced || listed
}

fn looks_like_color(value: &[char]) -> (result: bool)
    ensures
        result == color(value@),
{
    let n: usize = value.len();
    if !(n == 4 || n == 5 || n == 7 || n == 9) || value[0] != '#' {
        return false;
    }
    for i in 1..n
        invariant
            n == value@.len(),
            forall|j: int| 1 <= j < i ==> hex_digit(#[trigger] value@[j]),
    {
        let c: char = value[i];
        if !(('0' <= c && c <= '9') || ('a' <= c && c <= 'f') || ('A' <= c && c <= 'F')) {
            assert(!hex_digit(value@[i as int]));
            return false;
        }
    }
    true
}

/// The kind of a text without white space around it, given whether it is a JSON
/// value.
pub fn text_kind(value: &[char], is_json: bool) -> (kind: EntryKind)
    ensures
        kind == text_kind_of(value@, is_json),
{
    if looks_like_url(value) {
        EntryKind::Link
    } else if is_json && enclosed(value) {
        EntryKind::Json
    } else if looks_like_color(value) {
        EntryKind::Color
    } else {
        EntryKind::Text
    }
}

fn semantic_text_kind(bytes: &[u8]) -> (kind: EntryKind)
    ensures
        kind == semantic(bytes@),
{
    let content = match text::text_of(bytes) {
        Some(content) => content,
        None => {
            return EntryKind::Binary;
        },
    };
    let value = text::trim_chars(text::chars_of(content).as_slice());
    let is_json: bool = enclosed(value.as_slice()) && is_json(
        text::string_of(value.as_slice()).as_str(),
    );
    text_kind(value.as_slice(), is_json)
}

/// What an entry of this MIME type and content is.
pub open spec fn kind_of(mime: Seq<char>, bytes: Seq<u8>) -> EntryKind {
    match authoritative(essence(mime)) {
        Some(kind) => kind,
        None => semantic(byte_strings::head_of(bytes, INSPECTION_LIMIT)),
    }
}

/// What an entry is. Its MIME type decides; only text is looked into.
pub fn classify(mime: &str, bytes: &[u8]) -> (kind: EntryKind)
    ensures
        kind == kind_of(mime@, bytes@),
{
    match authoritative_kind(mime_essence(mime).as_slice()) {
        Some(kind) => kind,
        None => {
            let head = byte_strings::first_bytes(bytes, INSPECTION_LIMIT);
            semantic_text_kind(head.as_slice())
        },
    }
}

/// What `String::from_utf8_lossy` gives for some bytes.
pub uninterp spec fn lossy_text(bytes: Seq<u8>) -> Seq<char>;

/// `String::from_utf8_lossy`: text from any bytes; from UTF-8 its own text.
#[verifier::external_body]
pub(crate) fn lossy(bytes: &[u8]) -> (result: String)
    ensures
        result@ == lossy_text(bytes@),
        valid_utf8(bytes@) ==> result@ == decode_utf8(bytes@),
{
    String::from_utf8_lossy(bytes).into_owned()
}

/// A control character.
pub open spec fn control(c: char) -> bool {
    c <= '\u{1f}' || ('\u{7f}' <= c <= '\u{9f}')
}

/// A character that shows nothing of itself, or changes how others are shown.
pub open spec fn deceptive(c: char) -> bool {
    ||| c == '\u{00ad}'
    ||| c == '\u{034f}'
    ||| c == '\u{061c}'
    ||| c == '\u{180e}'
    ||| '\u{200b}' <= c <= '\u{200f}'
    ||| '\u{202a}' <= c <= '\u{202e}'
    ||| '\u{2060}' <= c <= '\u{206f}'
    ||| c == '\u{feff}'
}

/// A character that a preview may show.
pub open spec fn visible(c: char) -> bool {
    !control(c) && !deceptive(c)
}

fn preview_character_is_visible(c: char) -> (result: bool)
    ensures
        result == visible(c),
{
    let control: bool = c <= '\u{1f}' || ('\u{7f}' <= c && c <= '\u{9f}');
    let deceptive: bool = c == '\u{00ad}' || c == '\u{034f}' || c == '\u{061c}' || c == '\u{180e}'
        || ('\u{200b}' <= c && c <= '\u{200f}') || ('\u{202a}' <= c && c <= '\u{202e}') || (
    '\u{2060}' <= c && c <= '\u{206f}') || c == '\u{feff}';
    !control && !deceptive
}

/// The visible characters of a text, in order.
pub open spec fn shown(s: Seq<char>) -> Seq<char> {
    s.filter(|c: char| visible(c))
}

/// Appends the visible part of a word to a line, with a space in between.
pub open spec fn line_with(line: Seq<char>, word: Seq<char>) -> Seq<char> {
    if shown(word).len() == 0 {
        line
    } else if line.len() == 0 {
        shown(word)
    } else {
        line.push(' ') + shown(word)
    }
}

/// The text after its first word: from the first white space on.
pub open spec fn word_end(s: Seq<char>) -> int
    decreases s.len(),
{
    if s.len() == 0 || text::white(s[0]) {
        0
    } else {
        1 + word_end(s.drop_first())
    }
}

/// `line` continued by the words of `s`, which white space parts.
pub open spec fn one_line(line: Seq<char>, s: Seq<char>) -> Seq<char>
    decreases s.len(),
    via one_line_decreases
{
    if s.len() == 0 {
        line
    } else if text::white(s[0]) {
        one_line(line, s.drop_first())
    } else {
        let end = word_end(s);
        one_line(line_with(line, s.take(end)), s.skip(end))
    }
}

#[via_fn]
proof fn one_line_decreases(line: Seq<char>, s: Seq<char>) {
    word_end_bounds(s);
}

proof fn word_end_bounds(s: Seq<char>)
    ensures
        0 <= word_end(s) <= s.len(),
        s.len() > 0 && !text::white(s[0]) ==> word_end(s) > 0,
        forall|i: int| 0 <= i < word_end(s) ==> !text::white(#[trigger] s[i]),
    decreases s.len(),
{
    if s.len() > 0 && !text::white(s[0]) {
        word_end_bounds(s.drop_first());
        assert forall|i: int| 0 <= i < word_end(s) implies !text::white(#[trigger] s[i]) by {
            if i > 0 {
                assert(s.drop_first()[i - 1] == s[i]);
            }
        }
    }
}

/// The longest beginning of `s` that takes at most `limit` bytes.
pub open spec fn truncated(s: Seq<char>, limit: usize) -> Seq<char>
    decreases s.len(),
{
    if s.len() == 0 || encode_utf8(s).len() <= limit {
        s
    } else {
        truncated(s.drop_last(), limit)
    }
}

/// The preview of an entry that holds this text.
pub open spec fn preview_of(s: Seq<char>) -> Seq<char> {
    truncated(one_line(Seq::empty(), s), PREVIEW_LIMIT)
}

/// Only spaces and visible characters that are no white space.
pub open spec fn plain_line(s: Seq<char>) -> bool {
    forall|i: int|
        0 <= i < s.len() ==> (#[trigger] s[i]) == ' ' || (visible(s[i]) && !text::white(s[i]))
}

proof fn shown_is_plain(s: Seq<char>)
    requires
        forall|i: int| 0 <= i < s.len() ==> !text::white(#[trigger] s[i]),
    ensures
        plain_line(shown(s)),
        shown(s).len() <= s.len(),
    decreases s.len(),
{
    reveal(Seq::filter);
    if s.len() > 0 {
        let rest = s.drop_last();
        assert forall|i: int| 0 <= i < rest.len() implies !text::white(#[trigger] rest[i]) by {
            assert(rest[i] == s[i]);
        }
        shown_is_plain(rest);
        let keep = |c: char| visible(c);
        assert(shown(s) == if keep(s.last()) {
            shown(rest).push(s.last())
        } else {
            shown(rest)
        });
    }
}

proof fn one_line_is_plain(line: Seq<char>, s: Seq<char>)
    requires
        plain_line(line),
    ensures
        plain_line(one_line(line, s)),
    decreases s.len(),
{
    word_end_bounds(s);
    if s.len() == 0 {
    } else if text::white(s[0]) {
        one_line_is_plain(line, s.drop_first());
    } else {
        let word = s.take(word_end(s));
        assert forall|i: int| 0 <= i < word.len() implies !text::white(#[trigger] word[i]) by {
            assert(word[i] == s[i]);
        }
        shown_is_plain(word);
        one_line_is_plain(line_with(line, word), s.skip(word_end(s)));
    }
}

proof fn truncated_is_prefix(s: Seq<char>, limit: usize)
    ensures
        truncated(s, limit).len() <= s.len(),
        truncated(s, limit) == s.take(truncated(s, limit).len() as int),
        encode_utf8(truncated(s, limit)).len() <= limit,
    decreases s.len(),
{
    if s.len() == 0 {
        assert(encode_utf8(s) =~= Seq::empty());
        assert(s.take(0) =~= s);
    } else if encode_utf8(s).len() <= limit {
        assert(s.take(s.len() as int) =~= s);
    } else {
        truncated_is_prefix(s.drop_last(), limit);
        let n = truncated(s, limit).len() as int;
        assert(s.drop_last().take(n) =~= s.take(n));
    }
}

/// What a preview shows is bounded, is one line, and holds nothing that
/// deceives.
pub proof fn previews_are_bounded_and_plain(s: Seq<char>)
    ensures
        encode_utf8(preview_of(s)).len() <= PREVIEW_LIMIT,
        plain_line(preview_of(s)),
{
    one_line_is_plain(Seq::empty(), s);
    truncated_is_prefix(one_line(Seq::empty(), s), PREVIEW_LIMIT);
}

/// How many bytes a character takes.
fn utf8_len(c: char) -> (bytes: usize)
    ensures
        bytes == encode_scalar(c as u32).len(),
        1 <= bytes <= 4,
{
    let code: u32 = c as u32;
    if code <= 0x7f {
        1
    } else if code <= 0x7ff {
        2
    } else if code <= 0xffff {
        3
    } else {
        4
    }
}

proof fn encoded_length_grows(s: Seq<char>, n: int)
    requires
        0 <= n < s.len(),
    ensures
        encode_utf8(s.take(n + 1)).len() == encode_utf8(s.take(n)).len() + encode_scalar(
            s[n] as u32,
        ).len(),
{
    let one = seq![s[n]];
    assert(s.take(n + 1) =~= s.take(n) + one);
    utf8::encode_concat(s.take(n), one);
    reveal_with_fuel(encode_utf8, 2);
    assert(encode_utf8(one) =~= encode_scalar(s[n] as u32));
}

proof fn truncated_at(s: Seq<char>, m: int, n: int, limit: usize)
    requires
        0 <= n <= m <= s.len(),
        encode_utf8(s.take(n)).len() <= limit,
        n < s.len() ==> encode_utf8(s.take(n + 1)).len() > limit,
    ensures
        truncated(s.take(m), limit) == s.take(n),
    decreases m,
{
    if m == n {
    } else {
        longer_takes_more(s, n + 1, m);
        assert(s.take(m).drop_last() =~= s.take(m - 1));
        truncated_at(s, m - 1, n, limit);
    }
}

proof fn longer_takes_more(s: Seq<char>, a: int, b: int)
    requires
        0 <= a <= b <= s.len(),
    ensures
        encode_utf8(s.take(a)).len() <= encode_utf8(s.take(b)).len(),
    decreases b,
{
    if a < b {
        longer_takes_more(s, a, b - 1);
        encoded_length_grows(s, b - 1);
    }
}

fn truncate_utf8(value: &[char], limit: usize) -> (result: Vec<char>)
    ensures
        result@ == truncated(value@, limit),
{
    let mut used: usize = 0;
    let mut n: usize = 0;
    assert(encode_utf8(value@.take(0)) =~= Seq::empty());
    while n < value.len()
        invariant
            n <= value@.len(),
            used == encode_utf8(value@.take(n as int)).len(),
            used <= limit,
        decreases value@.len() - n,
    {
        let width: usize = utf8_len(value[n]);
        proof {
            encoded_length_grows(value@, n as int);
        }
        if width > limit - used {
            proof {
                truncated_at(value@, value@.len() as int, n as int, limit);
                assert(value@.take(value@.len() as int) =~= value@);
            }
            let result = text::slice_chars(value, 0, n);
            assert(result@ =~= value@.take(n as int));
            return result;
        }
        used = used + width;
        n = n + 1;
    }
    assert(value@.take(n as int) =~= value@);
    text::slice_chars(value, 0, value.len())
}

/// The text of an entry on one line of at most 256 bytes, without characters
/// that show nothing or deceive. Of the entry, `max_bytes` are looked at.
pub fn bounded_preview(bytes: &[u8], max_bytes: usize) -> (preview: String)
    ensures
        preview@ == preview_of(lossy_text(byte_strings::head_of(bytes@, max_bytes))),
        valid_utf8(byte_strings::head_of(bytes@, max_bytes)) ==> preview@ == preview_of(
            decode_utf8(byte_strings::head_of(bytes@, max_bytes)),
        ),
        encode_utf8(preview@).len() <= PREVIEW_LIMIT,
        plain_line(preview@),
{
    let head = byte_strings::first_bytes(bytes, max_bytes);
    let content = lossy(head.as_slice());
    preview_line(content.as_str())
}

/// The preview of a text.
pub fn preview_line(content: &str) -> (preview: String)
    ensures
        preview@ == preview_of(content@),
        encode_utf8(preview@).len() <= PREVIEW_LIMIT,
        plain_line(preview@),
{
    let chars = text::chars_of(content);
    let mut line: Vec<char> = Vec::new();
    let mut at: usize = 0;
    assert(chars@.skip(0) =~= chars@);
    while at < chars.len()
        invariant
            at <= chars@.len(),
            one_line(Seq::empty(), chars@) == one_line(line@, chars@.skip(at as int)),
        decreases chars@.len() - at,
    {
        let ghost rest = chars@.skip(at as int);
        proof {
            word_end_bounds(rest);
        }
        if text::is_white(chars[at]) {
            assert(rest.drop_first() =~= chars@.skip(at + 1));
            at = at + 1;
        } else {
            let end = find_word_end(chars.as_slice(), at);
            let ghost word = rest.take(end - at);
            let ghost before = line@;
            let visible = visible_part(chars.as_slice(), at, end);
            assert(chars@.subrange(at as int, end as int) =~= word);
            if visible.len() > 0 {
                if line.len() > 0 {
                    line.push(' ');
                }
                let ghost spaced = line@;
                for k in 0..visible.len()
                    invariant
                        line@ == spaced + visible@.take(k as int),
                {
                    line.push(visible[k]);
                    assert(visible@.take(k + 1) =~= visible@.take(k as int).push(
                        visible@[k as int],
                    ));
                }
                assert(visible@.take(visible@.len() as int) =~= visible@);
                assert(before.len() == 0 ==> spaced + visible@ =~= visible@);
            }
            assert(line@ =~= line_with(before, word));
            assert(rest.skip(end - at) =~= chars@.skip(end as int));
            at = end;
        }
    }
    proof {
        previews_are_bounded_and_plain(content@);
    }
    text::string_of(truncate_utf8(line.as_slice(), PREVIEW_LIMIT).as_slice())
}

fn find_word_end(chars: &[char], from: usize) -> (end: usize)
    requires
        from < chars@.len(),
    ensures
        end == from + word_end(chars@.skip(from as int)),
        from <= end <= chars@.len(),
        !text::white(chars@[from as int]) ==> from < end,
{
    let mut end: usize = from;
    proof {
        word_end_bounds(chars@.skip(from as int));
    }
    while end < chars.len() && !text::is_white(chars[end])
        invariant
            from <= end <= chars@.len(),
            from + word_end(chars@.skip(from as int)) == end + word_end(chars@.skip(end as int)),
        decreases chars@.len() - end,
    {
        assert(chars@.skip(end as int).drop_first() =~= chars@.skip(end + 1));
        end = end + 1;
    }
    end
}

fn visible_part(chars: &[char], from: usize, to: usize) -> (result: Vec<char>)
    requires
        from <= to <= chars@.len(),
    ensures
        result@ == shown(chars@.subrange(from as int, to as int)),
{
    let ghost keep = |c: char| visible(c);
    let ghost word = chars@.subrange(from as int, to as int);
    let mut result: Vec<char> = Vec::new();
    proof {
        reveal(Seq::filter);
        assert(word.take(0).filter(keep) =~= Seq::empty());
    }
    for i in from..to
        invariant
            from <= to <= chars@.len(),
            word == chars@.subrange(from as int, to as int),
            keep == (|c: char| visible(c)),
            result@ == word.take(i - from).filter(keep),
    {
        proof {
            reveal(Seq::filter);
            let k = i - from;
            assert(word.take(k + 1).drop_last() =~= word.take(k));
            assert(word.take(k + 1).last() == chars@[i as int]);
        }
        if preview_character_is_visible(chars[i]) {
            result.push(chars[i]);
        }
    }
    assert(word.take(to - from) =~= word);
    result
}

} // verus!
