//! What reading and writing text and bytes does.
use crate::backend::BackendResult;
use crate::bytes;
use crate::digest;
use crate::ringboard::identity;
use crate::ringboard::identity::{Inspection, RingFileState};
use crate::stream;
use crate::stream::{Read, ReadFailed};
use crate::text;
use vstd::bytes::*;
use vstd::prelude::*;
use vstd::string::*;
use vstd::utf8::*;

verus! {

/// A character that Unicode counts as white space, by its number.
pub open spec fn is_space(c: char) -> bool {
    let n = c as int;
    ||| 0x09 <= n <= 0x0d
    ||| n == 0x20
    ||| n == 0x85
    ||| n == 0xa0
    ||| n == 0x1680
    ||| 0x2000 <= n <= 0x200a
    ||| n == 0x2028 || n == 0x2029 || n == 0x202f || n == 0x205f || n == 0x3000
}

/// White space is told by the number of a character.
pub proof fn white_space_is_what_unicode_says(c: char, result: bool)
    requires
        call_ensures(text::is_white, (c,), result),
    ensures
        result <==> is_space(c),
{
}

proof fn trimming_the_start(s: Seq<char>)
    ensures
        ({
            let rest = text::trim_start(s);
            let from = s.len() - rest.len();
            &&& 0 <= from <= s.len()
            &&& rest == s.skip(from)
            &&& forall|i: int| 0 <= i < from ==> is_space(#[trigger] s[i])
            &&& rest.len() > 0 ==> !is_space(rest[0])
        }),
    decreases s.len(),
{
    if s.len() > 0 && text::white(s[0]) {
        trimming_the_start(s.drop_first());
        let rest = text::trim_start(s);
        let from = s.len() - rest.len();
        let tail = s.drop_first();
        assert(rest == text::trim_start(tail));
        assert(tail.skip(from - 1) =~= s.skip(from));
        assert forall|i: int| 0 <= i < from implies is_space(#[trigger] s[i]) by {
            if i > 0 {
                assert(is_space(tail[i - 1]));
                assert(tail[i - 1] == s[i]);
            }
        }
    } else {
        assert(s.skip(0) =~= s);
    }
}

proof fn trimming_the_end(s: Seq<char>)
    ensures
        ({
            let rest = text::trim_end(s);
            &&& rest.len() <= s.len()
            &&& rest == s.take(rest.len() as int)
            &&& forall|i: int| rest.len() <= i < s.len() ==> is_space(#[trigger] s[i])
            &&& rest.len() > 0 ==> !is_space(rest.last())
        }),
    decreases s.len(),
{
    if s.len() > 0 && text::white(s.last()) {
        trimming_the_end(s.drop_last());
        let rest = text::trim_end(s);
        let head = s.drop_last();
        assert(rest == text::trim_end(head));
        assert(head.take(rest.len() as int) =~= s.take(rest.len() as int));
        assert forall|i: int| rest.len() <= i < s.len() implies is_space(#[trigger] s[i]) by {
            if i < s.len() - 1 {
                assert(is_space(head[i]));
                assert(head[i] == s[i]);
            }
        }
    } else {
        assert(s.take(s.len() as int) =~= s);
    }
}

/// Trimming takes white space away at either end, all of it, and nothing else.
pub proof fn trimming_takes_white_space_only(s: &str, result: String)
    requires
        call_ensures(text::trim, (s,), result),
    ensures
        exists|from: int|
            0 <= from <= s@.len() - result@.len() && result@ == #[trigger] s@.subrange(
                from,
                from + result@.len(),
            ) && (forall|i: int| 0 <= i < from ==> is_space(#[trigger] s@[i])) && (forall|i: int|
                from + result@.len() <= i < s@.len() ==> is_space(#[trigger] s@[i])),
        result@.len() > 0 ==> !is_space(result@[0]) && !is_space(result@.last()),
{
    let rest = text::trim_start(s@);
    trimming_the_start(s@);
    trimming_the_end(rest);
    let from = s@.len() - rest.len();
    assert(result@ =~= s@.subrange(from, from + result@.len()));
    assert forall|i: int| from + result@.len() <= i < s@.len() implies is_space(
        #[trigger] s@[i],
    ) by {
        assert(rest[i - from] == s@[i]);
    }
    if result@.len() > 0 {
        assert(result@[0] == rest[0]);
    }
}

/// A text holds another exactly where that stands in it somewhere, and begins with
/// it where that is at its beginning.
pub proof fn holding_is_standing_in(whole: &str, part: &str, held: bool, begun: bool)
    requires
        call_ensures(text::contains_text, (whole, part), held),
        call_ensures(text::starts_with, (whole, part), begun),
    ensures
        held <==> exists|at: int|
            0 <= at <= whole@.len() - part@.len() && #[trigger] whole@.subrange(
                at,
                at + part@.len(),
            ) == part@,
        begun <==> part@.len() <= whole@.len() && whole@.subrange(0, part@.len() as int) == part@,
{
    if held {
        let at = choose|at: int| text::begins_at(whole@, part@, at);
        assert(whole@.skip(at).take(part@.len() as int) =~= whole@.subrange(at, at + part@.len()));
    }
    if exists|at: int|
        0 <= at <= whole@.len() - part@.len() && #[trigger] whole@.subrange(at, at + part@.len())
            == part@ {
        let at = choose|at: int|
            0 <= at <= whole@.len() - part@.len() && #[trigger] whole@.subrange(
                at,
                at + part@.len(),
            ) == part@;
        assert(whole@.skip(at).take(part@.len() as int) =~= whole@.subrange(at, at + part@.len()));
        assert(text::begins_at(whole@, part@, at));
    }
    if part@.len() <= whole@.len() {
        assert(whole@.take(part@.len() as int) =~= whole@.subrange(0, part@.len() as int));
    }
}

/// A text parts at the first of a character: what stands before it lacks it, and
/// the two sides with it in between are the text.
pub proof fn parts_make_the_whole(
    chars: &[char],
    c: char,
    parts: Option<(Vec<char>, Vec<char>)>,
)
    requires
        call_ensures(text::split_once, (chars, c), parts),
    ensures
        parts is Some <==> exists|i: int| 0 <= i < chars@.len() && #[trigger] chars@[i] == c,
        parts matches Some((a, b)) ==> chars@ == a@.push(c) + b@ && forall|i: int|
            0 <= i < a@.len() ==> #[trigger] a@[i] != c,
{
    text::index_of_is_first(chars@, c);
    if let Some((a, b)) = parts {
        let at = text::index_of(chars@, c);
        assert(chars@ =~= a@.push(c) + b@);
        assert forall|i: int| 0 <= i < a@.len() implies #[trigger] a@[i] != c by {
            assert(a@[i] == chars@[i]);
        }
    }
}

/// A text without line feeds is one line; a text up to a line feed is a line before
/// those that follow, without the carriage return at its end.
pub proof fn lines_end_at_line_feeds(
    first: Seq<char>,
    rest: &[char],
    whole: &[char],
    lines: Vec<Vec<char>>,
    others: Vec<Vec<char>>,
    single: &[char],
    alone: Vec<Vec<char>>,
)
    requires
        forall|i: int| 0 <= i < first.len() ==> #[trigger] first[i] != '\n',
        whole@ == first.push('\n') + rest@,
        single@ == first,
        first.len() > 0,
        call_ensures(text::lines, (whole,), lines),
        call_ensures(text::lines, (rest,), others),
        call_ensures(text::lines, (single,), alone),
    ensures
        alone@.len() == 1 && alone@[0]@ == first,
        lines@.len() == others@.len() + 1,
        first.last() != '\r' ==> lines@[0]@ == first,
        first.last() == '\r' ==> lines@[0]@ == first.drop_last(),
        forall|i: int| 0 <= i < others@.len() ==> lines@[i + 1]@ == #[trigger] others@[i]@,
{
    assert(!first.contains('\n'));
    text::splits_at(first, '\n', rest@);
    text::index_of_is_first(whole@, '\n');
    text::index_of_is_first(first, '\n');
    let at = text::index_of(whole@, '\n');
    assert(whole@[first.len() as int] == '\n');
    if at < first.len() {
        assert(first[at] == whole@[at]);
    }
    assert(whole@.take(at) =~= first);
    assert(whole@.skip(at + 1) =~= rest@);
    assert(text::lines_of(whole@) == seq![text::without_return(first)] + text::lines_of(rest@));
    assert(text::views(lines@).len() == lines@.len());
    assert(text::views(others@).len() == others@.len());
    assert(text::views(alone@).len() == alone@.len());
    assert(text::views(lines@)[0] == lines@[0]@);
    assert(text::views(alone@)[0] == alone@[0]@);
    assert forall|i: int| 0 <= i < others@.len() implies lines@[i + 1]@
        == #[trigger] others@[i]@ by {
        assert(text::views(lines@)[i + 1] == lines@[i + 1]@);
        assert(text::views(others@)[i] == others@[i]@);
    }
}

/// A number that was written is read back, and is written in digits without a zero
/// in front of others.
pub proof fn numbers_are_read_back(n: u64, written: String, chars: &[char], read: Option<u64>)
    requires
        call_ensures(text::format_u64, (n,), written),
        chars@ == written@,
        call_ensures(text::parse_digits, (chars,), read),
    ensures
        read == Some(n),
        forall|i: int| 0 <= i < written@.len() ==> '0' <= #[trigger] written@[i] <= '9',
        n < 10 ==> written@ == seq![(48 + n) as char],
        n > 0 ==> written@[0] != '0',
{
    text::numeral_of_decimal(n as nat);
    text::decimal_is_digits(n as nat);
    first_digits_count(n as nat);
}

proof fn first_digits_count(n: nat)
    ensures
        text::decimal(n).len() > 0,
        n > 0 ==> text::decimal(n)[0] != '0',
    decreases n,
{
    if n >= 10 {
        first_digits_count(n / 10);
    }
}

/// One more digit makes a number ten times as large, and adds its own value; what
/// is no digit makes it none.
pub proof fn digits_count_by_ten(
    head: &[char],
    digit: char,
    whole: &[char],
    before: Option<u64>,
    after: Option<u64>,
)
    requires
        head@.len() > 0,
        whole@ == head@.push(digit),
        call_ensures(text::parse_digits, (head,), before),
        call_ensures(text::parse_digits, (whole,), after),
    ensures
        !('0' <= digit <= '9') ==> after is None,
        '0' <= digit <= '9' && before is Some && before->0 * 10 + (digit as int - 48) <= u64::MAX
            ==> after is Some && after->0 == before->0 * 10 + (digit as int - 48),
        after is Some ==> before is Some,
{
    assert(whole@.drop_last() =~= head@);
}

/// A number with a sign that was written is read back.
pub proof fn signed_numbers_are_read_back(
    n: i32,
    written: String,
    chars: &[char],
    read: Option<i32>,
)
    requires
        call_ensures(text::format_i32, (n,), written),
        chars@ == written@,
        call_ensures(text::parse_i32, (chars,), read),
    ensures
        read == Some(n),
        n < 0 <==> written@[0] == '-',
{
    text::signed_of_decimal(n as int);
    if n >= 0 {
        text::decimal_is_digits(n as nat);
    }
}

/// Two texts are the same up to ASCII case exactly where each two characters are
/// the same, or the capital and the small form of one letter.
pub proof fn case_matters_only_for_letters(a: &[char], b: &[char], same: bool)
    requires
        call_ensures(text::eq_ignore_ascii_case, (a, b), same),
    ensures
        same <==> a@.len() == b@.len() && forall|i: int|
            0 <= i < a@.len() ==> #[trigger] a@[i] == b@[i] || ('A' <= a@[i] <= 'Z' && b@[i] as u32
                == a@[i] as u32 + 32) || ('A' <= b@[i] <= 'Z' && a@[i] as u32 == b@[i] as u32 + 32),
{
    if a@.len() == b@.len() {
        assert forall|i: int| 0 <= i < a@.len() implies (text::ascii_lower(#[trigger] a@[i])
            == text::ascii_lower(b@[i]) <==> a@[i] == b@[i] || ('A' <= a@[i] <= 'Z'
            && b@[i] as u32 == a@[i] as u32 + 32) || ('A' <= b@[i] <= 'Z' && a@[i] as u32
            == b@[i] as u32 + 32)) by {}
    }
}

/// Texts and byte strings are the same exactly where they hold the same.
pub proof fn the_same_is_the_same(
    a: &str,
    b: &str,
    texts: bool,
    x: &[u8],
    y: &[u8],
    bytes: bool,
)
    requires
        call_ensures(text::same, (a, b), texts),
        call_ensures(text::same_bytes, (x, y), bytes),
    ensures
        texts <==> a@ == b@,
        bytes <==> x@ == y@,
{
}

/// What one read gave stands before what the others give; an interrupted one gives
/// nothing, a failure fails all, and the input ends where a read gives no bytes.
pub proof fn readings_follow_each_other(
    first: Read,
    rest: &[Read],
    whole: &[Read],
    others: Result<Vec<u8>, ReadFailed>,
    input: Result<Vec<u8>, ReadFailed>,
)
    requires
        whole@ == seq![first] + rest@,
        call_ensures(stream::read_all, (rest,), others),
        call_ensures(stream::read_all, (whole,), input),
    ensures
        first is Failed ==> input is Err,
        first is Interrupted ==> (input is Ok <==> others is Ok),
        first is Interrupted && input is Ok ==> input->Ok_0@ == others->Ok_0@,
        first matches Read::Data(chunk) ==> {
            &&& chunk@.len() == 0 ==> (input matches Ok(bytes) && bytes@.len() == 0)
            &&& chunk@.len() > 0 ==> (input is Ok <==> others is Ok)
            &&& chunk@.len() > 0 && input is Ok ==> input->Ok_0@ == chunk@ + others->Ok_0@
        },
{
    assert(whole@.drop_first() =~= rest@);
    assert(whole@[0] == first);
}

/// Nothing is read where there is nothing to read.
pub proof fn an_empty_input_is_empty(reads: &[Read], input: Result<Vec<u8>, ReadFailed>)
    requires
        reads@.len() == 0,
        call_ensures(stream::read_all, (reads,), input),
    ensures
        input matches Ok(bytes) && bytes@.len() == 0,
{
}

/// The first bytes are as many as asked for, or all, and stand where they stood.
pub proof fn first_bytes_are_the_first(bytes: &[u8], limit: usize, result: Vec<u8>)
    requires
        call_ensures(bytes::first_bytes, (bytes, limit), result),
    ensures
        result@.len() <= limit,
        bytes@.len() <= limit ==> result@ == bytes@,
        bytes@.len() > limit ==> result@.len() == limit,
        forall|i: int| 0 <= i < result@.len() ==> #[trigger] result@[i] == bytes@[i],
{
}

/// The value of a hexadecimal digit in lower case.
pub open spec fn hex_value(c: char) -> int {
    if '0' <= c <= '9' {
        c as int - '0' as int
    } else if 'a' <= c <= 'f' {
        c as int - 'a' as int + 10
    } else {
        -1
    }
}

/// An identifier says the first half of a fingerprint in hexadecimal, and the
/// revision is what follows it, small enough for any reader of JSON and never 0.
pub proof fn identifiers_and_revisions_say_the_fingerprint(
    fingerprint: [u8; 32],
    id: String,
    revision: u64,
    k: int,
)
    requires
        call_ensures(identity::opaque_id, (&fingerprint,), id),
        call_ensures(identity::entry_revision, (&fingerprint,), revision),
        0 <= k < 16,
    ensures
        id@.len() == 38,
        id@.take(6) == "entry-"@,
        hex_value(id@[6 + 2 * k]) * 16 + hex_value(id@[7 + 2 * k]) == fingerprint@[k],
        0 < revision < 9_007_199_254_740_992,
        spec_u64_from_le_bytes(fingerprint@.subrange(16, 24)) % 9_007_199_254_740_992 != 0
            ==> revision == spec_u64_from_le_bytes(fingerprint@.subrange(16, 24))
            % 9_007_199_254_740_992,
{
    reveal_strlit("entry-");
    let half = fingerprint@.take(16);
    let digits = digest::hex_of(half);
    assert(half.len() == 16);
    assert(digits.len() == 32);
    assert(id@.take(6) =~= "entry-"@);
    assert(id@[6 + 2 * k] == digits[2 * k]);
    assert(id@[7 + 2 * k] == digits[2 * k + 1]);
    assert((2 * k) / 2 == k);
    assert((2 * k + 1) / 2 == k);
    assert((2 * k) % 2 == 0);
    assert((2 * k + 1) % 2 == 1);
    assert(half[k] == fingerprint@[k]);
}

/// An entry is inspected whole: its beginning of at most 64 KiB is kept, its digest
/// covers all of it, and one of another size than was said is refused.
pub proof fn entries_are_inspected_whole(
    reads: &[Read],
    size: u64,
    inspection: BackendResult<Inspection>,
    input: Result<Vec<u8>, ReadFailed>,
    whole: &[u8],
    digest: [u8; 32],
)
    requires
        call_ensures(identity::inspect_entry, (reads, size), inspection),
        call_ensures(stream::read_all, (reads,), input),
        input matches Ok(content) ==> whole@ == content@,
        call_ensures(identity::content_digest, (whole,), digest),
    ensures
        inspection is Ok <==> input is Ok && whole@.len() == size,
        inspection matches Ok(found) ==> {
            &&& found.digest@ == digest@
            &&& whole@.len() <= 65_536 ==> found.preview@ == whole@
            &&& whole@.len() > 65_536 ==> found.preview@ == whole@.take(65_536)
        },
        inspection matches Err(error) ==> if input is Ok {
            error.kind is Stale
        } else {
            error.kind is InvalidData
        },
{
}

proof fn signed_words_differ(a: i64, b: i64)
    requires
        a as u64 == b as u64,
    ensures
        a == b,
{
    assert(a as u64 == b as u64 ==> a == b) by (bit_vector);
}

proof fn words_tell_the_number(a: u64, b: u64)
    requires
        spec_u64_to_le_bytes(a) == spec_u64_to_le_bytes(b),
    ensures
        a == b,
{
    lemma_auto_spec_u64_to_from_le_bytes();
    assert(spec_u64_from_le_bytes(spec_u64_to_le_bytes(a)) == a);
    assert(spec_u64_from_le_bytes(spec_u64_to_le_bytes(b)) == b);
}

proof fn file_states_are_told_apart(a: RingFileState, b: RingFileState)
    requires
        a.bytes() == b.bytes(),
    ensures
        a == b,
{
    lemma_auto_spec_u64_to_from_le_bytes();
    let x = a.bytes();
    let y = b.bytes();
    assert(x.subrange(0, 8) =~= spec_u64_to_le_bytes(a.device));
    assert(y.subrange(0, 8) =~= spec_u64_to_le_bytes(b.device));
    assert(x.subrange(8, 16) =~= spec_u64_to_le_bytes(a.inode));
    assert(y.subrange(8, 16) =~= spec_u64_to_le_bytes(b.inode));
    assert(x.subrange(16, 24) =~= spec_u64_to_le_bytes(a.size));
    assert(y.subrange(16, 24) =~= spec_u64_to_le_bytes(b.size));
    assert(x.subrange(24, 32) =~= spec_u64_to_le_bytes(a.modified_seconds as u64));
    assert(y.subrange(24, 32) =~= spec_u64_to_le_bytes(b.modified_seconds as u64));
    assert(x.subrange(32, 40) =~= spec_u64_to_le_bytes(a.modified_nanoseconds as u64));
    assert(y.subrange(32, 40) =~= spec_u64_to_le_bytes(b.modified_nanoseconds as u64));
    assert(x.subrange(40, 48) =~= spec_u64_to_le_bytes(a.changed_seconds as u64));
    assert(y.subrange(40, 48) =~= spec_u64_to_le_bytes(b.changed_seconds as u64));
    assert(x.subrange(48, 56) =~= spec_u64_to_le_bytes(a.changed_nanoseconds as u64));
    assert(y.subrange(48, 56) =~= spec_u64_to_le_bytes(b.changed_nanoseconds as u64));
    words_tell_the_number(a.device, b.device);
    words_tell_the_number(a.inode, b.inode);
    words_tell_the_number(a.size, b.size);
    words_tell_the_number(a.modified_seconds as u64, b.modified_seconds as u64);
    words_tell_the_number(a.modified_nanoseconds as u64, b.modified_nanoseconds as u64);
    words_tell_the_number(a.changed_seconds as u64, b.changed_seconds as u64);
    words_tell_the_number(a.changed_nanoseconds as u64, b.changed_nanoseconds as u64);
    signed_words_differ(a.modified_seconds, b.modified_seconds);
    signed_words_differ(a.modified_nanoseconds, b.modified_nanoseconds);
    signed_words_differ(a.changed_seconds, b.changed_seconds);
    signed_words_differ(a.changed_nanoseconds, b.changed_nanoseconds);
}

/// What the token of a state of the history is made from differs wherever anything
/// of that state does: a head, a length, or either file.
pub proof fn tokens_cover_the_whole_state(
    heads: (u32, u32),
    lengths: (u32, u32),
    files: (RingFileState, RingFileState),
    other_heads: (u32, u32),
    other_lengths: (u32, u32),
    other_files: (RingFileState, RingFileState),
)
    requires
        identity::token_input(heads.0, heads.1, lengths.0, lengths.1, files.0, files.1)
            == identity::token_input(
            other_heads.0,
            other_heads.1,
            other_lengths.0,
            other_lengths.1,
            other_files.0,
            other_files.1,
        ),
    ensures
        heads == other_heads,
        lengths == other_lengths,
        files == other_files,
{
    lemma_auto_spec_u64_to_from_le_bytes();
    lemma_auto_spec_u32_to_from_le_bytes();
    let domain = encode_utf8("clip-daemon:history-token:v2:"@);
    let n = domain.len() as int;
    let x = identity::token_input(heads.0, heads.1, lengths.0, lengths.1, files.0, files.1);
    let y = identity::token_input(
        other_heads.0,
        other_heads.1,
        other_lengths.0,
        other_lengths.1,
        other_files.0,
        other_files.1,
    );
    assert(x.subrange(n, n + 4) =~= spec_u32_to_le_bytes(heads.0));
    assert(y.subrange(n, n + 4) =~= spec_u32_to_le_bytes(other_heads.0));
    assert(x.subrange(n + 4, n + 8) =~= spec_u32_to_le_bytes(heads.1));
    assert(y.subrange(n + 4, n + 8) =~= spec_u32_to_le_bytes(other_heads.1));
    assert(x.subrange(n + 8, n + 12) =~= spec_u32_to_le_bytes(lengths.0));
    assert(y.subrange(n + 8, n + 12) =~= spec_u32_to_le_bytes(other_lengths.0));
    assert(x.subrange(n + 12, n + 16) =~= spec_u32_to_le_bytes(lengths.1));
    assert(y.subrange(n + 12, n + 16) =~= spec_u32_to_le_bytes(other_lengths.1));
    assert(spec_u32_from_le_bytes(spec_u32_to_le_bytes(heads.0)) == heads.0);
    assert(spec_u32_from_le_bytes(spec_u32_to_le_bytes(other_heads.0)) == other_heads.0);
    assert(spec_u32_from_le_bytes(spec_u32_to_le_bytes(heads.1)) == heads.1);
    assert(spec_u32_from_le_bytes(spec_u32_to_le_bytes(other_heads.1)) == other_heads.1);
    assert(spec_u32_from_le_bytes(spec_u32_to_le_bytes(lengths.0)) == lengths.0);
    assert(spec_u32_from_le_bytes(spec_u32_to_le_bytes(other_lengths.0)) == other_lengths.0);
    assert(spec_u32_from_le_bytes(spec_u32_to_le_bytes(lengths.1)) == lengths.1);
    assert(spec_u32_from_le_bytes(spec_u32_to_le_bytes(other_lengths.1)) == other_lengths.1);
    assert(files.0.bytes().len() == 56);
    assert(other_files.0.bytes().len() == 56);
    assert(files.1.bytes().len() == 56);
    assert(other_files.1.bytes().len() == 56);
    assert(x.subrange(n + 16, n + 72) =~= files.0.bytes());
    assert(y.subrange(n + 16, n + 72) =~= other_files.0.bytes());
    assert(x.subrange(n + 72, n + 128) =~= files.1.bytes());
    assert(y.subrange(n + 72, n + 128) =~= other_files.1.bytes());
    file_states_are_told_apart(files.0, other_files.0);
    file_states_are_told_apart(files.1, other_files.1);
}

/// Taking a text apart and putting it together gives the same text.
pub proof fn characters_make_the_text(
    s: &str,
    chars: Vec<char>,
    list: &[char],
    made: String,
    from: usize,
    to: usize,
    part: Vec<char>,
    more: &str,
    joined: String,
)
    requires
        call_ensures(text::chars_of, (s,), chars),
        list@ == chars@,
        call_ensures(text::string_of, (list,), made),
        from <= to <= list@.len(),
        call_ensures(text::slice_chars, (list, from, to), part),
        call_ensures(text::join, (s, more), joined),
    ensures
        chars@ == s@,
        made@ == s@,
        part@.len() == to - from,
        forall|i: int| 0 <= i < part@.len() ==> #[trigger] part@[i] == s@[from + i],
        joined@ == s@ + more@,
{
}

/// A character is found at its first place, or nowhere; and characters begin with others
/// exactly where those stand at their beginning.
pub proof fn characters_are_found_at_their_first_place(
    chars: &[char],
    c: char,
    at: usize,
    prefix: &[char],
    begun: bool,
    trimmed: Vec<char>,
)
    requires
        call_ensures(text::find_char, (chars, c), at),
        call_ensures(text::starts_with_chars, (chars, prefix), begun),
        call_ensures(text::trim_chars, (chars,), trimmed),
    ensures
        at <= chars@.len(),
        at < chars@.len() ==> chars@[at as int] == c,
        forall|i: int| 0 <= i < at ==> #[trigger] chars@[i] != c,
        begun <==> prefix@.len() <= chars@.len() && forall|i: int|
            0 <= i < prefix@.len() ==> #[trigger] prefix@[i] == chars@[i],
        trimmed@.len() <= chars@.len(),
        trimmed@.len() > 0 ==> !is_space(trimmed@[0]) && !is_space(trimmed@.last()),
{
    text::index_of_is_first(chars@, c);
    if prefix@.len() <= chars@.len() {
        let head = chars@.take(prefix@.len() as int);
        if begun {
            assert forall|i: int| 0 <= i < prefix@.len() implies #[trigger] prefix@[i]
                == chars@[i] by {
                assert(head[i] == chars@[i]);
            }
        } else if forall|i: int| 0 <= i < prefix@.len() ==> #[trigger] prefix@[i] == chars@[i] {
            assert(head =~= prefix@);
        }
    }
    trimming_the_start(chars@);
    trimming_the_end(text::trim_start(chars@));
    let rest = text::trim_start(chars@);
    if trimmed@.len() > 0 {
        assert(trimmed@[0] == rest[0]);
    }
}

/// Bytes are copied, put behind a prefix, and appended as they are.
pub proof fn bytes_stay_as_they_are(
    bytes: &[u8],
    from: usize,
    to: usize,
    copy: Vec<u8>,
    prefix: &str,
    tagged: Vec<u8>,
    before: Vec<u8>,
    after: Vec<u8>,
)
    requires
        from <= to <= bytes@.len(),
        call_ensures(bytes::copy_range, (bytes, from, to), copy),
        call_ensures(bytes::tagged, (prefix, bytes), tagged),
        exists|asked: &mut Vec<u8>|
            *asked == before && *final(asked) == after && #[trigger] call_ensures(
                bytes::append,
                (asked, bytes),
                (),
            ),
    ensures
        copy@.len() == to - from,
        forall|i: int| 0 <= i < copy@.len() ==> #[trigger] copy@[i] == bytes@[from + i],
        tagged@ == encode_utf8(prefix@) + bytes@,
        after@ == before@ + bytes@,
{
}

/// A numeral may have a plus sign, and nothing else before its digits.
pub proof fn numerals_may_have_a_plus_sign(
    digits: &[char],
    signed: &[char],
    plain: Option<u64>,
    with_sign: Option<u64>,
    first: char,
    other: &[char],
    none: Option<u64>,
)
    requires
        signed@ == seq!['+'] + digits@,
        digits@.len() > 0,
        digits@[0] != '+',
        call_ensures(crate::limit::parse_unsigned, (digits,), plain),
        call_ensures(crate::limit::parse_unsigned, (signed,), with_sign),
        !('0' <= first <= '9'),
        first != '+',
        other@ == seq![first],
        call_ensures(crate::limit::parse_unsigned, (other,), none),
    ensures
        with_sign == plain,
        none is None,
{
    assert(signed@.drop_first() =~= digits@);
    assert(other@.last() == first);
}

/// The fingerprint of an entry covers where it is, how large it is, what it says it is
/// and what it holds; the token of a history its whole state.
pub proof fn fingerprints_and_tokens_are_digests(
    raw_id: u64,
    size: u64,
    mime: &str,
    digest: [u8; 32],
    fingerprint: [u8; 32],
    heads: (u32, u32),
    lengths: (u32, u32),
    files: (RingFileState, RingFileState),
    token: u64,
)
    requires
        call_ensures(identity::entry_fingerprint, (raw_id, size, mime, &digest), fingerprint),
        call_ensures(
            identity::history_token_from_parts,
            (heads.0, heads.1, lengths.0, lengths.1, files.0, files.1),
            token,
        ),
    ensures
        fingerprint@ == digest::sha256_of(
            encode_utf8("clip-daemon:entry-fingerprint:v4:"@) + (spec_u64_to_le_bytes(raw_id)
                + spec_u64_to_le_bytes(size) + encode_utf8(mime@) + digest@),
        ),
        token == spec_u64_from_le_bytes(
            digest::sha256_of(
                identity::token_input(heads.0, heads.1, lengths.0, lengths.1, files.0, files.1),
            ).take(8),
        ),
{
}

} // verus!
