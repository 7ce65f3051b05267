//! Text as sequences of characters and as UTF-8 bytes.
use vstd::prelude::*;
use vstd::string::*;
use vstd::utf8::*;

verus! {

/// `String::push` appends one character.
pub assume_specification[ String::push ](s: &mut String, c: char)
    ensures
        final(s)@ == old(s)@.push(c),
;

/// `str::from_utf8`: text with exactly these bytes, where they are UTF-8.
#[verifier::external_body]
pub(crate) fn text_of(bytes: &[u8]) -> (text: Option<&str>)
    ensures
        text is Some <==> valid_utf8(bytes@),
        text matches Some(value) ==> value.spec_bytes() == bytes@ && value@ == decode_utf8(bytes@),
{
    std::str::from_utf8(bytes).ok()
}

/// The text, where there is one.
pub open spec fn maybe(s: Option<String>) -> Option<Seq<char>> {
    match s {
        Some(s) => Some(s@),
        None => None,
    }
}

/// The texts in a list.
pub open spec fn contents(list: Seq<String>) -> Seq<Seq<char>> {
    Seq::new(list.len(), |i: int| list[i]@)
}

/// The characters of `s`, in order.
pub fn chars_of(s: &str) -> (v: Vec<char>)
    ensures
        v@ == s@,
{
    let mut v: Vec<char> = Vec::new();
    for c in it: s.chars()
        invariant
            v@ == it.seq().take(it.index() as int),
            it.seq() == s@,
    {
        v.push(c);
    }
    v
}

/// The text made of the characters `v`.
pub fn string_of(v: &[char]) -> (s: String)
    ensures
        s@ == v@,
{
    let mut s = String::new();
    for i in 0..v.len()
        invariant
            s@ == v@.take(i as int),
    {
        s.push(v[i]);
        assert(v@.take(i as int + 1) == v@.take(i as int).push(v[i as int]));
    }
    assert(v@.take(v.len() as int) == v@);
    s
}

/// Whether two byte strings are equal.
pub fn same_bytes(a: &[u8], b: &[u8]) -> (same: bool)
    ensures
        same == (a@ == b@),
{
    if a.len() != b.len() {
        return false;
    }
    for i in 0..a.len()
        invariant
            a.len() == b.len(),
            forall|j: int| 0 <= j < i ==> a@[j] == b@[j],
    {
        if a[i] != b[i] {
            return false;
        }
    }
    assert(a@ =~= b@);
    true
}

/// UTF-8 text is its bytes: two texts with the same bytes are the same.
pub proof fn encoding_is_injective(a: Seq<char>, b: Seq<char>)
    requires
        encode_utf8(a) == encode_utf8(b),
    ensures
        a == b,
{
    vstd::utf8::encode_utf8_decode_utf8(a);
    vstd::utf8::encode_utf8_decode_utf8(b);
}

/// Whether two texts are equal.
pub fn same(a: &str, b: &str) -> (same: bool)
    ensures
        same == (a@ == b@),
{
    let same = same_bytes(a.as_bytes(), b.as_bytes());
    proof {
        if same {
            encoding_is_injective(a@, b@);
        }
    }
    same
}

/// White space: the characters with the Unicode property `White_Space`.
pub open spec fn white(c: char) -> bool {
    ||| '\u{9}' <= c <= '\u{d}'
    ||| c == ' '
    ||| c == '\u{85}'
    ||| c == '\u{a0}'
    ||| c == '\u{1680}'
    ||| '\u{2000}' <= c <= '\u{200a}'
    ||| c == '\u{2028}'
    ||| c == '\u{2029}'
    ||| c == '\u{202f}'
    ||| c == '\u{205f}'
    ||| c == '\u{3000}'
}

/// Whether a character is white space.
pub fn is_white(c: char) -> (result: bool)
    ensures
        result == white(c),
{
    ('\u{9}' <= c && c <= '\u{d}') || c == ' ' || c == '\u{85}' || c == '\u{a0}' || c == '\u{1680}'
        || ('\u{2000}' <= c && c <= '\u{200a}') || c == '\u{2028}' || c == '\u{2029}' || c
        == '\u{202f}' || c == '\u{205f}' || c == '\u{3000}'
}

/// What `str::to_lowercase` gives for a text.
pub uninterp spec fn lowercase_text(s: Seq<char>) -> Seq<char>;

/// `str::to_lowercase`: the lower-case text is a function of the text; of ASCII
/// text, each capital letter becomes the small one.
#[verifier::external_body]
pub(crate) fn to_lowercase(s: &str) -> (lower: String)
    ensures
        lower@ == lowercase_text(s@),
        is_ascii_chars(s@) ==> lower@ == s@.map_values(|c: char| ascii_lower(c)),
{
    s.to_lowercase()
}

/// `s` without the white space it begins with.
pub open spec fn trim_start(s: Seq<char>) -> Seq<char>
    decreases s.len(),
{
    if s.len() > 0 && white(s[0]) {
        trim_start(s.drop_first())
    } else {
        s
    }
}

/// `s` without the white space it ends with.
pub open spec fn trim_end(s: Seq<char>) -> Seq<char>
    decreases s.len(),
{
    if s.len() > 0 && white(s.last()) {
        trim_end(s.drop_last())
    } else {
        s
    }
}

/// `s` without white space at either end.
pub open spec fn trimmed(s: Seq<char>) -> Seq<char> {
    trim_end(trim_start(s))
}

/// The text without white space at either end.
pub fn trim_chars(chars: &[char]) -> (result: Vec<char>)
    ensures
        result@ == trimmed(chars@),
{
    let mut from: usize = 0;
    assert(chars@.skip(0) =~= chars@);
    while from < chars.len() && is_white(chars[from])
        invariant
            from <= chars@.len(),
            trim_start(chars@) == trim_start(chars@.skip(from as int)),
        decreases chars@.len() - from,
    {
        assert(chars@.skip(from as int).drop_first() =~= chars@.skip(from + 1));
        from = from + 1;
    }
    let ghost rest = chars@.skip(from as int);
    assert(trim_start(chars@) == rest);
    let mut to: usize = chars.len();
    assert(chars@.subrange(from as int, to as int) =~= rest);
    while to > from && is_white(chars[to - 1])
        invariant
            from <= to <= chars@.len(),
            trim_end(rest) == trim_end(chars@.subrange(from as int, to as int)),
        decreases to,
    {
        assert(chars@.subrange(from as int, to as int).drop_last() =~= chars@.subrange(
            from as int,
            to - 1,
        ));
        to = to - 1;
    }
    slice_chars(chars, from, to)
}

/// The text without white space at either end.
pub fn trim(s: &str) -> (result: String)
    ensures
        result@ == trimmed(s@),
{
    string_of(trim_chars(chars_of(s).as_slice()).as_slice())
}

/// A copy of the characters from `from` up to `to`.
pub fn slice_chars(chars: &[char], from: usize, to: usize) -> (result: Vec<char>)
    requires
        from <= to <= chars@.len(),
    ensures
        result@ == chars@.subrange(from as int, to as int),
{
    let mut result: Vec<char> = Vec::new();
    for i in from..to
        invariant
            from <= to <= chars@.len(),
            result@ == chars@.subrange(from as int, i as int),
    {
        result.push(chars[i]);
        assert(chars@.subrange(from as int, i + 1) =~= chars@.subrange(from as int, i as int).push(
            chars@[i as int],
        ));
    }
    result
}

/// Where `c` first stands in `s`, or the length of `s`.
pub open spec fn index_of(s: Seq<char>, c: char) -> int
    decreases s.len(),
{
    if s.len() == 0 || s[0] == c {
        0
    } else {
        1 + index_of(s.drop_first(), c)
    }
}

/// What `index_of` gives is a first place, or the length.
pub proof fn index_of_is_first(s: Seq<char>, c: char)
    ensures
        0 <= index_of(s, c) <= s.len(),
        index_of(s, c) < s.len() ==> s[index_of(s, c)] == c,
        forall|i: int| 0 <= i < index_of(s, c) ==> s[i] != c,
        index_of(s, c) < s.len() <==> s.contains(c),
    decreases s.len(),
{
    if s.len() == 0 || s[0] == c {
    } else {
        index_of_is_first(s.drop_first(), c);
        assert forall|i: int| 0 <= i < index_of(s, c) implies s[i] != c by {
            if i > 0 {
                assert(s.drop_first()[i - 1] == s[i]);
            }
        }
        if s.contains(c) {
            let i = choose|i: int| 0 <= i < s.len() && s[i] == c;
            assert(s.drop_first()[i - 1] == c);
        }
    }
}

/// Where `c` first stands in `chars`, or their number.
pub fn find_char(chars: &[char], c: char) -> (at: usize)
    ensures
        at == index_of(chars@, c),
        at <= chars@.len(),
{
    let mut at: usize = 0;
    assert(chars@.skip(0) =~= chars@);
    while at < chars.len()
        invariant
            at <= chars@.len(),
            index_of(chars@, c) == at + index_of(chars@.skip(at as int), c),
        decreases chars@.len() - at,
    {
        if chars[at] == c {
            return at;
        }
        assert(chars@.skip(at as int).drop_first() =~= chars@.skip(at + 1));
        at = at + 1;
    }
    at
}

/// The two sides of the first `c` in `s`.
pub open spec fn split_first(s: Seq<char>, c: char) -> Option<(Seq<char>, Seq<char>)> {
    if s.contains(c) {
        Some((s.take(index_of(s, c)), s.skip(index_of(s, c) + 1)))
    } else {
        None
    }
}

/// The two sides of the first `c`.
pub fn split_once(chars: &[char], c: char) -> (parts: Option<(Vec<char>, Vec<char>)>)
    ensures
        parts is Some <==> split_first(chars@, c) is Some,
        parts matches Some((a, b)) ==> split_first(chars@, c) == Some((a@, b@)),
{
    let at = find_char(chars, c);
    proof {
        index_of_is_first(chars@, c);
    }
    if at == chars.len() {
        return None;
    }
    let head = slice_chars(chars, 0, at);
    let tail = slice_chars(chars, at + 1, chars.len());
    assert(head@ =~= chars@.take(at as int));
    assert(tail@ =~= chars@.skip(at + 1));
    Some((head, tail))
}

/// `s` begins with `prefix`.
pub open spec fn begins(s: Seq<char>, prefix: Seq<char>) -> bool {
    prefix.len() <= s.len() && s.take(prefix.len() as int) == prefix
}

/// Whether the characters begin with those of `prefix`.
pub fn starts_with_chars(chars: &[char], prefix: &[char]) -> (result: bool)
    ensures
        result == begins(chars@, prefix@),
{
    if prefix.len() > chars.len() {
        return false;
    }
    for i in 0..prefix.len()
        invariant
            prefix@.len() <= chars@.len(),
            forall|j: int| 0 <= j < i ==> chars@[j] == prefix@[j],
    {
        if chars[i] != prefix[i] {
            assert(chars@.take(prefix@.len() as int)[i as int] != prefix@[i as int]);
            return false;
        }
    }
    assert(chars@.take(prefix@.len() as int) =~= prefix@);
    true
}

/// Whether `s` begins with `prefix`.
pub fn starts_with(s: &str, prefix: &str) -> (result: bool)
    ensures
        result == begins(s@, prefix@),
{
    starts_with_chars(chars_of(s).as_slice(), chars_of(prefix).as_slice())
}

/// `part` stands in `whole`.
pub open spec fn holds(whole: Seq<char>, part: Seq<char>) -> bool {
    exists|at: int| begins_at(whole, part, at)
}

/// `part` stands in `whole` at `at`.
pub open spec fn begins_at(whole: Seq<char>, part: Seq<char>, at: int) -> bool {
    0 <= at <= whole.len() && begins(whole.skip(at), part)
}

/// Whether `part` stands in `whole`.
pub fn contains_text(whole: &str, part: &str) -> (result: bool)
    ensures
        result == holds(whole@, part@),
{
    let hay = chars_of(whole);
    let needle = chars_of(part);
    if needle.len() > hay.len() {
        return false;
    }
    let total: usize = hay.len();
    let last: usize = total - needle.len();
    let mut at: usize = 0;
    while at <= last
        invariant
            hay@ == whole@,
            needle@ == part@,
            last + part@.len() == whole@.len(),
            at <= last,
            whole@.len() == total,
            forall|i: int| 0 <= i < at ==> !begins_at(whole@, part@, i),
        decreases last - at,
    {
        let mut i: usize = 0;
        while i < needle.len() && hay[at + i] == needle[i]
            invariant
                hay@ == whole@,
                needle@ == part@,
                at + part@.len() <= whole@.len() == total,
                i <= needle@.len(),
                forall|j: int| 0 <= j < i ==> hay@[at + j] == needle@[j],
            decreases needle@.len() - i,
        {
            i = i + 1;
        }
        if i == needle.len() {
            assert(whole@.skip(at as int).take(part@.len() as int) =~= part@);
            assert(begins_at(whole@, part@, at as int));
            return true;
        }
        assert(whole@.skip(at as int).take(part@.len() as int)[i as int] != part@[i as int]);
        if at == last {
            assert forall|k: int| !begins_at(whole@, part@, k) by {}
            return false;
        }
        at = at + 1;
    }
    false
}

/// `c` in ASCII lower case.
pub open spec fn ascii_lower(c: char) -> char {
    if 'A' <= c <= 'Z' {
        ((c as u32) + 32) as char
    } else {
        c
    }
}

/// `a` and `b` are the same up to ASCII case.
pub open spec fn same_ignoring_case(a: Seq<char>, b: Seq<char>) -> bool {
    a.len() == b.len() && forall|i: int| 0 <= i < a.len() ==> ascii_lower(a[i]) == ascii_lower(b[i])
}

fn same_letter(a: char, b: char) -> (same: bool)
    ensures
        same == (ascii_lower(a) == ascii_lower(b)),
{
    let x: u32 = a as u32;
    let y: u32 = b as u32;
    let lower_x: u32 = if 65 <= x && x <= 90 {
        x + 32
    } else {
        x
    };
    let lower_y: u32 = if 65 <= y && y <= 90 {
        y + 32
    } else {
        y
    };
    lower_x == lower_y
}

/// Whether two texts are the same up to ASCII case.
pub fn eq_ignore_ascii_case(a: &[char], b: &[char]) -> (same: bool)
    ensures
        same == same_ignoring_case(a@, b@),
{
    if a.len() != b.len() {
        return false;
    }
    for i in 0..a.len()
        invariant
            a@.len() == b@.len(),
            forall|j: int| 0 <= j < i ==> ascii_lower(a@[j]) == ascii_lower(b@[j]),
    {
        if !same_letter(a[i], b[i]) {
            return false;
        }
    }
    true
}

/// The lines of a text: what stands between line feeds, without a carriage
/// return before one; nothing after the last.
pub open spec fn lines_of(s: Seq<char>) -> Seq<Seq<char>>
    decreases s.len(),
    via lines_of_decreases
{
    if s.len() == 0 {
        Seq::empty()
    } else {
        let at = index_of(s, '\n');
        if at < s.len() {
            seq![without_return(s.take(at))] + lines_of(s.skip(at + 1))
        } else {
            seq![s]
        }
    }
}

#[via_fn]
proof fn lines_of_decreases(s: Seq<char>) {
    index_of_is_first(s, '\n');
}

/// A line without the carriage return that it ends with.
pub open spec fn without_return(s: Seq<char>) -> Seq<char> {
    if s.len() > 0 && s.last() == '\r' {
        s.drop_last()
    } else {
        s
    }
}

/// The views of a list of texts.
pub open spec fn views(v: Seq<Vec<char>>) -> Seq<Seq<char>> {
    Seq::new(v.len(), |i: int| v[i]@)
}

/// The lines of a text.
pub fn lines(chars: &[char]) -> (result: Vec<Vec<char>>)
    ensures
        views(result@) == lines_of(chars@),
{
    let mut result: Vec<Vec<char>> = Vec::new();
    let mut from: usize = 0;
    assert(chars@.skip(0) =~= chars@);
    assert(views(result@) + lines_of(chars@) =~= lines_of(chars@));
    while from < chars.len()
        invariant
            from <= chars@.len(),
            lines_of(chars@) == views(result@) + lines_of(chars@.skip(from as int)),
        decreases chars@.len() - from,
    {
        let rest = slice_chars(chars, from, chars.len());
        let ghost before = result@;
        assert(rest@ =~= chars@.skip(from as int));
        let at = find_char(rest.as_slice(), '\n');
        proof {
            index_of_is_first(rest@, '\n');
        }
        if at < rest.len() {
            let to: usize = if at > 0 && rest[at - 1] == '\r' {
                at - 1
            } else {
                at
            };
            let line = slice_chars(rest.as_slice(), 0, to);
            assert(line@ =~= without_return(rest@.take(at as int)));
            result.push(line);
            assert(rest@.skip(at + 1) =~= chars@.skip(from + at + 1));
            assert(views(result@) =~= views(before).push(line@));
            assert(views(before) + (seq![line@] + lines_of(rest@.skip(at + 1))) =~= views(result@)
                + lines_of(rest@.skip(at + 1)));
            from = from + at + 1;
        } else {
            result.push(rest);
            assert(views(result@) =~= views(before).push(rest@));
            assert(views(before) + seq![rest@] =~= views(result@));
            return result;
        }
    }
    assert(views(result@) + lines_of(chars@.skip(from as int)) =~= views(result@));
    result
}

/// The decimal digit for `d`.
pub open spec fn digit(d: int) -> char {
    (48 + d) as char
}

/// `n` in decimal.
pub open spec fn decimal(n: nat) -> Seq<char>
    decreases n,
{
    if n < 10 {
        seq![digit(n as int)]
    } else {
        decimal(n / 10).push(digit(n as int % 10))
    }
}

fn digit_char(d: u64) -> (c: char)
    requires
        d < 10,
    ensures
        c == digit(d as int),
{
    (48u8 + d as u8) as char
}

/// `n` in decimal.
pub fn format_u64(n: u64) -> (result: String)
    ensures
        result@ == decimal(n as nat),
    decreases n,
{
    if n < 10 {
        let mut result = String::new();
        result.push(digit_char(n));
        assert(result@ =~= decimal(n as nat));
        result
    } else {
        let mut result = format_u64(n / 10);
        result.push(digit_char(n % 10));
        result
    }
}

/// The value of a decimal numeral, where it is one.
pub open spec fn numeral(s: Seq<char>) -> Option<nat>
    decreases s.len(),
{
    if s.len() == 0 || !('0' <= s.last() <= '9') {
        None
    } else if s.len() == 1 {
        Some((s[0] as nat - 48) as nat)
    } else {
        match numeral(s.drop_last()) {
            Some(head) => Some((head * 10 + (s.last() as int - 48)) as nat),
            None => None,
        }
    }
}

/// Reading back what was written.
pub proof fn numeral_of_decimal(n: nat)
    ensures
        numeral(decimal(n)) == Some(n),
        decimal(n).len() > 0,
    decreases n,
{
    if n >= 10 {
        numeral_of_decimal(n / 10);
        assert(decimal(n).drop_last() =~= decimal(n / 10));
    }
}

/// The value of a decimal numeral, where it is one and fits.
pub fn parse_digits(chars: &[char]) -> (result: Option<u64>)
    ensures
        match result {
            Some(value) => numeral(chars@) == Some(value as nat),
            None => numeral(chars@) is None || numeral(chars@)->0 > u64::MAX,
        },
    decreases chars@.len(),
{
    let n: usize = chars.len();
    if n == 0 {
        return None;
    }
    let last: char = chars[n - 1];
    if !('0' <= last && last <= '9') {
        return None;
    }
    let low: u64 = (last as u32 - 48) as u64;
    if n == 1 {
        return Some(low);
    }
    let head = slice_chars(chars, 0, n - 1);
    assert(head@ =~= chars@.drop_last());
    match parse_digits(head.as_slice()) {
        Some(value) => {
            if value > (u64::MAX - low) / 10 {
                None
            } else {
                Some(value * 10 + low)
            }
        },
        None => None,
    }
}

/// A text from a list of characters, followed by another.
pub fn join(a: &str, b: &str) -> (result: String)
    ensures
        result@ == a@ + b@,
{
    let mut result = a.to_owned();
    result.append(b);
    result
}

/// What `Utf8Error` says of bytes that are not UTF-8.
pub uninterp spec fn utf8_error_text(bytes: Seq<u8>) -> Seq<char>;

/// The text of the `Utf8Error` that `str::from_utf8` gives: a function of the
/// bytes.
#[verifier::external_body]
pub(crate) fn utf8_error(bytes: &[u8]) -> (message: String)
    requires
        !valid_utf8(bytes@),
    ensures
        message@ == utf8_error_text(bytes@),
{
    std::str::from_utf8(bytes).map_or_else(|error| error.to_string(), String::from)
}

/// The value of a numeral that may have a sign.
pub open spec fn signed(s: Seq<char>) -> Option<int> {
    if s.len() > 0 && s[0] == '-' {
        match numeral(s.drop_first()) {
            Some(value) => Some(-value),
            None => None,
        }
    } else if s.len() > 0 && s[0] == '+' {
        match numeral(s.drop_first()) {
            Some(value) => Some(value as int),
            None => None,
        }
    } else {
        match numeral(s) {
            Some(value) => Some(value as int),
            None => None,
        }
    }
}

/// Reads a numeral that may have a sign and stands for an `i32`.
pub fn parse_i32(chars: &[char]) -> (result: Option<i32>)
    ensures
        match result {
            Some(value) => signed(chars@) == Some(value as int),
            None => signed(chars@) is None || signed(chars@)->0 < i32::MIN || signed(chars@)->0
                > i32::MAX,
        },
{
    let negative: bool = chars.len() > 0 && chars[0] == '-';
    let from: usize = if negative || (chars.len() > 0 && chars[0] == '+') {
        1
    } else {
        0
    };
    let digits = slice_chars(chars, from, chars.len());
    assert(from == 1 ==> digits@ =~= chars@.drop_first());
    assert(from == 0 ==> digits@ =~= chars@);
    match parse_digits(digits.as_slice()) {
        Some(value) => {
            if negative {
                if value <= 2_147_483_648 {
                    Some((-(value as i64)) as i32)
                } else {
                    None
                }
            } else if value <= 2_147_483_647 {
                Some(value as i32)
            } else {
                None
            }
        },
        None => None,
    }
}

/// `n` in decimal, with a sign if it is negative.
pub open spec fn signed_decimal(n: int) -> Seq<char> {
    if n < 0 {
        seq!['-'] + decimal((-n) as nat)
    } else {
        decimal(n as nat)
    }
}

/// `n` in decimal, with a sign if it is negative.
pub fn format_i32(n: i32) -> (result: String)
    ensures
        result@ == signed_decimal(n as int),
{
    if n < 0 {
        let mut result = String::new();
        result.push('-');
        result.append(format_u64((-(n as i64)) as u64).as_str());
        assert(result@ =~= signed_decimal(n as int));
        result
    } else {
        format_u64(n as u64)
    }
}

/// A decimal numeral is made of digits.
pub proof fn decimal_is_digits(n: nat)
    ensures
        decimal(n).len() > 0,
        forall|i: int| 0 <= i < decimal(n).len() ==> '0' <= #[trigger] decimal(n)[i] <= '9',
    decreases n,
{
    if n >= 10 {
        decimal_is_digits(n / 10);
        let head = decimal(n / 10);
        assert forall|i: int| 0 <= i < decimal(n).len() implies '0' <= #[trigger] decimal(n)[i]
            <= '9' by {
            if i < head.len() {
                assert(decimal(n)[i] == head[i]);
            }
        }
    }
}

/// Reading back what was written, sign and all.
pub proof fn signed_of_decimal(n: int)
    ensures
        signed(signed_decimal(n)) == Some(n),
        signed_decimal(n).len() > 0,
{
    if n < 0 {
        numeral_of_decimal((-n) as nat);
        assert(signed_decimal(n).drop_first() =~= decimal((-n) as nat));
    } else {
        numeral_of_decimal(n as nat);
        decimal_is_digits(n as nat);
        assert('0' <= decimal(n as nat)[0] <= '9');
    }
}

/// A text parts at the first of a character that its beginning lacks.
pub proof fn splits_at(a: Seq<char>, c: char, b: Seq<char>)
    requires
        !a.contains(c),
    ensures
        split_first(a.push(c) + b, c) == Some((a, b)),
{
    let s = a.push(c) + b;
    index_of_is_first(s, c);
    assert(s[a.len() as int] == c);
    let at = index_of(s, c);
    if at < a.len() {
        assert(a[at] == s[at]);
    }
    assert(at == a.len());
    assert(s.take(at) =~= a);
    assert(s.skip(at + 1) =~= b);
}

/// A text that neither begins nor ends with white space is left as it is.
pub proof fn trimmed_is_same(s: Seq<char>)
    requires
        s.len() > 0,
        !white(s[0]),
        !white(s.last()),
    ensures
        trimmed(s) == s,
{
}

} // verus!
