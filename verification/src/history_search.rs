//! Search of the whole history with cursors that are bound to a state of it, to
//! their caller and to this process. Nothing is kept for a cursor: a history
//! that has changed invalidates it.
use crate::actions::{ApiError, QueryParams};
use crate::backend::{BackendResult, HistoryQuery};
use crate::digest;
use crate::model::{EntryKind, EntrySummary, HistoryPage};
use crate::text;
use std::collections::BTreeMap;
use vstd::hash_set::*;
use vstd::prelude::*;
use vstd::string::*;
use vstd::utf8::*;

verus! {

/// The most entries that are searched, and the end of every cursor.
pub const MAX_ENTRIES: usize = 5_000;

/// How long a cursor can be used, in seconds.
pub const CURSOR_SECONDS: u64 = 120;

/// The longest cursor, in bytes.
pub const MAX_CURSOR_BYTES: usize = 512;

/// The most searches at a time.
pub const MAX_SEARCHES: usize = 2;

/// Where a search goes on: in which state of the history, behind how many
/// results, and until when, in seconds from the start of the process.
#[derive(Debug, Clone, Copy, PartialEq, Eq, Structural)]
pub struct Cursor {
    pub token: u64,
    pub offset: usize,
    pub expires: u64,
}

/// What a cursor belongs to.
#[derive(Debug, Clone, Copy, PartialEq, Eq)]
pub struct CursorScope<'a> {
    pub query: &'a str,
    pub generation: u64,
    pub owner: Option<&'a str>,
    pub collapse: bool,
}

/// What a cursor belongs to, as plain values.
pub struct ScopeView {
    pub query: Seq<char>,
    pub generation: u64,
    pub owner: Option<Seq<char>>,
    pub collapse: bool,
}

impl<'a> CursorScope<'a> {
    pub open spec fn view(self) -> ScopeView {
        ScopeView {
            query: self.query@,
            generation: self.generation,
            owner: match self.owner {
                Some(owner) => Some(owner@),
                None => None,
            },
            collapse: self.collapse,
        }
    }
}

/// The searches of this process.
pub struct HistorySearch {
    pub key: [u8; 16],
    pub running: usize,
}

/// How a cursor is written down.
pub open spec fn cursor_text(token: u64, offset: u64, expires: u64) -> Seq<char> {
    "{\"token\":"@ + text::decimal(token as nat) + ",\"offset\":"@ + text::decimal(offset as nat)
        + ",\"expires\":"@ + text::decimal(expires as nat) + "}"@
}

impl Cursor {
    /// How the cursor is written down.
    pub open spec fn written(self) -> Seq<char> {
        cursor_text(self.token, self.offset as u64, self.expires)
    }

    /// Writes the cursor down.
    pub fn write(&self) -> (body: String)
        ensures
            body@ == self.written(),
    {
        let token = text::join("{\"token\":", text::format_u64(self.token).as_str());
        let offset = text::join(",\"offset\":", text::format_u64(self.offset as u64).as_str());
        let expires = text::join(",\"expires\":", text::format_u64(self.expires).as_str());
        let body = text::join(
            text::join(text::join(token.as_str(), offset.as_str()).as_str(), expires.as_str())
                .as_str(),
            "}",
        );
        assert(body@ =~= self.written());
        body
    }

    /// Rejects the cursor where it belongs to another state of the history.
    pub fn check(&self, token: u64) -> (result: Result<(), ApiError>)
        ensures
            match result {
                Ok(_) => self.token == token,
                Err(error) => self.token != token && is_stale(error),
            },
    {
        if self.token == token {
            Ok(())
        } else {
            Err(stale())
        }
    }
}

/// The cursor cannot be used any more.
pub open spec fn is_stale(error: ApiError) -> bool {
    error.is(
        "stale-cursor"@,
        "Clipboard history changed or the cursor expired; refresh the query"@,
    )
}

fn stale() -> (error: ApiError)
    ensures
        is_stale(error),
{
    ApiError::new(
        "stale-cursor",
        "Clipboard history changed or the cursor expired; refresh the query",
    )
}

/// The search could not be made.
pub open spec fn is_failed(error: ApiError) -> bool {
    error.is("search-failed"@, "Clipboard search failed"@)
}

fn search_failed() -> (error: ApiError)
    ensures
        is_failed(error),
{
    ApiError::new("search-failed", "Clipboard search failed")
}

/// The members of a JSON object whose values are unsigned integers, by their
/// names in order, where the text is one.
pub uninterp spec fn json_members(text: Seq<char>) -> Option<Seq<(Seq<char>, u64)>>;

/// The names and values in a list.
pub open spec fn members(list: Seq<(String, u64)>) -> Seq<(Seq<char>, u64)> {
    Seq::new(list.len(), |i: int| (list[i].0@, list[i].1))
}

/// `serde_json::from_str` into an ordered map of unsigned integers: the members
/// are a function of the text. A cursor that was written down is read as its
/// three members.
#[verifier::external_body]
fn json_counts(value: &str) -> (list: Option<Vec<(String, u64)>>)
    ensures
        match list {
            Some(list) => json_members(value@) == Some(members(list@)),
            None => json_members(value@) is None,
        },
        forall|token: u64, offset: u64, expires: u64|
            value@ == #[trigger] cursor_text(token, offset, expires) ==> list is Some && members(
                list->0@,
            ) == seq![("expires"@, expires), ("offset"@, offset), ("token"@, token)],
{
    let map: BTreeMap<String, u64> = serde_json::from_str(value).ok()?;
    Some(map.into_iter().collect())
}

/// The elements of a JSON array of three unsigned integers, where the text is one.
pub uninterp spec fn json_triple(text: Seq<char>) -> Option<(u64, u64, u64)>;

/// `serde_json::from_str` into three unsigned integers: they are a function of the
/// text.
#[verifier::external_body]
fn json_numbers(value: &str) -> (numbers: Option<(u64, u64, u64)>)
    ensures
        numbers == json_triple(value@),
{
    serde_json::from_str(value).ok()
}

/// How many of the first `n` characters are colons.
pub open spec fn colons_before(s: Seq<char>, n: int) -> nat
    decreases n,
{
    if n <= 0 {
        0
    } else {
        colons_before(s, n - 1) + if s[n - 1] == ':' {
            1nat
        } else {
            0nat
        }
    }
}

/// How many colons a text holds.
pub open spec fn colons(s: Seq<char>) -> nat {
    colons_before(s, s.len() as int)
}

/// Counts the colons of a text.
fn count_colons(value: &str) -> (count: usize)
    ensures
        count == colons(value@),
{
    let chars = text::chars_of(value);
    let mut count: usize = 0;
    for i in 0..chars.len()
        invariant
            count <= i,
            chars@ == value@,
            count == colons_before(chars@, i as int),
    {
        if chars[i] == ':' {
            count = count + 1;
        }
    }
    count
}

proof fn colons_before_is_local(a: Seq<char>, b: Seq<char>, n: int)
    requires
        0 <= n <= a.len(),
    ensures
        colons_before(a + b, n) == colons_before(a, n),
    decreases n,
{
    if n > 0 {
        colons_before_is_local(a, b, n - 1);
    }
}

proof fn colons_behind(a: Seq<char>, b: Seq<char>, n: int)
    requires
        0 <= n <= b.len(),
    ensures
        colons_before(a + b, a.len() + n) == colons(a) + colons_before(b, n),
    decreases n,
{
    if n == 0 {
        colons_before_is_local(a, b, a.len() as int);
    } else {
        colons_behind(a, b, n - 1);
        assert((a + b)[a.len() + n - 1] == b[n - 1]);
    }
}

proof fn colons_concat(a: Seq<char>, b: Seq<char>)
    ensures
        colons(a + b) == colons(a) + colons(b),
{
    colons_behind(a, b, b.len() as int);
}

proof fn digits_hold_no_colon(s: Seq<char>, n: int)
    requires
        0 <= n <= s.len(),
        forall|i: int| 0 <= i < s.len() ==> '0' <= #[trigger] s[i] <= '9',
    ensures
        colons_before(s, n) == 0,
    decreases n,
{
    if n > 0 {
        digits_hold_no_colon(s, n - 1);
    }
}

/// A written cursor has one colon for each member.
proof fn written_cursors_name_each_member_once(token: u64, offset: u64, expires: u64)
    ensures
        colons(cursor_text(token, offset, expires)) == 3,
{
    reveal_strlit("{\"token\":");
    reveal_strlit(",\"offset\":");
    reveal_strlit(",\"expires\":");
    reveal_strlit("}");
    let a = "{\"token\":"@;
    let b = ",\"offset\":"@;
    let c = ",\"expires\":"@;
    let d = "}"@;
    let t = text::decimal(token as nat);
    let o = text::decimal(offset as nat);
    let e = text::decimal(expires as nat);
    text::decimal_is_digits(token as nat);
    text::decimal_is_digits(offset as nat);
    text::decimal_is_digits(expires as nat);
    digits_hold_no_colon(t, t.len() as int);
    digits_hold_no_colon(o, o.len() as int);
    digits_hold_no_colon(e, e.len() as int);
    assert(colons(a) == 1 && colons(b) == 1 && colons(c) == 1 && colons(d) == 0) by {
        reveal_with_fuel(colons_before, 13);
    }
    colons_concat(a, t);
    colons_concat(a + t, b);
    colons_concat(a + t + b, o);
    colons_concat(a + t + b + o, c);
    colons_concat(a + t + b + o + c, e);
    colons_concat(a + t + b + o + c + e, d);
}

/// The JSON text of a cursor and what it belongs to.
pub uninterp spec fn scope_json(
    body: Seq<char>,
    query: Seq<char>,
    generation: u64,
    owner: Option<Seq<char>>,
    collapse: bool,
) -> Seq<u8>;

/// `serde_json::to_vec` of the five values as a tuple: it succeeds, the text is a
/// function of them, and no other values have the same text.
#[verifier::external_body]
fn scope_bytes(
    body: &str,
    query: &str,
    generation: u64,
    owner: Option<&str>,
    collapse: bool,
) -> (bytes: Option<Vec<u8>>)
    ensures
        ({
            let shown = match owner {
                Some(owner) => Some(owner@),
                None => None,
            };
            match bytes {
                Some(bytes) => {
                    &&& bytes@ == scope_json(body@, query@, generation, shown, collapse)
                    &&& forall|b: Seq<char>, q: Seq<char>, g: u64, o: Option<Seq<char>>, c: bool|
                        #[trigger] scope_json(b, q, g, o, c) == bytes@ ==> b == body@ && q
                            == query@ && g == generation && o == shown && c == collapse
                },
                None => false,
            }
        }),
{
    serde_json::to_vec(&(body, query, generation, owner, collapse)).ok()
}

/// What the tag of a cursor is made of.
pub open spec fn message_of(body: Seq<char>, scope: ScopeView) -> Seq<u8> {
    scope_json(body, scope.query, scope.generation, scope.owner, scope.collapse)
}

/// Where the character last occurs, or -1.
pub open spec fn last_index(s: Seq<char>, c: char) -> int
    decreases s.len(),
{
    if s.len() == 0 {
        -1
    } else if s.last() == c {
        s.len() - 1
    } else {
        last_index(s.drop_last(), c)
    }
}

/// What stands before the last bar, and what stands behind it.
pub open spec fn split_tag(s: Seq<char>) -> Option<(Seq<char>, Seq<char>)> {
    let at = last_index(s, '|');
    if at >= 0 {
        Some((s.take(at), s.skip(at + 1)))
    } else {
        None
    }
}

proof fn last_index_bounds(s: Seq<char>, c: char)
    ensures
        -1 <= last_index(s, c) < s.len(),
    decreases s.len(),
{
    if s.len() > 0 {
        last_index_bounds(s.drop_last(), c);
    }
}

/// Splits a text at its last bar.
fn split_at_tag(value: &str) -> (parts: Option<(String, String)>)
    ensures
        match parts {
            Some((body, tag)) => split_tag(value@) == Some((body@, tag@)),
            None => split_tag(value@) is None,
        },
{
    let chars = text::chars_of(value);
    let mut end: usize = chars.len();
    assert(chars@.take(end as int) =~= chars@);
    while end > 0
        invariant
            end <= chars@.len(),
            chars@ == value@,
            last_index(chars@, '|') == last_index(chars@.take(end as int), '|'),
        decreases end,
    {
        assert(chars@.take(end as int).drop_last() =~= chars@.take(end - 1));
        if chars[end - 1] == '|' {
            let body = text::slice_chars(chars.as_slice(), 0, end - 1);
            let tag = text::slice_chars(chars.as_slice(), end, chars.len());
            assert(body@ =~= value@.take(end - 1));
            assert(tag@ =~= value@.skip(end as int));
            return Some((text::string_of(body.as_slice()), text::string_of(tag.as_slice())));
        }
        end = end - 1;
    }
    None
}

/// The cursor that the members of a JSON object make, where they are those of
/// one.
pub open spec fn cursor_in(list: Seq<(Seq<char>, u64)>) -> Option<(u64, u64, u64)> {
    if list.len() == 3 && list[0].0 == "expires"@ && list[1].0 == "offset"@ && list[2].0
        == "token"@ {
        Some((list[2].1, list[1].1, list[0].1))
    } else {
        None
    }
}

/// What is written down as a cursor: token, offset and end. It is an object with
/// the three members, each of them once, or a list of the three.
pub open spec fn cursor_parts(
    list: Option<Seq<(Seq<char>, u64)>>,
    count: nat,
    numbers: Option<(u64, u64, u64)>,
) -> Option<(u64, u64, u64)> {
    match list {
        Some(list) => if count == 3 {
            cursor_in(list)
        } else {
            None
        },
        None => numbers,
    }
}

/// The cursor that is written down as `body`, where it can still be used at
/// `elapsed` seconds. An object whose members are those of a cursor holds a colon
/// for each member, and no other.
pub open spec fn usable(body: Seq<char>, elapsed: u64) -> Option<Cursor> {
    usable_parts(cursor_parts(json_members(body), colons(body), json_triple(body)), elapsed)
}

/// The cursor with these parts, where it can still be used.
pub open spec fn usable_parts(parts: Option<(u64, u64, u64)>, elapsed: u64) -> Option<Cursor> {
    match parts {
        Some((token, offset, expires)) => if expires > elapsed && offset < MAX_ENTRIES {
            Some(Cursor { token, offset: offset as usize, expires })
        } else {
            None
        },
        None => None,
    }
}

/// The cursor that is written down, where it can still be used: as an object with
/// these members, where it is one, and so many colons, or as a list of these
/// numbers, where it is one.
pub fn usable_cursor(
    list: &Option<Vec<(String, u64)>>,
    count: usize,
    numbers: Option<(u64, u64, u64)>,
    elapsed: u64,
) -> (cursor: Option<Cursor>)
    ensures
        cursor == usable_parts(
            cursor_parts(
                match *list {
                    Some(list) => Some(members(list@)),
                    None => None,
                },
                count as nat,
                numbers,
            ),
            elapsed,
        ),
{
    let (token, offset, expires) = match list {
        Some(list) => {
            if count != 3 || list.len() != 3 || !text::same(list[0].0.as_str(), "expires")
                || !text::same(list[1].0.as_str(), "offset") || !text::same(
                list[2].0.as_str(),
                "token",
            ) {
                return None;
            }
            (list[2].1, list[1].1, list[0].1)
        },
        None => match numbers {
            Some(numbers) => numbers,
            None => {
                return None;
            },
        },
    };
    if expires <= elapsed || offset >= MAX_ENTRIES as u64 {
        return None;
    }
    Some(Cursor { token, offset: offset as usize, expires })
}

/// The written form of a cursor for `scope`, with its tag under `key`.
pub open spec fn tagged(key: Seq<u8>, cursor: Cursor, scope: ScopeView) -> Seq<char> {
    cursor.written() + "|"@ + digest::hex_of(
        digest::hmac_sha256_of(key, message_of(cursor.written(), scope)),
    )
}

/// What a written cursor holds before its tag.
pub open spec fn body_of(value: Seq<char>) -> Seq<char> {
    let (body, _) = split_tag(value)->0;
    body
}

/// `value` is the written form of the cursor for `scope`, with its tag under
/// `key`. Nothing else has the tag's message.
pub open spec fn issued(key: Seq<u8>, cursor: Cursor, scope: ScopeView, value: Seq<char>) -> bool {
    let message = message_of(cursor.written(), scope);
    &&& value == tagged(key, cursor, scope)
    &&& digest::hmac_sha256_of(key, message).len() == 32
    &&& forall|b: Seq<char>, q: Seq<char>, g: u64, o: Option<Seq<char>>, c: bool|
        #[trigger] scope_json(b, q, g, o, c) == message ==> b == cursor.written() && q
            == scope.query && g == scope.generation && o == scope.owner && c == scope.collapse
}

/// `value` carries the tag under `key` of its body for `scope`.
pub open spec fn authentic(key: Seq<u8>, scope: ScopeView, value: Seq<char>) -> bool {
    &&& encode_utf8(value).len() <= MAX_CURSOR_BYTES
    &&& split_tag(value) matches Some((body, tag)) && digest::unhex(tag) == Some(
        digest::hmac_sha256_of(key, message_of(body, scope)),
    )
}

/// A written cursor is split into its body and its tag, and is short.
proof fn written_cursor_splits(cursor: Cursor, tag: Seq<u8>)
    requires
        tag.len() == 32,
    ensures
        ({
            let value = cursor.written() + "|"@ + digest::hex_of(tag);
            &&& split_tag(value) == Some((cursor.written(), digest::hex_of(tag)))
            &&& encode_utf8(value).len() <= MAX_CURSOR_BYTES
        }),
{
    let body = cursor.written();
    let hex = digest::hex_of(tag);
    let value = body + "|"@ + hex;
    reveal_strlit("|");
    assert("|"@ =~= seq!['|']);
    assert forall|i: int| 0 <= i < hex.len() implies '0' <= #[trigger] hex[i] <= 'f' by {
        let b = tag[i / 2] as int;
        assert(0 <= b / 16 < 16 && 0 <= b % 16 < 16);
    }
    bar_is_last(body, hex);
    assert(value =~= body.push('|') + hex);
    assert(value.take(body.len() as int) =~= body);
    assert(value.skip(body.len() as int + 1) =~= hex);
    written_cursor_is_short(cursor);
    assert forall|i: int| 0 <= i < value.len() implies '\0' <= #[trigger] value[i] <= '\u{7f}' by {
        if i < body.len() {
            assert(value[i] == body[i]);
        } else if i > body.len() {
            assert(value[i] == hex[i - body.len() - 1]);
        }
    }
    assert(is_ascii_chars(value));
    is_ascii_chars_encode_utf8(value);
}

/// A cursor that was written down carries its tag.
pub proof fn issued_cursors_are_authentic(
    key: Seq<u8>,
    cursor: Cursor,
    scope: ScopeView,
    value: Seq<char>,
)
    requires
        issued(key, cursor, scope, value),
    ensures
        authentic(key, scope, value),
        body_of(value) == cursor.written(),
{
    let tag = digest::hmac_sha256_of(key, message_of(cursor.written(), scope));
    written_cursor_splits(cursor, tag);
    digest::unhex_of_hex(tag);
}

/// The last bar stands where no other follows.
proof fn bar_is_last(body: Seq<char>, rest: Seq<char>)
    requires
        forall|i: int| 0 <= i < rest.len() ==> '0' <= #[trigger] rest[i] <= 'f',
    ensures
        last_index(body.push('|') + rest, '|') == body.len(),
    decreases rest.len(),
{
    let whole = body.push('|') + rest;
    if rest.len() == 0 {
        assert(whole =~= body.push('|'));
    } else {
        bar_is_last(body, rest.drop_last());
        assert(whole.drop_last() =~= body.push('|') + rest.drop_last());
        assert(whole.last() == rest.last());
    }
}

/// The body of a cursor is short, and holds ASCII characters alone.
proof fn written_cursor_is_short(cursor: Cursor)
    ensures
        cursor.written().len() <= 100,
        is_ascii_chars(cursor.written()),
{
    reveal_strlit("{\"token\":");
    reveal_strlit(",\"offset\":");
    reveal_strlit(",\"expires\":");
    reveal_strlit("}");
    let token = text::decimal(cursor.token as nat);
    let offset = text::decimal(cursor.offset as nat);
    let expires = text::decimal(cursor.expires as nat);
    number_is_short(cursor.token as nat);
    number_is_short(cursor.offset as nat);
    number_is_short(cursor.expires as nat);
    text::decimal_is_digits(cursor.token as nat);
    text::decimal_is_digits(cursor.offset as nat);
    text::decimal_is_digits(cursor.expires as nat);
}

/// A number of 64 bits has at most twenty digits.
proof fn number_is_short(n: nat)
    requires
        n <= u64::MAX,
    ensures
        text::decimal(n).len() <= 20,
{
    reveal_with_fuel(text::decimal, 21);
}

/// The cursor that is read from its written form for `scope` at `elapsed`
/// seconds, where it can still be used.
pub open spec fn decoded(
    key: Seq<u8>,
    scope: ScopeView,
    value: Seq<char>,
    elapsed: u64,
) -> Option<Cursor> {
    if authentic(key, scope, value) {
        usable(body_of(value), elapsed)
    } else {
        None
    }
}

impl HistorySearch {
    /// The searches of a process with this key.
    pub fn with_key(key: [u8; 16]) -> (search: Self)
        ensures
            search.key == key,
            search.running == 0,
    {
        HistorySearch { key, running: 0 }
    }

    /// What the tag of a cursor for `scope` is made of.
    fn message(body: &str, scope: CursorScope<'_>) -> (message: Option<Vec<u8>>)
        ensures
            message matches Some(message) && message@ == message_of(body@, scope.view()),
            forall|b: Seq<char>, q: Seq<char>, g: u64, o: Option<Seq<char>>, c: bool|
                #[trigger] scope_json(b, q, g, o, c) == message_of(body@, scope.view()) ==> b
                    == body@ && q == scope.view().query && g == scope.view().generation && o
                    == scope.view().owner && c == scope.view().collapse,
    {
        scope_bytes(body, scope.query, scope.generation, scope.owner, scope.collapse)
    }

    /// Writes a cursor down for `scope`, with a tag that nobody else can make.
    pub fn encode(&self, cursor: Cursor, scope: CursorScope<'_>) -> (value: Result<
        String,
        ApiError,
    >)
        ensures
            value matches Ok(value) && issued(self.key@, cursor, scope.view(), value@),
    {
        let body = cursor.write();
        let message = match HistorySearch::message(body.as_str(), scope) {
            Some(message) => message,
            None => {
                return Err(search_failed());
            },
        };
        let tag = digest::hmac_sha256(self.key.as_slice(), message.as_slice());
        let hex = digest::hex_encode(tag.as_slice());
        Ok(text::join(text::join(body.as_str(), "|").as_str(), hex.as_str()))
    }

    /// Reads a cursor of `scope` at `elapsed` seconds from the start.
    pub fn decode(&self, value: &str, scope: CursorScope<'_>, elapsed: u64) -> (cursor: Result<
        Cursor,
        ApiError,
    >)
        ensures
            match (decoded(self.key@, scope.view(), value@, elapsed), cursor) {
                (Some(read), Ok(cursor)) => cursor == read,
                (None, Err(error)) => is_stale(error),
                _ => false,
            },
            // A cursor that was written down for the scope is read back, until it
            // expires.
            forall|written: Cursor| #[trigger]
                issued(self.key@, written, scope.view(), value@) ==> if written.expires > elapsed
                    && written.offset < MAX_ENTRIES {
                    cursor == Ok::<Cursor, ApiError>(written)
                } else {
                    cursor matches Err(error) && is_stale(error)
                },
    {
        proof {
            assert forall|written: Cursor|
                #[trigger] issued(self.key@, written, scope.view(), value@) implies authentic(
                self.key@,
                scope.view(),
                value@,
            ) && body_of(value@) == written.written() && colons(written.written()) == 3 by {
                issued_cursors_are_authentic(self.key@, written, scope.view(), value@);
                written_cursors_name_each_member_once(
                    written.token,
                    written.offset as u64,
                    written.expires,
                );
            }
        }
        if value.as_bytes().len() > MAX_CURSOR_BYTES {
            return Err(stale());
        }
        let (body, tag) = match split_at_tag(value) {
            Some(parts) => parts,
            None => {
                return Err(stale());
            },
        };
        let message = match HistorySearch::message(body.as_str(), scope) {
            Some(message) => message,
            None => {
                return Err(search_failed());
            },
        };
        let given = match digest::hex_decode(tag.as_str()) {
            Some(given) => given,
            None => {
                return Err(stale());
            },
        };
        if !digest::verify_hmac_sha256(
            self.key.as_slice(),
            message.as_slice(),
            given.as_slice(),
        ) {
            return Err(stale());
        }
        let list = json_counts(body.as_str());
        let numbers = json_numbers(body.as_str());
        match usable_cursor(&list, count_colons(body.as_str()), numbers, elapsed) {
            Some(cursor) => Ok(cursor),
            None => Err(stale()),
        }
    }
}

/// What stands behind the last bar of a written cursor.
pub open spec fn tag_of(value: Seq<char>) -> Seq<char> {
    let (_, tag) = split_tag(value)->0;
    tag
}

/// Two different pairs of a key and a message have the same tag.
pub open spec fn tags_collide(
    key: Seq<u8>,
    message: Seq<u8>,
    other_key: Seq<u8>,
    other: Seq<u8>,
) -> bool {
    &&& (key, message) != (other_key, other)
    &&& digest::hmac_sha256_of(key, message) == digest::hmac_sha256_of(other_key, other)
}

/// A tag that was issued is accepted behind a body, for a scope and under a key,
/// only where they are those that it was issued for, or two different pairs of a
/// key and a message have the same tag.
pub proof fn tags_are_bound_to_what_they_were_issued_for(
    key: Seq<u8>,
    cursor: Cursor,
    scope: ScopeView,
    value: Seq<char>,
    other_key: Seq<u8>,
    other: ScopeView,
    changed: Seq<char>,
)
    requires
        issued(key, cursor, scope, value),
        authentic(other_key, other, changed),
        tag_of(changed) == tag_of(value),
    ensures
        (other_key, body_of(changed), other) == (key, cursor.written(), scope) || tags_collide(
            key,
            message_of(cursor.written(), scope),
            other_key,
            message_of(body_of(changed), other),
        ),
{
    let message = message_of(cursor.written(), scope);
    let tag = digest::hmac_sha256_of(key, message);
    written_cursor_splits(cursor, tag);
    digest::unhex_of_hex(tag);
    let body = body_of(changed);
    let foreign = message_of(body, other);
    assert(digest::hmac_sha256_of(other_key, foreign) == tag);
    if foreign == message {
        assert(scope_json(body, other.query, other.generation, other.owner, other.collapse)
            == message);
        assert(other == scope);
    }
}

/// A cursor is accepted for another query, generation, owner or way to collapse
/// only where two different messages have the same tag under the key.
pub proof fn cursors_are_bound_to_their_scope(
    key: Seq<u8>,
    cursor: Cursor,
    scope: ScopeView,
    other: ScopeView,
    value: Seq<char>,
)
    requires
        issued(key, cursor, scope, value),
        authentic(key, other, value),
        other != scope,
    ensures
        tags_collide(
            key,
            message_of(cursor.written(), scope),
            key,
            message_of(cursor.written(), other),
        ),
{
    issued_cursors_are_authentic(key, cursor, scope, value);
    tags_are_bound_to_what_they_were_issued_for(key, cursor, scope, value, key, other, value);
}

/// A cursor that was changed before its last bar is accepted only where two
/// different messages have the same tag under the key.
pub proof fn changed_cursors_are_not_accepted(
    key: Seq<u8>,
    cursor: Cursor,
    scope: ScopeView,
    value: Seq<char>,
    changed: Seq<char>,
)
    requires
        issued(key, cursor, scope, value),
        authentic(key, scope, changed),
        tag_of(changed) == tag_of(value),
        body_of(changed) != body_of(value),
    ensures
        tags_collide(
            key,
            message_of(cursor.written(), scope),
            key,
            message_of(body_of(changed), scope),
        ),
{
    issued_cursors_are_authentic(key, cursor, scope, value);
    tags_are_bound_to_what_they_were_issued_for(key, cursor, scope, value, key, scope, changed);
}

/// A cursor of another process, which has another key, is accepted only where
/// the same message has the same tag under both.
pub proof fn cursors_are_bound_to_their_process(
    key: Seq<u8>,
    cursor: Cursor,
    scope: ScopeView,
    value: Seq<char>,
    other_key: Seq<u8>,
)
    requires
        issued(key, cursor, scope, value),
        authentic(other_key, scope, value),
        other_key != key,
    ensures
        tags_collide(
            key,
            message_of(cursor.written(), scope),
            other_key,
            message_of(cursor.written(), scope),
        ),
{
    issued_cursors_are_authentic(key, cursor, scope, value);
    tags_are_bound_to_what_they_were_issued_for(
        key,
        cursor,
        scope,
        value,
        other_key,
        scope,
        value,
    );
}

/// What is known of the history while it is collected.
pub struct Catalog {
    pub entries: Vec<EntrySummary>,
    pub current: Option<EntrySummary>,
    pub limited: bool,
}

/// What collecting goes on with.
pub enum Collected {
    /// The next page.
    More(Catalog),
    /// Nothing: the catalog is complete, or as large as it gets.
    All(Catalog),
}

impl Catalog {
    pub fn new() -> (catalog: Self)
        ensures
            catalog.entries@.len() == 0,
            catalog.current is None,
            !catalog.limited,
    {
        Catalog { entries: Vec::new(), current: None, limited: false }
    }

    /// The request for the next page.
    pub fn next_query(&self, generation: u64, collapse: bool) -> (query: HistoryQuery)
        ensures
            query.query@ == ""@,
            query.generation == generation,
            query.offset == self.entries@.len(),
            query.limit == 200,
            query.collapse_self_echoes == collapse,
    {
        HistoryQuery {
            query: "".to_owned(),
            generation,
            offset: self.entries.len(),
            limit: 200,
            collapse_self_echoes: collapse,
        }
    }

    /// The catalog with a page behind what it had.
    pub open spec fn extended(self, page: HistoryPage, result: Catalog) -> bool {
        &&& result.entries@ == self.entries@ + page.entries@
        &&& result.current == if self.current is Some {
            self.current
        } else {
            page.current
        }
        &&& result.limited == page.has_more
    }

    /// Takes in a page. One that is empty although there is more means that the
    /// history changed.
    pub fn receive(self, page: HistoryPage) -> (result: Result<Collected, ApiError>)
        ensures
            match result {
                Err(error) => page.has_more && page.entries@.len() == 0 && is_stale(error),
                Ok(collected) => {
                    let count = self.entries@.len() + page.entries@.len();
                    &&& !(page.has_more && page.entries@.len() == 0)
                    &&& match collected {
                        Collected::More(catalog) => page.has_more && count < MAX_ENTRIES
                            && self.extended(page, catalog),
                        Collected::All(catalog) => !(page.has_more && count < MAX_ENTRIES)
                            && self.extended(page, catalog),
                    }
                },
            },
    {
        if page.has_more && page.entries.len() == 0 {
            return Err(stale());
        }
        let mut entries = self.entries;
        let mut rest = page.entries;
        entries.append(&mut rest);
        let current = match self.current {
            Some(current) => Some(current),
            None => page.current,
        };
        let more: bool = page.has_more && entries.len() < MAX_ENTRIES;
        let catalog = Catalog { entries, current, limited: page.has_more };
        if more {
            Ok(Collected::More(catalog))
        } else {
            Ok(Collected::All(catalog))
        }
    }
}

/// One entry as the ranking sees it.
#[derive(Debug, PartialEq, Eq)]
pub struct SearchItem {
    pub key: String,
    pub title: String,
    pub subtitle: String,
    pub keywords: Vec<String>,
    pub score: i64,
    pub provider_priority: i32,
}

/// The name of a kind, and how it is shown.
pub open spec fn kind_names(kind: EntryKind) -> (Seq<char>, Seq<char>) {
    match kind {
        EntryKind::Text => ("text"@, "Text"@),
        EntryKind::Link => ("link"@, "Link"@),
        EntryKind::Image => ("image"@, "Image"@),
        EntryKind::Files => ("files"@, "Files"@),
        EntryKind::Html => ("html"@, "Html"@),
        EntryKind::Json => ("json"@, "Json"@),
        EntryKind::Color => ("color"@, "Color"@),
        EntryKind::Binary => ("binary"@, "Binary"@),
    }
}

fn names_of(kind: EntryKind) -> (names: (&'static str, &'static str))
    ensures
        (names.0@, names.1@) == kind_names(kind),
{
    match kind {
        EntryKind::Text => ("text", "Text"),
        EntryKind::Link => ("link", "Link"),
        EntryKind::Image => ("image", "Image"),
        EntryKind::Files => ("files", "Files"),
        EntryKind::Html => ("html", "Html"),
        EntryKind::Json => ("json", "Json"),
        EntryKind::Color => ("color", "Color"),
        EntryKind::Binary => ("binary", "Binary"),
    }
}

/// `item` is how the ranking sees an entry with `rank` entries from it to the
/// end of the history.
pub open spec fn presents(item: SearchItem, entry: EntrySummary, rank: usize) -> bool {
    let (kind, label) = kind_names(entry.kind);
    &&& item.key == entry.id
    &&& item.title@ == if entry.preview@ == ""@ {
        label + " clipboard entry"@
    } else {
        entry.preview@
    }
    &&& item.subtitle@ == label + " \u{b7} "@ + entry.mime@ + " \u{b7} "@ + text::decimal(
        entry.byte_size as nat,
    ) + " bytes"@
    &&& text::contents(item.keywords@) == seq![entry.mime@, kind]
    &&& item.score == rank as i64
    &&& item.provider_priority == 100
}

fn search_item(entry: &EntrySummary, rank: usize) -> (item: SearchItem)
    ensures
        presents(item, *entry, rank),
{
    let (kind, label) = names_of(entry.kind);
    let title = if text::same(entry.preview.as_str(), "") {
        text::join(label, " clipboard entry")
    } else {
        entry.preview.clone()
    };
    let with_mime = text::join(
        text::join(label, " \u{b7} ").as_str(),
        text::join(entry.mime.as_str(), " \u{b7} ").as_str(),
    );
    let size = text::join(text::format_u64(entry.byte_size).as_str(), " bytes");
    let subtitle = text::join(with_mime.as_str(), size.as_str());
    assert(subtitle@ =~= label@ + " \u{b7} "@ + entry.mime@ + " \u{b7} "@ + text::decimal(
        entry.byte_size as nat,
    ) + " bytes"@);
    let keywords: Vec<String> = vec![entry.mime.clone(), kind.to_owned()];
    assert(text::contents(keywords@) =~= seq![entry.mime@, kind@]);
    SearchItem {
        key: entry.id.clone(),
        title,
        subtitle,
        keywords,
        score: rank as i64,
        provider_priority: 100,
    }
}

/// The entries as the ranking sees them: what is newer scores higher.
pub fn search_items(entries: &Vec<EntrySummary>) -> (items: Vec<SearchItem>)
    ensures
        items@.len() == entries@.len(),
        forall|i: int|
            0 <= i < items@.len() ==> presents(
                #[trigger] items@[i],
                entries@[i],
                (entries@.len() - i) as usize,
            ),
{
    let mut items: Vec<SearchItem> = Vec::new();
    let mut at: usize = 0;
    while at < entries.len()
        invariant
            at <= entries@.len(),
            items@.len() == at,
            forall|i: int|
                0 <= i < at ==> presents(
                    #[trigger] items@[i],
                    entries@[i],
                    (entries@.len() - i) as usize,
                ),
        decreases entries@.len() - at,
    {
        items.push(search_item(&entries[at], entries.len() - at));
        at = at + 1;
    }
    items
}

/// Where an entry with this identifier last stands, or -1.
pub open spec fn last_with(entries: Seq<EntrySummary>, id: Seq<char>) -> int
    decreases entries.len(),
{
    if entries.len() == 0 {
        -1
    } else if entries.last().id@ == id {
        entries.len() - 1
    } else {
        last_with(entries.drop_last(), id)
    }
}

/// One of the keys is `id`.
pub open spec fn has_key(keys: Seq<String>, id: Seq<char>) -> bool {
    exists|i: int| 0 <= i < keys.len() && (#[trigger] keys[i])@ == id
}

/// The entries in the order of the keys: each key stands for the entry with that
/// identifier, once; one without an entry stands for nothing.
pub open spec fn ranked(entries: Seq<EntrySummary>, keys: Seq<String>) -> Seq<EntrySummary>
    decreases keys.len(),
{
    if keys.len() == 0 {
        Seq::empty()
    } else {
        let id = keys.last()@;
        let front = keys.drop_last();
        let at = last_with(entries, id);
        if at < 0 || has_key(front, id) {
            ranked(entries, front)
        } else {
            ranked(entries, front).push(entries[at])
        }
    }
}

proof fn last_with_bounds(entries: Seq<EntrySummary>, id: Seq<char>)
    ensures
        -1 <= last_with(entries, id) < entries.len(),
        last_with(entries, id) >= 0 ==> entries[last_with(entries, id)].id@ == id,
    decreases entries.len(),
{
    if entries.len() > 0 {
        last_with_bounds(entries.drop_last(), id);
    }
}

/// What the ranking returns are entries of the history, none twice.
pub proof fn ranking_only_reorders(entries: Seq<EntrySummary>, keys: Seq<String>)
    ensures
        forall|i: int|
            0 <= i < ranked(entries, keys).len() ==> entries.contains(
                #[trigger] ranked(entries, keys)[i],
            ) && has_key(keys, ranked(entries, keys)[i].id@),
        forall|i: int, j: int|
            0 <= i < j < ranked(entries, keys).len() ==> ranked(entries, keys)[i].id@ != ranked(
                entries,
                keys,
            )[j].id@,
    decreases keys.len(),
{
    if keys.len() > 0 {
        let id = keys.last()@;
        let front = keys.drop_last();
        ranking_only_reorders(entries, front);
        last_with_bounds(entries, id);
        let done = ranked(entries, front);
        let all = ranked(entries, keys);
        assert forall|i: int| 0 <= i < all.len() implies entries.contains(#[trigger] all[i])
            && has_key(keys, all[i].id@) by {
            if i < done.len() {
                assert(all[i] == done[i]);
                let k = choose|k: int| 0 <= k < front.len() && (#[trigger] front[k])@ == done[i].id@;
                assert(keys[k]@ == all[i].id@);
            } else {
                assert(entries[last_with(entries, id)] == all[i]);
                assert(keys[keys.len() - 1]@ == all[i].id@);
            }
        }
        assert forall|i: int, j: int| 0 <= i < j < all.len() implies all[i].id@ != all[j].id@ by {
            if j < done.len() {
                assert(all[i] == done[i] && all[j] == done[j]);
            } else {
                assert(all[i] == done[i]);
                assert(has_key(front, done[i].id@));
            }
        }
    }
}

/// Where an entry with this identifier last stands, where there is one.
fn find_last(entries: &Vec<EntrySummary>, id: &str) -> (at: Option<usize>)
    ensures
        match at {
            Some(at) => at < entries@.len() && at == last_with(entries@, id@),
            None => last_with(entries@, id@) == -1,
        },
{
    let mut end: usize = entries.len();
    assert(entries@.take(end as int) =~= entries@);
    while end > 0
        invariant
            end <= entries@.len(),
            last_with(entries@, id@) == last_with(entries@.take(end as int), id@),
        decreases end,
    {
        assert(entries@.take(end as int).drop_last() =~= entries@.take(end - 1));
        if text::same(entries[end - 1].id.as_str(), id) {
            return Some(end - 1);
        }
        end = end - 1;
    }
    None
}

/// Puts the entries in the order of the keys.
pub fn rank_entries(entries: &Vec<EntrySummary>, keys: &Vec<String>) -> (result: Vec<EntrySummary>)
    ensures
        result@ == ranked(entries@, keys@),
{
    let mut result: Vec<EntrySummary> = Vec::new();
    let mut seen = StringHashSet::new();
    let mut at: usize = 0;
    assert(keys@.take(0) =~= Seq::empty());
    while at < keys.len()
        invariant
            at <= keys@.len(),
            result@ == ranked(entries@, keys@.take(at as int)),
            forall|s: Seq<char>| seen@.contains(s) <==> has_key(keys@.take(at as int), s),
        decreases keys@.len() - at,
    {
        let ghost front = keys@.take(at as int);
        let ghost now = keys@.take(at + 1);
        assert(now.drop_last() =~= front);
        let key = keys[at].as_str();
        let known = seen.contains(key);
        if !known {
            if let Some(found) = find_last(entries, key) {
                result.push(entries[found].clone());
            }
        }
        let ghost before = seen@;
        seen.insert(key.to_owned());
        proof {
            assert forall|s: Seq<char>| seen@.contains(s) <==> has_key(now, s) by {
                if has_key(front, s) {
                    let k = choose|k: int| 0 <= k < front.len() && (#[trigger] front[k])@ == s;
                    assert(now[k]@ == s);
                }
                if s == key@ {
                    assert(now[at as int]@ == s);
                }
                if has_key(now, s) && s != key@ {
                    let k = choose|k: int| 0 <= k < now.len() && (#[trigger] now[k])@ == s;
                    assert(front[k]@ == s);
                }
            }
        }
        at = at + 1;
    }
    assert(keys@.take(at as int) =~= keys@);
    result
}

/// One page of what a search found.
#[derive(Debug, PartialEq, Eq)]
pub struct SearchPage {
    pub revision: u64,
    pub snapshot_revision: String,
    pub generation: u64,
    pub current: Option<EntrySummary>,
    pub entries: Vec<EntrySummary>,
    pub has_more: bool,
    pub next_cursor: Option<String>,
    pub total: usize,
    pub search_limited: bool,
    pub offset: usize,
}

/// Up to `limit` results from `offset` on.
pub open spec fn page_of(
    results: Seq<EntrySummary>,
    offset: int,
    limit: int,
) -> Seq<EntrySummary> {
    if offset >= results.len() {
        Seq::empty()
    } else if offset + limit >= results.len() {
        results.skip(offset)
    } else {
        results.subrange(offset, offset + limit)
    }
}

/// Where the page behind this one begins.
pub open spec fn page_end(results: Seq<EntrySummary>, offset: int, limit: int) -> int {
    offset + page_of(results, offset, limit).len()
}

/// The pages of a search follow one another without a gap or a repetition: what
/// stands before the end of a page is what stands before its begin, and the
/// page. There is a next page exactly where results are left.
pub proof fn search_pages_partition_the_results(
    results: Seq<EntrySummary>,
    offset: int,
    limit: int,
)
    requires
        0 <= offset <= results.len(),
        limit > 0,
    ensures
        page_end(results, offset, limit) <= results.len(),
        results.take(page_end(results, offset, limit)) == results.take(offset) + page_of(
            results,
            offset,
            limit,
        ),
        page_of(results, offset, limit).len() <= limit,
        offset < results.len() ==> page_end(results, offset, limit) > offset,
{
    let end = page_end(results, offset, limit);
    assert(results.take(end) =~= results.take(offset) + page_of(results, offset, limit));
}

/// `page` is the page of a search at `cursor`, and its cursor leads to the next.
pub open spec fn is_page(
    page: SearchPage,
    catalog: Catalog,
    cursor: Cursor,
    limit: int,
    scope: ScopeView,
    key: Seq<u8>,
) -> bool {
    let results = catalog.entries@;
    let end = page_end(results, cursor.offset as int, limit);
    &&& page.revision == cursor.token
    &&& page.snapshot_revision@ == text::decimal(cursor.token as nat)
    &&& page.generation == scope.generation
    &&& page.current == catalog.current
    &&& page.entries@ == page_of(results, cursor.offset as int, limit)
    &&& page.has_more == (end < results.len())
    &&& match page.next_cursor {
        Some(value) => end < results.len() && issued(
            key,
            Cursor { offset: end as usize, ..cursor },
            scope,
            value@,
        ),
        None => end >= results.len(),
    }
    &&& page.total == results.len()
    &&& page.search_limited == catalog.limited
    &&& page.offset == cursor.offset
}

impl HistorySearch {
    /// The page of a search at `cursor`.
    pub fn page(&self, catalog: Catalog, cursor: Cursor, limit: usize, scope: CursorScope<'_>) -> (page:
        Result<SearchPage, ApiError>)
        ensures
            page matches Ok(page) && is_page(
                page,
                catalog,
                cursor,
                limit as int,
                scope.view(),
                self.key@,
            ),
    {
        let total = catalog.entries.len();
        let offset = cursor.offset;
        let mut entries: Vec<EntrySummary> = Vec::new();
        let mut at: usize = offset;
        while at < total && at - offset < limit
            invariant
                total == catalog.entries@.len(),
                offset <= at,
                offset < total ==> at <= total,
                offset >= total ==> at == offset,
                at - offset <= limit,
                entries@ == if offset < total {
                    catalog.entries@.subrange(offset as int, at as int)
                } else {
                    Seq::empty()
                },
            decreases total - at,
        {
            assert(catalog.entries@.subrange(offset as int, at + 1) =~= catalog.entries@.subrange(
                offset as int,
                at as int,
            ).push(catalog.entries@[at as int]));
            entries.push(catalog.entries[at].clone());
            at = at + 1;
        }
        assert(entries@ =~= page_of(catalog.entries@, offset as int, limit as int));
        assert(at == page_end(catalog.entries@, offset as int, limit as int));
        let has_more: bool = at < total;
        let next_cursor = if has_more {
            let next = Cursor { token: cursor.token, offset: at, expires: cursor.expires };
            match self.encode(next, scope) {
                Ok(value) => Some(value),
                Err(error) => {
                    return Err(error);
                },
            }
        } else {
            None
        };
        Ok(
            SearchPage {
                revision: cursor.token,
                snapshot_revision: text::format_u64(cursor.token),
                generation: scope.generation,
                current: catalog.current,
                entries,
                has_more,
                next_cursor,
                total,
                search_limited: catalog.limited,
                offset,
            },
        )
    }

    /// Makes room for one more search, where there is room.
    pub fn acquire(&mut self) -> (result: Result<(), ApiError>)
        ensures
            final(self).key == old(self).key,
            match result {
                Ok(_) => old(self).running < MAX_SEARCHES && final(self).running
                    == old(self).running + 1,
                Err(error) => old(self).running >= MAX_SEARCHES && final(self).running == old(
                    self,
                ).running && error.is("busy"@, "Clipboard search is busy"@),
            },
    {
        if self.running < MAX_SEARCHES {
            self.running = self.running + 1;
            Ok(())
        } else {
            Err(ApiError::new("busy", "Clipboard search is busy"))
        }
    }

    /// One search is over, or needs no room any more.
    pub fn release(&mut self)
        ensures
            final(self).key == old(self).key,
            final(self).running == if old(self).running > 0 {
                old(self).running - 1
            } else {
                0
            },
    {
        if self.running > 0 {
            self.running = self.running - 1;
        }
    }
}

/// A search under way.
pub struct Search {
    pub params: QueryParams,
    pub owner: Option<String>,
    pub collapse: bool,
    pub stage: Stage,
}

/// What a search waits for.
pub enum Stage {
    /// The state of the history, to begin in.
    Opening,
    /// The next page of the history.
    Collecting { cursor: Cursor, catalog: Catalog },
    /// The state of the history, after it was collected.
    Confirming { cursor: Cursor, catalog: Catalog },
    /// The order of the results.
    Ranking { cursor: Cursor, catalog: Catalog },
    /// The state of the history, after the results were put in order.
    Finishing { cursor: Cursor, catalog: Catalog },
    Over,
}

/// What a search needs next.
pub enum SearchAction {
    /// The state of the history.
    Token,
    /// A page of the history.
    Query(HistoryQuery),
    /// The order of these items.
    Rank(Vec<SearchItem>),
    /// Nothing: this is the outcome.
    Done(Result<SearchPage, ApiError>),
}

/// What a search was given.
pub enum SearchEvent {
    Token(BackendResult<u64>),
    Page(BackendResult<HistoryPage>),
    /// The keys of the items in their order, or nothing where ranking failed.
    Ranked(Option<Vec<String>>),
}

impl Search {
    /// What the cursors of the search belong to.
    pub open spec fn scope(self) -> ScopeView {
        ScopeView {
            query: self.params.query@,
            generation: self.params.generation,
            owner: text::maybe(self.owner),
            collapse: self.collapse,
        }
    }

    /// The search is the same one, further on.
    pub open spec fn continues(self, before: Search) -> bool {
        self.params == before.params && self.owner == before.owner && self.collapse
            == before.collapse
    }

    /// The search holds a place among those that run.
    pub open spec fn holds_place(self) -> bool {
        !(self.stage is Finishing) && !(self.stage is Over)
    }
}

/// The cursor that a search begins with: the one that is given, where it can be
/// used, else one at the begin of the results.
pub open spec fn first_cursor(token: u64, elapsed: u64) -> Cursor {
    Cursor {
        token,
        offset: 0,
        expires: if elapsed <= u64::MAX - CURSOR_SECONDS {
            (elapsed + CURSOR_SECONDS) as u64
        } else {
            u64::MAX
        },
    }
}

/// The cursor that a search begins with in this state of the history: the one
/// that it was given, or one at the begin of the results.
pub open spec fn opened(key: Seq<u8>, search: Search, token: u64, elapsed: u64) -> Option<Cursor> {
    let cursor = match search.params.cursor {
        Some(value) => decoded(key, search.scope(), value@, elapsed),
        None => Some(first_cursor(token, elapsed)),
    };
    if cursor matches Some(cursor) && cursor.token == token {
        cursor
    } else {
        None
    }
}

/// `action` asks for the next page of the history.
pub open spec fn asks_for_page(action: SearchAction, search: Search, count: nat) -> bool {
    action matches SearchAction::Query(query) && query.query@ == ""@ && query.generation
        == search.params.generation && query.offset == count && query.limit == 200
        && query.collapse_self_echoes == search.collapse
}

/// What `event` makes of a search at `elapsed` seconds from the start.
pub open spec fn search_advanced(
    key: Seq<u8>,
    before: Search,
    event: SearchEvent,
    elapsed: u64,
    after: Search,
    action: SearchAction,
) -> bool {
    &&& after.continues(before)
    &&& action is Done <==> after.stage is Over
    &&& match (before.stage, event) {
        (Stage::Opening, SearchEvent::Token(Ok(token))) => match opened(
            key,
            before,
            token,
            elapsed,
        ) {
            Some(first) => {
                &&& after.stage matches Stage::Collecting { cursor, catalog } && cursor == first
                    && catalog.entries@.len() == 0 && catalog.current is None
                &&& asks_for_page(action, before, 0)
            },
            None => action matches SearchAction::Done(Err(error)) && is_stale(error),
        },
        (
            Stage::Collecting { cursor, catalog },
            SearchEvent::Page(Ok(page)),
        ) => if page.has_more && page.entries@.len() == 0 {
            action matches SearchAction::Done(Err(error)) && is_stale(error)
        } else {
            let count = catalog.entries@.len() + page.entries@.len();
            if page.has_more && count < MAX_ENTRIES {
                &&& after.stage matches Stage::Collecting { cursor: same, catalog: longer }
                    && same == cursor && catalog.extended(page, longer)
                &&& asks_for_page(action, before, count)
            } else {
                &&& after.stage matches Stage::Confirming { cursor: same, catalog: longer }
                    && same == cursor && catalog.extended(page, longer)
                &&& action is Token
            }
        },
        (Stage::Confirming { cursor, catalog }, SearchEvent::Token(Ok(token))) => if token
            != cursor.token {
            action matches SearchAction::Done(Err(error)) && is_stale(error)
        } else {
            &&& after.stage == (Stage::Ranking { cursor, catalog })
            &&& action matches SearchAction::Rank(items) && items@.len() == catalog.entries@.len()
                && forall|i: int|
                0 <= i < items@.len() ==> presents(
                    #[trigger] items@[i],
                    catalog.entries@[i],
                    (catalog.entries@.len() - i) as usize,
                )
        },
        (Stage::Ranking { cursor, catalog }, SearchEvent::Ranked(Some(keys))) => {
            &&& after.stage matches Stage::Finishing { cursor: same, catalog: ordered } && same
                == cursor && ordered.entries@ == ranked(catalog.entries@, keys@) && ordered.current
                == catalog.current && ordered.limited == catalog.limited
            &&& action is Token
        },
        (Stage::Finishing { cursor, catalog }, SearchEvent::Token(Ok(token))) => if token
            != cursor.token {
            action matches SearchAction::Done(Err(error)) && is_stale(error)
        } else {
            action matches SearchAction::Done(Ok(page)) && is_page(
                page,
                catalog,
                cursor,
                before.params.limit as int,
                before.scope(),
                key,
            )
        },
        (
            Stage::Opening | Stage::Confirming { .. } | Stage::Finishing { .. },
            SearchEvent::Token(Err(reason)),
        ) => action matches SearchAction::Done(Err(error)) && error.stems_from(reason),
        (
            Stage::Collecting { .. },
            SearchEvent::Page(Err(reason)),
        ) => action matches SearchAction::Done(Err(error)) && error.stems_from(reason),
        _ => action matches SearchAction::Done(Err(error)) && is_failed(error),
    }
}

/// What the cursors of a search belong to.
fn scope_of<'a>(params: &'a QueryParams, owner: &'a Option<String>, collapse: bool) -> (scope:
    CursorScope<'a>)
    ensures
        scope.view() == (ScopeView {
            query: params.query@,
            generation: params.generation,
            owner: text::maybe(*owner),
            collapse,
        }),
{
    CursorScope {
        query: params.query.as_str(),
        generation: params.generation,
        owner: match owner {
            Some(owner) => Some(owner.as_str()),
            None => None,
        },
        collapse,
    }
}

impl HistorySearch {
    /// Begins a search, where there is room for one.
    pub fn begin(&mut self, params: QueryParams, owner: Option<String>, collapse: bool) -> (begun:
        Result<Search, ApiError>)
        ensures
            final(self).key == old(self).key,
            match begun {
                Ok(search) => {
                    &&& old(self).running < MAX_SEARCHES
                    &&& final(self).running == old(self).running + 1
                    &&& search == (Search { params, owner, collapse, stage: Stage::Opening })
                },
                Err(error) => {
                    &&& old(self).running >= MAX_SEARCHES
                    &&& final(self).running == old(self).running
                    &&& error.is("busy"@, "Clipboard search is busy"@)
                },
            },
    {
        match self.acquire() {
            Ok(_) => Ok(Search { params, owner, collapse, stage: Stage::Opening }),
            Err(error) => Err(error),
        }
    }

    /// The cursor that a search begins with.
    fn open(&self, search: &Search, token: u64, elapsed: u64) -> (cursor: Result<Cursor, ApiError>)
        ensures
            match (opened(self.key@, *search, token, elapsed), cursor) {
                (Some(first), Ok(cursor)) => cursor == first,
                (None, Err(error)) => is_stale(error),
                _ => false,
            },
    {
        let cursor = match &search.params.cursor {
            Some(value) => {
                let scope = scope_of(&search.params, &search.owner, search.collapse);
                match self.decode(value.as_str(), scope, elapsed) {
                    Ok(cursor) => cursor,
                    Err(error) => {
                        return Err(error);
                    },
                }
            },
            None => Cursor {
                token,
                offset: 0,
                expires: if elapsed <= u64::MAX - CURSOR_SECONDS {
                    elapsed + CURSOR_SECONDS
                } else {
                    u64::MAX
                },
            },
        };
        match cursor.check(token) {
            Ok(_) => Ok(cursor),
            Err(error) => Err(error),
        }
    }

    /// Takes in what a search was given, and says what it needs next. The state
    /// of the history is compared before it is collected, after that, and after
    /// the results were put in order, so that no page of another state is
    /// returned.
    fn step(&self, search: Search, event: SearchEvent, elapsed: u64) -> (next: (
        Search,
        SearchAction,
    ))
        ensures
            search_advanced(self.key@, search, event, elapsed, next.0, next.1),
    {
        let opening: Option<u64> = match (&search.stage, &event) {
            (Stage::Opening, SearchEvent::Token(Ok(token))) => Some(*token),
            _ => None,
        };
        if let Some(token) = opening {
            let opened = self.open(&search, token, elapsed);
            let Search { params, owner, collapse, stage: _ } = search;
            return match opened {
                Ok(cursor) => {
                    let catalog = Catalog::new();
                    let query = catalog.next_query(params.generation, collapse);
                    (
                        Search {
                            params,
                            owner,
                            collapse,
                            stage: Stage::Collecting { cursor, catalog },
                        },
                        SearchAction::Query(query),
                    )
                },
                Err(error) => (
                    Search { params, owner, collapse, stage: Stage::Over },
                    SearchAction::Done(Err(error)),
                ),
            };
        }
        let Search { params, owner, collapse, stage } = search;
        let (stage, action) = match (stage, event) {
            (
                Stage::Collecting { cursor, catalog },
                SearchEvent::Page(Ok(page)),
            ) => match catalog.receive(page) {
                Ok(Collected::More(catalog)) => {
                    let query = catalog.next_query(params.generation, collapse);
                    (Stage::Collecting { cursor, catalog }, SearchAction::Query(query))
                },
                Ok(Collected::All(catalog)) => (
                    Stage::Confirming { cursor, catalog },
                    SearchAction::Token,
                ),
                Err(error) => (Stage::Over, SearchAction::Done(Err(error))),
            },
            (
                Stage::Confirming { cursor, catalog },
                SearchEvent::Token(Ok(token)),
            ) => match cursor.check(token) {
                Ok(_) => {
                    let items = search_items(&catalog.entries);
                    (Stage::Ranking { cursor, catalog }, SearchAction::Rank(items))
                },
                Err(error) => (Stage::Over, SearchAction::Done(Err(error))),
            },
            (Stage::Ranking { cursor, catalog }, SearchEvent::Ranked(Some(keys))) => {
                let entries = rank_entries(&catalog.entries, &keys);
                let ordered = Catalog {
                    entries,
                    current: catalog.current,
                    limited: catalog.limited,
                };
                (Stage::Finishing { cursor, catalog: ordered }, SearchAction::Token)
            },
            (
                Stage::Finishing { cursor, catalog },
                SearchEvent::Token(Ok(token)),
            ) => match cursor.check(token) {
                Ok(_) => {
                    let scope = scope_of(&params, &owner, collapse);
                    let page = self.page(catalog, cursor, params.limit, scope);
                    (Stage::Over, SearchAction::Done(page))
                },
                Err(error) => (Stage::Over, SearchAction::Done(Err(error))),
            },
            (
                Stage::Opening | Stage::Confirming { .. } | Stage::Finishing { .. },
                SearchEvent::Token(Err(reason)),
            ) => (Stage::Over, SearchAction::Done(Err(ApiError::from_backend(reason)))),
            (Stage::Collecting { .. }, SearchEvent::Page(Err(reason))) => (
                Stage::Over,
                SearchAction::Done(Err(ApiError::from_backend(reason))),
            ),
            _ => (Stage::Over, SearchAction::Done(Err(search_failed()))),
        };
        (Search { params, owner, collapse, stage }, action)
    }

    /// Takes in what a search was given, and says what it needs next. Once the
    /// results are in order, or the search is over, it leaves its place to
    /// another.
    pub fn advance(&mut self, search: Search, event: SearchEvent, elapsed: u64) -> (next: (
        Search,
        SearchAction,
    ))
        ensures
            final(self).key == old(self).key,
            final(self).running == if search.holds_place() && !next.0.holds_place() && old(
                self,
            ).running > 0 {
                old(self).running - 1
            } else {
                old(self).running as int
            },
            search_advanced(old(self).key@, search, event, elapsed, next.0, next.1),
    {
        let held: bool = !matches!(search.stage, Stage::Finishing { .. } | Stage::Over);
        let next = self.step(search, event, elapsed);
        if held && matches!(next.0.stage, Stage::Finishing { .. } | Stage::Over) {
            self.release();
        }
        next
    }
}

/// A page is returned only where the history is, at that moment, in the state
/// that the page and its cursor belong to.
pub proof fn pages_belong_to_the_state_of_the_history(
    key: Seq<u8>,
    before: Search,
    event: SearchEvent,
    elapsed: u64,
    after: Search,
    action: SearchAction,
)
    requires
        search_advanced(key, before, event, elapsed, after, action),
        action matches SearchAction::Done(Ok(_)),
    ensures
        action matches SearchAction::Done(Ok(page)) && event == SearchEvent::Token(
            Ok(page.revision),
        ),
{
}

} // verus!
