//! Full-text search without retaining complete clipboard values in memory.
use crate::stream::{Read, ReadFailed};
use crate::stream;
use crate::text;
use crate::utf8;
use vstd::prelude::*;
use vstd::string::*;
use vstd::utf8::*;

verus! {

/// The lower-case form of `c`, as `char::to_lowercase` gives it.
pub uninterp spec fn lowercase_of(c: char) -> Seq<char>;

/// `char::to_lowercase`: the lower-case form is a fixed sequence of characters
/// for each character, which the Unicode tables give; of an ASCII character it
/// is one character.
#[verifier::external_body]
pub(crate) fn lowercase(c: char) -> (lower: String)
    ensures
        lower@ == lowercase_of(c),
        c <= '\u{7f}' ==> lower@ == seq![text::ascii_lower(c)],
{
    c.to_lowercase().to_string()
}

/// Each character of `s` in lower case.
pub open spec fn folded(s: Seq<char>) -> Seq<char>
    decreases s.len(),
{
    if s.len() == 0 {
        Seq::empty()
    } else {
        lowercase_of(s[0]) + folded(s.drop_first())
    }
}

/// Folding goes piece by piece.
pub proof fn folded_concat(a: Seq<char>, b: Seq<char>)
    ensures
        folded(a + b) == folded(a) + folded(b),
    decreases a.len(),
{
    if a.len() == 0 {
        assert(a + b =~= b);
        assert(folded(a) + folded(b) =~= folded(b));
    } else {
        folded_concat(a.drop_first(), b);
        assert((a + b).drop_first() =~= a.drop_first() + b);
        assert(folded(a + b) =~= folded(a) + folded(b));
    }
}

/// `value` with each character in lower case.
pub fn fold(value: &str) -> (result: String)
    ensures
        result@ == folded(value@),
{
    let chars = text::chars_of(value);
    let mut result = String::new();
    for i in 0..chars.len()
        invariant
            chars@ == value@,
            result@ == folded(value@.take(i as int)),
    {
        let lower = lowercase(chars[i]);
        result.append(lower.as_str());
        proof {
            let one = seq![value@[i as int]];
            assert(value@.take(i + 1) =~= value@.take(i as int) + one);
            folded_concat(value@.take(i as int), one);
            reveal_with_fuel(folded, 2);
            assert(folded(one) =~= lowercase_of(value@[i as int]));
        }
    }
    assert(value@.take(chars@.len() as int) =~= value@);
    result
}

/// The bytes of the folded text that `bytes` holds.
pub open spec fn folded_bytes(bytes: Seq<u8>) -> Seq<u8> {
    encode_utf8(folded(decode_utf8(bytes)))
}

/// Folding bytes goes piece by piece.
proof fn folded_bytes_concat(a: Seq<u8>, b: Seq<u8>)
    requires
        valid_utf8(a),
        valid_utf8(b),
    ensures
        valid_utf8(a + b),
        folded_bytes(a + b) == folded_bytes(a) + folded_bytes(b),
{
    utf8::decode_concat(a, b);
    folded_concat(decode_utf8(a), decode_utf8(b));
    utf8::encode_concat(folded(decode_utf8(a)), folded(decode_utf8(b)));
}

/// The last `k` bytes of `text` are the first `k` bytes of `needle`.
pub open spec fn ends_with_prefix(needle: Seq<u8>, k: int, text: Seq<u8>) -> bool {
    &&& 0 <= k <= needle.len()
    &&& k <= text.len()
    &&& forall|i: int| 0 <= i < k ==> text[text.len() - k + i] == #[trigger] needle[i]
}

/// `m` is the length of the longest prefix of `needle` shorter than `bound`
/// that `text` ends with.
pub open spec fn longest_prefix(needle: Seq<u8>, bound: int, m: int, text: Seq<u8>) -> bool {
    &&& ends_with_prefix(needle, m, text)
    &&& m < bound
    &&& forall|k: int| k < bound && #[trigger] ends_with_prefix(needle, k, text) ==> k <= m
}

/// `needle` occurs in `text`.
pub open spec fn occurs(needle: Seq<u8>, text: Seq<u8>) -> bool {
    exists|at: int| occurs_at(needle, text, at)
}

/// `needle` occurs in `text` at byte `at`.
pub open spec fn occurs_at(needle: Seq<u8>, text: Seq<u8>, at: int) -> bool {
    0 <= at <= text.len() - needle.len() && text.subrange(at, at + needle.len()) == needle
}

/// The characters of `needle` stand in `text` at `at`.
pub open spec fn stands_at(needle: Seq<char>, text: Seq<char>, at: int) -> bool {
    0 <= at <= text.len() - needle.len() && text.subrange(at, at + needle.len()) == needle
}

proof fn text_of_bytes(needle: Seq<char>, text: Seq<char>, at: int) -> (from: int)
    requires
        needle.len() > 0,
        occurs_at(encode_utf8(needle), encode_utf8(text), at),
    ensures
        stands_at(needle, text, from),
{
    let n = encode_utf8(needle);
    let t = encode_utf8(text);
    encode_utf8_valid_utf8(needle);
    encode_utf8_valid_utf8(text);
    encode_utf8_decode_utf8(needle);
    encode_utf8_decode_utf8(text);
    encode_utf8_first_scalar(needle);
    let head = t.take(at);
    let rest = t.skip(at);
    let tail = rest.skip(n.len() as int);
    assert(rest =~= n + tail);
    assert(t[at] == n[0]);
    assert(!is_continuation_byte(n[0]));
    is_char_boundary_iff_not_is_continuation_byte(t, at);
    valid_utf8_split(t, at);
    assert(head =~= t.subrange(0, at));
    assert(rest =~= t.subrange(at, t.len() as int));
    utf8::completable_after_valid(n, tail);
    utf8::decode_concat(n, tail);
    utf8::decode_concat(head, rest);
    assert(head + rest =~= t);
    let from = decode_utf8(head).len() as int;
    assert(text.subrange(from, from + needle.len()) =~= needle);
    from
}

proof fn bytes_of_text(needle: Seq<char>, text: Seq<char>, at: int) -> (from: int)
    requires
        stands_at(needle, text, at),
    ensures
        occurs_at(encode_utf8(needle), encode_utf8(text), from),
{
    let n = encode_utf8(needle);
    let t = encode_utf8(text);
    let head = text.take(at);
    let tail = text.skip(at + needle.len());
    assert(text =~= head + (needle + tail));
    utf8::encode_concat(needle, tail);
    utf8::encode_concat(head, needle + tail);
    let from = encode_utf8(head).len() as int;
    assert(t.subrange(from, from + n.len()) =~= n);
    from
}

/// Looking for the bytes of a text in the bytes of another finds exactly the
/// places where its characters stand there.
pub proof fn byte_search_is_text_search(needle: Seq<char>, text: Seq<char>)
    ensures
        occurs(encode_utf8(needle), encode_utf8(text)) <==> exists|at: int|
            stands_at(needle, text, at),
{
    let n = encode_utf8(needle);
    let t = encode_utf8(text);
    if needle.len() == 0 {
        assert(text.subrange(0, 0int + needle.len()) =~= needle);
        assert(stands_at(needle, text, 0));
        let from = bytes_of_text(needle, text, 0);
        assert(occurs_at(n, t, from));
    } else {
        if occurs(n, t) {
            let at = choose|at: int| occurs_at(n, t, at);
            let from = text_of_bytes(needle, text, at);
            assert(stands_at(needle, text, from));
        }
        if exists|at: int| stands_at(needle, text, at) {
            let at = choose|at: int| stands_at(needle, text, at);
            let from = bytes_of_text(needle, text, at);
            assert(occurs_at(n, t, from));
        }
    }
}

/// The first `n` fallbacks are right.
spec fn prepared(needle: Seq<u8>, fallback: Seq<usize>, n: int) -> bool {
    &&& fallback.len() == needle.len()
    &&& n <= needle.len()
    &&& forall|m: int|
        #![trigger fallback[m]]
        0 <= m < n ==> longest_prefix(
            needle,
            m + 1,
            fallback[m] as int,
            needle.subrange(1, m + 1),
        )
}

/// One step of the search: from the longest prefix that the text ends with
/// to the longest that it ends with after one more byte.
fn advance(
    pattern: &[u8],
    fallback: &[usize],
    start: usize,
    byte: u8,
    Ghost(text): Ghost<Seq<u8>>,
) -> (next: usize)
    requires
        prepared(pattern@, fallback@, start as int),
        longest_prefix(pattern@, pattern@.len() as int, start as int, text),
    ensures
        longest_prefix(
            pattern@,
            pattern@.len() as int + 1,
            next as int,
            text.push(byte),
        ),
        next <= start + 1,
{
    let length: usize = pattern.len();
    let mut matched: usize = start;
    let ghost extended = text.push(byte);
    let ghost needle = pattern@;
    assert forall|k: int| ends_with_prefix(needle, k, extended) implies k - 1 <= matched by {
        if k > 0 {
            assert(ends_with_prefix(needle, k - 1, text)) by {
                assert forall|i: int| 0 <= i < k - 1 implies text[text.len() - (k - 1) + i]
                    == #[trigger] needle[i] by {
                    assert(extended[extended.len() - k + i] == needle[i]);
                }
            }
        }
    }
    while matched > 0 && byte != pattern[matched]
        invariant
            needle == pattern@,
            extended == text.push(byte),
            prepared(pattern@, fallback@, start as int),
            matched <= start,
            start < needle.len() == length,
            ends_with_prefix(needle, matched as int, text),
            forall|k: int| #[trigger]
                ends_with_prefix(needle, k, extended) ==> k - 1 <= matched,
        decreases matched,
    {
        let shorter: usize = fallback[matched - 1];
        proof {
            let tail = needle.subrange(1, matched as int);
            assert(longest_prefix(needle, matched as int, shorter as int, tail));
            assert forall|k: int| #[trigger]
                ends_with_prefix(needle, k, extended) implies k - 1 <= shorter by {
                if k > 0 {
                    assert(extended[extended.len() - k + (k - 1)] == needle[k - 1]);
                    assert(k - 1 < matched);
                    assert(ends_with_prefix(needle, k - 1, tail)) by {
                        assert forall|i: int| 0 <= i < k - 1 implies tail[tail.len() - (k - 1)
                            + i] == #[trigger] needle[i] by {
                            assert(extended[extended.len() - k + i] == needle[i]);
                            assert(text[text.len() - (k - 1) + i] == needle[i]);
                            let j = matched - (k - 1) + i;
                            assert(text[text.len() - matched + j] == needle[j]);
                        }
                    }
                }
            }
            assert forall|i: int| 0 <= i < shorter implies text[text.len() - shorter + i]
                == #[trigger] needle[i] by {
                assert(tail[tail.len() - shorter + i] == needle[i]);
                let j = matched - shorter + i;
                assert(text[text.len() - matched + j] == needle[j]);
            }
        }
        matched = shorter;
    }
    if byte == pattern[matched] {
        proof {
            let k = matched + 1;
            assert forall|i: int| 0 <= i < k implies extended[extended.len() - k + i]
                == #[trigger] needle[i] by {
                if i < matched {
                    assert(text[text.len() - matched + i] == needle[i]);
                }
            }
            assert(ends_with_prefix(needle, k as int, extended));
        }
        matched + 1
    } else {
        proof {
            assert forall|k: int| #[trigger] ends_with_prefix(needle, k, extended) implies k
                <= 0 by {
                if k > 0 {
                    assert(extended[extended.len() - k + (k - 1)] == needle[k - 1]);
                }
            }
            assert(ends_with_prefix(needle, 0, extended));
        }
        matched
    }
}

/// A needle prepared for searching: the folded bytes and, for each prefix, the
/// length of its longest proper prefix that is also its suffix.
pub struct Matcher {
    needle: Vec<u8>,
    fallback: Vec<usize>,
}

impl Matcher {
    /// The bytes that are looked for.
    pub closed spec fn needle(self) -> Seq<u8> {
        self.needle@
    }

    #[verifier::type_invariant]
    spec fn ready(self) -> bool {
        prepared(self.needle@, self.fallback@, self.needle@.len() as int)
    }

    /// Prepares `needle`, folded, for searching.
    pub fn new(needle: &str) -> (matcher: Self)
        ensures
            matcher.needle() == encode_utf8(folded(needle@)),
    {
        let lower = fold(needle);
        let bytes = lower.as_str().as_bytes();
        let mut copy: Vec<u8> = Vec::new();
        copy.extend_from_slice(bytes);
        assert(copy@ =~= bytes@);
        let length: usize = copy.len();
        let mut fallback: Vec<usize> = Vec::new();
        for i in 0..length
            invariant
                fallback@.len() == i,
                forall|j: int| 0 <= j < i ==> fallback@[j] == 0,
        {
            fallback.push(0);
        }
        if length == 0 {
            return Matcher { needle: copy, fallback };
        }
        let mut index: usize = 1;
        assert(copy@.subrange(1, 1) =~= Seq::empty());
        while index < length
            invariant
                1 <= index <= length,
                length == copy@.len(),
                copy@ == bytes@,
                prepared(copy@, fallback@, index as int),
            decreases length - index,
        {
            let ghost text = copy@.subrange(1, index as int);
            let from: usize = fallback[index - 1];
            assert(longest_prefix(copy@, index as int, from as int, text));
            let byte: u8 = copy[index];
            let next: usize = advance(
                copy.as_slice(),
                fallback.as_slice(),
                from,
                byte,
                Ghost(text),
            );
            assert(text.push(byte) =~= copy@.subrange(1, index + 1));
            let ghost before = fallback@;
            fallback.set(index, next);
            proof {
                assert forall|m: int| #![trigger fallback@[m]] 0 <= m < index + 1 implies
                    longest_prefix(
                    copy@,
                    m + 1,
                    fallback@[m] as int,
                    copy@.subrange(1, m + 1),
                ) by {
                    if m < index {
                        assert(fallback@[m] == before[m]);
                    }
                }
            }
            index = index + 1;
        }
        Matcher { needle: copy, fallback }
    }

    /// Continues the search over `text`.
    fn feed(&self, text: &str, scan: &mut Scan)
        requires
            self.ready(),
            self.needle@.len() > 0,
            self.tracks(*old(scan), old(scan).text@),
        ensures
            self.tracks(*final(scan), old(scan).text@ + encode_utf8(folded(text@))),
            final(scan).carry@ == old(scan).carry@,
            final(scan).broken == old(scan).broken,
            final(scan).seen == old(scan).seen,
    {
        let ghost before = scan.text@;
        let lower = fold(text);
        let bytes = lower.as_str().as_bytes();
        for i in 0..bytes.len()
            invariant
                self.ready(),
                self.needle@.len() > 0,
                bytes@ == encode_utf8(folded(text@)),
                self.tracks(*scan, before + bytes@.take(i as int)),
                scan.carry@ == old(scan).carry@,
                scan.broken == old(scan).broken,
                scan.seen == old(scan).seen,
        {
            let ghost upto = before + bytes@.take(i as int);
            let ghost after = before + bytes@.take(i + 1);
            let byte: u8 = bytes[i];
            let next: usize = advance(
                self.needle.as_slice(),
                self.fallback.as_slice(),
                scan.matched,
                byte,
                Ghost(upto),
            );
            assert(after =~= upto.push(byte));
            if next == self.needle.len() {
                proof {
                    self.match_ends_here(after);
                }
                scan.found = true;
                scan.matched = self.fallback[next - 1];
            } else {
                proof {
                    self.no_match_ends_here(upto, byte, next as int);
                }
                scan.matched = next;
            }
            scan.text = Ghost(after);
        }
        assert(bytes@.take(bytes@.len() as int) =~= bytes@);
    }

    /// `scan` stands where the search stands after `text`.
    spec fn tracks(self, scan: Scan, text: Seq<u8>) -> bool {
        &&& scan.text@ == text
        &&& longest_prefix(self.needle@, self.needle@.len() as int, scan.matched as int, text)
        &&& scan.found == occurs(self.needle@, text)
    }

    /// Where the whole needle ends the text, the next shorter prefix is the
    /// needle's own fallback.
    proof fn match_ends_here(self, text: Seq<u8>)
        requires
            self.ready(),
            self.needle@.len() > 0,
            ends_with_prefix(self.needle@, self.needle@.len() as int, text),
        ensures
            occurs(self.needle@, text),
            longest_prefix(
                self.needle@,
                self.needle@.len() as int,
                self.fallback@[self.needle@.len() - 1] as int,
                text,
            ),
    {
        let needle = self.needle@;
        let n = needle.len() as int;
        let shorter = self.fallback@[n - 1] as int;
        let tail = needle.subrange(1, n);
        assert(longest_prefix(needle, n, shorter, tail));
        assert(text.subrange(text.len() - n, text.len() - n + n) =~= needle);
        assert(occurs_at(needle, text, text.len() - n));
        assert forall|i: int| 0 <= i < shorter implies text[text.len() - shorter + i]
            == #[trigger] needle[i] by {
            assert(tail[tail.len() - shorter + i] == needle[i]);
            let j = n - shorter + i;
            assert(text[text.len() - n + j] == needle[j]);
        }
        assert forall|k: int| k < n && #[trigger] ends_with_prefix(needle, k, text) implies k
            <= shorter by {
            assert(ends_with_prefix(needle, k, tail)) by {
                assert forall|i: int| 0 <= i < k implies tail[tail.len() - k + i]
                    == #[trigger] needle[i] by {
                    assert(text[text.len() - k + i] == needle[i]);
                    let j = n - k + i;
                    assert(text[text.len() - n + j] == needle[j]);
                }
            }
        }
    }

    /// Where the longest prefix is not the whole needle, the last byte completes
    /// no occurrence.
    proof fn no_match_ends_here(self, text: Seq<u8>, byte: u8, next: int)
        requires
            self.needle@.len() > 0,
            longest_prefix(self.needle@, self.needle@.len() as int + 1, next, text.push(byte)),
            next < self.needle@.len(),
        ensures
            occurs(self.needle@, text.push(byte)) == occurs(self.needle@, text),
            longest_prefix(self.needle@, self.needle@.len() as int, next, text.push(byte)),
    {
        let needle = self.needle@;
        let n = needle.len() as int;
        let longer = text.push(byte);
        if occurs(needle, longer) {
            let at = choose|at: int| occurs_at(needle, longer, at);
            if at + n == longer.len() {
                assert forall|i: int| 0 <= i < n implies longer[longer.len() - n + i]
                    == #[trigger] needle[i] by {
                    assert(longer.subrange(at, at + n)[i] == longer[at + i]);
                }
                assert(ends_with_prefix(needle, n, longer));
                assert(false);
            }
            assert(text.subrange(at, at + n) =~= longer.subrange(at, at + n));
            assert(occurs_at(needle, text, at));
        }
        if occurs(needle, text) {
            let at = choose|at: int| occurs_at(needle, text, at);
            assert(text.subrange(at, at + n) =~= longer.subrange(at, at + n));
            assert(occurs_at(needle, longer, at));
        }
    }

    /// Starts a search.
    pub fn begin(&self) -> (scan: Scan)
        ensures
            scan.of(*self),
            scan@ == Seq::<u8>::empty(),
    {
        proof {
            use_type_invariant(self);
            let needle = self.needle@;
            let nothing = Seq::<u8>::empty();
            assert(nothing + nothing =~= nothing);
            reveal_with_fuel(folded, 1);
            assert(folded_bytes(nothing) =~= nothing);
            assert(ends_with_prefix(needle, 0, nothing));
            if needle.len() > 0 {
                assert forall|at: int| !occurs_at(needle, nothing, at) by {}
            }
        }
        Scan {
            carry: Vec::new(),
            matched: 0,
            found: false,
            broken: false,
            seen: Ghost(Seq::empty()),
            text: Ghost(Seq::empty()),
        }
    }

    /// Continues the search with the next bytes of the input.
    pub fn push(&self, scan: &mut Scan, chunk: &[u8])
        requires
            old(scan).of(*self),
        ensures
            final(scan).of(*self),
            final(scan)@ == old(scan)@ + chunk@,
    {
        proof {
            use_type_invariant(self);
        }
        let ghost seen = scan.seen@ + chunk@;
        if scan.broken {
            scan.seen = Ghost(seen);
            proof {
                utf8::stays_broken(old(scan).seen@, chunk@);
            }
            return;
        }
        let ghost done = old(scan).done();
        let mut pending: Vec<u8> = Vec::new();
        pending.extend_from_slice(scan.carry.as_slice());
        pending.extend_from_slice(chunk);
        assert(pending@ =~= scan.carry@ + chunk@);
        assert(seen =~= done + pending@);
        let prefix = utf8::longest_valid(pending.as_slice());
        proof {
            utf8::completable_after_valid(done, pending@);
        }
        if !prefix.completable {
            scan.broken = true;
            scan.seen = Ghost(seen);
            return;
        }
        let ghost valid = pending@.take(prefix.valid as int);
        let rest = pending.split_off(prefix.valid);
        assert(pending@ =~= valid);
        if self.needle.len() > 0 {
            match text::text_of(pending.as_slice()) {
                Some(piece) => {
                    self.feed(piece, scan);
                },
                None => {},
            }
        }
        proof {
            folded_bytes_concat(done, valid);
            assert(seen =~= (done + valid) + rest@);
            assert(seen.take(seen.len() - rest@.len()) =~= done + valid);
            if self.needle@.len() == 0 {
                scan.text = Ghost(folded_bytes(done + valid));
            }
        }
        scan.carry = rest;
        scan.seen = Ghost(seen);
    }

    /// The answer once all of the input has been seen. A match is no success
    /// until the entire input is valid UTF-8.
    pub fn finish(&self, scan: &Scan) -> (found: bool)
        requires
            scan.of(*self),
        ensures
            found == (self.needle().len() == 0 || (valid_utf8(scan@) && occurs(
                self.needle(),
                folded_bytes(scan@),
            ))),
    {
        proof {
            if !scan.broken {
                utf8::completable_after_valid(scan.done(), scan.carry@);
                assert(scan.done() + scan.carry@ =~= scan.seen@);
                if scan.carry@.len() == 0 {
                    assert(scan.done() =~= scan.seen@);
                }
            } else {
                assert(scan.seen@ + Seq::<u8>::empty() =~= scan.seen@);
            }
        }
        if self.needle.len() == 0 {
            return true;
        }
        !scan.broken && scan.found && scan.carry.len() == 0
    }

    /// Searches an input that arrives in `reads`. An interrupted read is made
    /// again, an empty one ends the input, and a failed one ends the search
    /// unless the input was already known not to be text.
    pub fn contains(&self, reads: &[Read]) -> (found: Result<bool, ReadFailed>)
        ensures
            self.needle().len() == 0 ==> found == Ok::<bool, ReadFailed>(true),
            self.needle().len() > 0 ==> ({
                let (input, failed) = stream::read_input(reads@);
                if !utf8::completable(input) {
                    found == Ok::<bool, ReadFailed>(false)
                } else if failed {
                    found is Err
                } else {
                    found == Ok::<bool, ReadFailed>(
                        valid_utf8(input) && occurs(self.needle(), folded_bytes(input)),
                    )
                }
            }),
    {
        if self.needle.len() == 0 {
            return Ok(true);
        }
        let mut scan = self.begin();
        let mut at: usize = 0;
        assert(reads@.skip(0) =~= reads@);
        assert(scan@ + stream::read_input(reads@).0 =~= stream::read_input(reads@).0);
        while at < reads.len()
            invariant
                at <= reads@.len(),
                scan.of(*self),
                self.needle@.len() > 0,
                stream::read_input(reads@).0 == scan@ + stream::read_input(reads@.skip(at as int)).0,
                stream::read_input(reads@).1 == stream::read_input(reads@.skip(at as int)).1,
            decreases reads@.len() - at,
        {
            let ghost rest = reads@.skip(at as int);
            assert(rest.drop_first() =~= reads@.skip(at + 1));
            match &reads[at] {
                Read::Interrupted => {},
                Read::Failed => {
                    if scan.broken {
                        return Ok(false);
                    }
                    proof {
                        scan.open_unless_broken();
                        assert(scan@ + Seq::<u8>::empty() =~= scan@);
                    }
                    return Err(ReadFailed);
                },
                Read::Data(chunk) => {
                    if chunk.len() == 0 {
                        proof {
                            scan.open_unless_broken();
                            assert(scan@ + Seq::<u8>::empty() =~= scan@);
                        }
                        return Ok(self.finish(&scan));
                    }
                    let ghost before = scan@;
                    self.push(&mut scan, chunk.as_slice());
                    if scan.broken {
                        proof {
                            utf8::stays_broken(scan@, stream::read_input(rest.drop_first()).0);
                            assert(before + stream::read_input(rest).0 =~= scan@ + stream::read_input(
                                rest.drop_first(),
                            ).0);
                        }
                        return Ok(false);
                    }
                    assert(before + stream::read_input(rest).0 =~= scan@ + stream::read_input(
                        rest.drop_first(),
                    ).0);
                },
            }
            at = at + 1;
        }
        proof {
            scan.open_unless_broken();
            assert(scan@ + Seq::<u8>::empty() =~= scan@);
        }
        Ok(self.finish(&scan))
    }
}

/// How far a search has come.
pub struct Scan {
    carry: Vec<u8>,
    matched: usize,
    found: bool,
    broken: bool,
    seen: Ghost<Seq<u8>>,
    text: Ghost<Seq<u8>>,
}

impl View for Scan {
    type V = Seq<u8>;

    /// The bytes of the input so far.
    closed spec fn view(&self) -> Seq<u8> {
        self.seen@
    }
}

impl Scan {
    /// The input without the bytes that are held back.
    spec fn done(self) -> Seq<u8> {
        self.seen@.take(self.seen@.len() - self.carry@.len())
    }

    /// What is not known to be broken can still become text.
    proof fn open_unless_broken(self)
        requires
            exists|matcher: Matcher| self.of(matcher),
        ensures
            self.broken == !utf8::completable(self@),
    {
        if !self.broken {
            utf8::completable_after_valid(self.done(), self.carry@);
        }
    }

    /// This is a search of `matcher`.
    pub closed spec fn of(self, matcher: Matcher) -> bool {
        &&& matcher.ready()
        &&& self.broken ==> !utf8::completable(self.seen@)
        &&& !self.broken ==> {
            &&& self.carry@.len() <= self.seen@.len()
            &&& self.seen@ == self.done() + self.carry@
            &&& valid_utf8(self.done())
            &&& utf8::completable(self.carry@)
            &&& self.carry@.len() > 0 ==> !valid_first_scalar(self.carry@)
            &&& self.text@ == folded_bytes(self.done())
            &&& matcher.needle@.len() > 0 ==> matcher.tracks(self, self.text@)
        }
    }
}

} // verus!
