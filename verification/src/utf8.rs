//! UTF-8 in pieces: how much of a byte string is text, and whether what is left
//! over can still become text.
use vstd::prelude::*;
use vstd::utf8::*;

verus! {

/// More bytes could make `bytes` valid UTF-8.
pub open spec fn completable(bytes: Seq<u8>) -> bool {
    exists|rest: Seq<u8>| valid_utf8(#[trigger] (bytes + rest))
}

/// What the bytes from some point on begin with.
pub enum FirstScalar {
    /// One whole scalar value of this many bytes.
    Whole(usize),
    /// The beginning of a scalar value, cut off by the end of the bytes.
    Cut,
    /// Neither.
    Broken,
}

/// The leading byte opens a sequence of `width` bytes.
spec fn opens(first: u8, width: int) -> bool {
    ||| width == 1 && first <= 0x7f
    ||| width == 2 && 0xc2 <= first <= 0xdf
    ||| width == 3 && 0xe0 <= first <= 0xef
    ||| width == 4 && 0xf0 <= first <= 0xf4
}

/// `second` may follow the leading byte `first`.
spec fn follows(first: u8, second: u8) -> bool {
    &&& 0x80 <= second <= 0xbf
    &&& first == 0xe0 ==> 0xa0 <= second
    &&& first == 0xed ==> second <= 0x9f
    &&& first == 0xf0 ==> 0x90 <= second
    &&& first == 0xf4 ==> second <= 0x8f
}

/// `bytes` begins with a whole scalar value of `width` bytes, by byte ranges.
spec fn scalar_shape(bytes: Seq<u8>, width: int) -> bool {
    &&& bytes.len() >= width
    &&& opens(bytes[0], width)
    &&& width >= 2 ==> follows(bytes[0], bytes[1])
    &&& width >= 3 ==> is_continuation_byte(bytes[2])
    &&& width >= 4 ==> is_continuation_byte(bytes[3])
}

proof fn two_byte_range(a: u8, b: u8)
    by (bit_vector)
    requires
        0xc0 <= a <= 0xdf,
        0x80 <= b <= 0xbf,
    ensures
        0x80 <= ((((a & 0x1F) as u32) << 6) | ((b & 0x3f) as u32)) <==> 0xc2 <= a,
        ((((a & 0x1F) as u32) << 6) | ((b & 0x3f) as u32)) < 0x800,
{
}

proof fn three_byte_range(a: u8, b: u8, c: u8)
    by (bit_vector)
    requires
        0xe0 <= a <= 0xef,
        0x80 <= b <= 0xbf,
        0x80 <= c <= 0xbf,
    ensures
        0x800 <= ((((a & 0x0F) as u32) << 12) | (((b & 0x3f) as u32) << 6) | ((c & 0x3f) as u32))
            <==> (a != 0xe0 || 0xa0 <= b),
        (0xD800 <= ((((a & 0x0F) as u32) << 12) | (((b & 0x3f) as u32) << 6) | ((c & 0x3f) as u32))
            && ((((a & 0x0F) as u32) << 12) | (((b & 0x3f) as u32) << 6) | ((c & 0x3f) as u32))
            <= 0xDFFF) <==> (a == 0xed && 0x9f < b),
{
}

proof fn four_byte_range(a: u8, b: u8, c: u8, d: u8)
    by (bit_vector)
    requires
        0xf0 <= a <= 0xf7,
        0x80 <= b <= 0xbf,
        0x80 <= c <= 0xbf,
        0x80 <= d <= 0xbf,
    ensures
        0x10000 <= ((((a & 0x07) as u32) << 18) | (((b & 0x3f) as u32) << 12) | (((c
            & 0x3f) as u32) << 6) | ((d & 0x3f) as u32)) <==> (a != 0xf0 || 0x90 <= b),
        ((((a & 0x07) as u32) << 18) | (((b & 0x3f) as u32) << 12) | (((c & 0x3f) as u32) << 6) | ((
        d & 0x3f) as u32)) <= 0x10ffff <==> (a < 0xf4 || (a == 0xf4 && b <= 0x8f)),
{
}

/// The byte ranges say exactly when bytes begin with a scalar value.
proof fn shape_is_validity(bytes: Seq<u8>)
    ensures
        valid_first_scalar(bytes) <==> (exists|width: int|
            1 <= width <= 4 && scalar_shape(bytes, width)),
        forall|width: int|
            #![trigger scalar_shape(bytes, width)]
            1 <= width <= 4 && scalar_shape(bytes, width) ==> valid_first_scalar(bytes)
                && length_of_first_scalar(bytes) == width,
{
    if bytes.len() >= 1 {
        let a = bytes[0];
        if a <= 0x7f {
            assert((a & 0x7F) as u32 <= 0x7f) by (bit_vector)
                requires
                    a <= 0x7fu8,
            ;
            assert(scalar_shape(bytes, 1));
        } else if bytes.len() >= 2 && is_leading_byte_width_2(a) && is_continuation_byte(bytes[1]) {
            two_byte_range(a, bytes[1]);
            if 0xc2 <= a {
                assert(scalar_shape(bytes, 2));
            }
        } else if bytes.len() >= 3 && is_leading_byte_width_3(a) && is_continuation_byte(bytes[1])
            && is_continuation_byte(bytes[2]) {
            three_byte_range(a, bytes[1], bytes[2]);
            if follows(a, bytes[1]) {
                assert(scalar_shape(bytes, 3));
            }
        } else if bytes.len() >= 4 && is_leading_byte_width_4(a) && is_continuation_byte(bytes[1])
            && is_continuation_byte(bytes[2]) && is_continuation_byte(bytes[3]) {
            four_byte_range(a, bytes[1], bytes[2], bytes[3]);
            if a <= 0xf4 && follows(a, bytes[1]) {
                assert(scalar_shape(bytes, 4));
            }
        }
    }
}

/// A cut-off scalar value can be completed.
proof fn cut_is_completable(bytes: Seq<u8>, width: int)
    requires
        1 <= bytes.len() < width <= 4,
        opens(bytes[0], width),
        bytes.len() >= 2 ==> follows(bytes[0], bytes[1]),
        bytes.len() >= 3 ==> is_continuation_byte(bytes[2]),
    ensures
        completable(bytes),
        !valid_first_scalar(bytes),
{
    let a = bytes[0];
    let second: u8 = if bytes.len() >= 2 {
        bytes[1]
    } else if a == 0xed || a == 0xf4 {
        0x80
    } else {
        0xa0
    };
    let third: u8 = if bytes.len() >= 3 {
        bytes[2]
    } else {
        0x80
    };
    let full = seq![a, second, third, 0x80u8].subrange(0, width);
    let rest = full.subrange(bytes.len() as int, width);
    assert(bytes + rest =~= full);
    assert(scalar_shape(full, width));
    shape_is_validity(full);
    reveal_with_fuel(valid_utf8, 2);
    assert(pop_first_scalar(full) =~= Seq::<u8>::empty());
    assert(valid_utf8(bytes + rest));
    shape_is_validity(bytes);
}

/// What `bytes` begins with from `at` on.
pub fn first_scalar(bytes: &[u8], at: usize) -> (first: FirstScalar)
    requires
        at < bytes@.len(),
    ensures
        ({
            let tail = bytes@.subrange(at as int, bytes@.len() as int);
            match first {
                FirstScalar::Whole(width) => valid_first_scalar(tail) && width
                    == length_of_first_scalar(tail) && 1 <= width <= tail.len(),
                FirstScalar::Cut => !valid_first_scalar(tail) && completable(tail) && tail.len()
                    < 4,
                FirstScalar::Broken => forall|rest: Seq<u8>|
                    !valid_first_scalar(#[trigger] (tail + rest)),
            }
        }),
{
    let ghost tail = bytes@.subrange(at as int, bytes@.len() as int);
    let a: u8 = bytes[at];
    let width: usize = if a <= 0x7f {
        1
    } else if 0xc2 <= a && a <= 0xdf {
        2
    } else if 0xe0 <= a && a <= 0xef {
        3
    } else if 0xf0 <= a && a <= 0xf4 {
        4
    } else {
        proof {
            assert forall|rest: Seq<u8>| !valid_first_scalar(#[trigger] (tail + rest)) by {
                shape_is_validity(tail + rest);
                assert((tail + rest)[0] == a);
            }
        }
        return FirstScalar::Broken;
    };
    let left: usize = bytes.len() - at;
    if width >= 2 && left >= 2 {
        let b: u8 = bytes[at + 1];
        let fits: bool = 0x80 <= b && b <= 0xbf && (a != 0xe0 || 0xa0 <= b) && (a != 0xed || b
            <= 0x9f) && (a != 0xf0 || 0x90 <= b) && (a != 0xf4 || b <= 0x8f);
        if !fits {
            proof {
                assert forall|rest: Seq<u8>| !valid_first_scalar(#[trigger] (tail + rest)) by {
                    shape_is_validity(tail + rest);
                    assert((tail + rest)[0] == a && (tail + rest)[1] == b);
                }
            }
            return FirstScalar::Broken;
        }
    }
    if width >= 3 && left >= 3 && !(0x80 <= bytes[at + 2] && bytes[at + 2] <= 0xbf) {
        proof {
            assert forall|rest: Seq<u8>| !valid_first_scalar(#[trigger] (tail + rest)) by {
                shape_is_validity(tail + rest);
                assert((tail + rest)[0] == a && (tail + rest)[2] == tail[2]);
            }
        }
        return FirstScalar::Broken;
    }
    if width >= 4 && left >= 4 && !(0x80 <= bytes[at + 3] && bytes[at + 3] <= 0xbf) {
        proof {
            assert forall|rest: Seq<u8>| !valid_first_scalar(#[trigger] (tail + rest)) by {
                shape_is_validity(tail + rest);
                assert((tail + rest)[0] == a && (tail + rest)[3] == tail[3]);
            }
        }
        return FirstScalar::Broken;
    }
    if left < width {
        proof {
            cut_is_completable(tail, width as int);
        }
        return FirstScalar::Cut;
    }
    proof {
        assert(scalar_shape(tail, width as int));
        shape_is_validity(tail);
    }
    FirstScalar::Whole(width)
}

/// How far a byte string is text, and what follows.
pub struct Utf8Prefix {
    /// The bytes before this are valid UTF-8.
    pub valid: usize,
    /// What follows could still become text.
    pub completable: bool,
}

/// What comes after a valid prefix decides whether the whole can be completed.
pub proof fn completable_after_valid(head: Seq<u8>, tail: Seq<u8>)
    requires
        valid_utf8(head),
    ensures
        completable(head + tail) <==> completable(tail),
        valid_utf8(head + tail) <==> valid_utf8(tail),
{
    assert forall|rest: Seq<u8>| valid_utf8(#[trigger] ((head + tail) + rest)) <==> valid_utf8(
        tail + rest,
    ) by {
        assert((head + tail) + rest =~= head + (tail + rest));
        valid_after_valid(head, tail + rest);
    }
    if completable(tail) {
        let rest = choose|rest: Seq<u8>| valid_utf8(#[trigger] (tail + rest));
        assert(valid_utf8((head + tail) + rest));
    }
    if completable(head + tail) {
        let rest = choose|rest: Seq<u8>| valid_utf8(#[trigger] ((head + tail) + rest));
        assert(valid_utf8(tail + rest));
    }
    valid_after_valid(head, tail);
}

/// After a valid prefix, the whole is valid when the rest is.
proof fn valid_after_valid(head: Seq<u8>, tail: Seq<u8>)
    requires
        valid_utf8(head),
    ensures
        valid_utf8(head + tail) <==> valid_utf8(tail),
{
    let whole = head + tail;
    assert(whole.subrange(0, head.len() as int) =~= head);
    assert(whole.subrange(head.len() as int, whole.len() as int) =~= tail);
    if valid_utf8(tail) {
        valid_utf8_concat(head, tail);
    } else {
        partial_valid_partial_invalid_utf8(whole, head.len() as int);
    }
}

/// What cannot be completed stays so.
pub proof fn stays_broken(bytes: Seq<u8>, more: Seq<u8>)
    requires
        !completable(bytes),
    ensures
        !completable(bytes + more),
{
    if completable(bytes + more) {
        let rest = choose|rest: Seq<u8>| valid_utf8(#[trigger] ((bytes + more) + rest));
        assert((bytes + more) + rest =~= bytes + (more + rest));
        assert(valid_utf8(bytes + (more + rest)));
    }
}

/// Splits `bytes` into its longest valid prefix and the rest, which is empty,
/// the beginning of one scalar value, or not text.
pub fn longest_valid(bytes: &[u8]) -> (prefix: Utf8Prefix)
    ensures
        prefix.valid <= bytes@.len(),
        valid_utf8(bytes@.take(prefix.valid as int)),
        prefix.completable <==> completable(bytes@),
        prefix.valid == bytes@.len() <==> valid_utf8(bytes@),
        prefix.completable ==> completable(bytes@.skip(prefix.valid as int)) && bytes@.len()
            - prefix.valid < 4,
        prefix.valid < bytes@.len() ==> !valid_first_scalar(bytes@.skip(prefix.valid as int)),
{
    let mut at: usize = 0;
    assert(valid_utf8(bytes@.take(0)));
    while at < bytes.len()
        invariant
            at <= bytes@.len(),
            valid_utf8(bytes@.take(at as int)),
        decreases bytes@.len() - at,
    {
        let ghost head = bytes@.take(at as int);
        let ghost tail = bytes@.subrange(at as int, bytes@.len() as int);
        assert(head + tail =~= bytes@);
        assert(bytes@.skip(at as int) =~= tail);
        match first_scalar(bytes, at) {
            FirstScalar::Whole(width) => {
                proof {
                    partial_valid_utf8_extend(bytes@, at as int);
                    assert(bytes@.take(at + width) =~= bytes@.subrange(0, at + width));
                }
                at = at + width;
            },
            FirstScalar::Cut => {
                proof {
                    completable_after_valid(head, tail);
                }
                return Utf8Prefix { valid: at, completable: true };
            },
            FirstScalar::Broken => {
                proof {
                    completable_after_valid(head, tail);
                    assert(tail + Seq::<u8>::empty() =~= tail);
                    assert forall|rest: Seq<u8>| !valid_utf8(#[trigger] (tail + rest)) by {
                        assert((tail + rest).len() > 0);
                    }
                }
                return Utf8Prefix { valid: at, completable: false };
            },
        }
    }
    proof {
        assert(bytes@.take(at as int) =~= bytes@);
        assert(bytes@ + Seq::<u8>::empty() =~= bytes@);
        assert(bytes@.skip(at as int) + Seq::<u8>::empty() =~= Seq::<u8>::empty());
    }
    Utf8Prefix { valid: at, completable: true }
}

/// Decoding goes piece by piece.
pub proof fn decode_concat(a: Seq<u8>, b: Seq<u8>)
    requires
        valid_utf8(a),
        valid_utf8(b),
    ensures
        valid_utf8(a + b),
        decode_utf8(a + b) == decode_utf8(a) + decode_utf8(b),
    decreases a.len(),
{
    valid_utf8_concat(a, b);
    if a.len() == 0 {
        assert(a + b =~= b);
        assert(decode_utf8(a) + decode_utf8(b) =~= decode_utf8(b));
    } else {
        let rest = pop_first_scalar(a);
        decode_concat(rest, b);
        assert(pop_first_scalar(a + b) =~= rest + b);
        assert(decode_utf8(a + b) =~= decode_utf8(a) + decode_utf8(b));
    }
}

/// Encoding goes piece by piece.
pub proof fn encode_concat(a: Seq<char>, b: Seq<char>)
    ensures
        encode_utf8(a + b) == encode_utf8(a) + encode_utf8(b),
    decreases a.len(),
{
    if a.len() == 0 {
        assert(a + b =~= b);
        assert(encode_utf8(a) + encode_utf8(b) =~= encode_utf8(b));
    } else {
        encode_concat(a.drop_first(), b);
        assert((a + b).drop_first() =~= a.drop_first() + b);
        assert(encode_utf8(a + b) =~= encode_utf8(a) + encode_utf8(b));
    }
}

} // verus!
