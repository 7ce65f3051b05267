//! Byte strings.
use vstd::prelude::*;
use vstd::string::*;
use vstd::utf8::*;

verus! {

/// The first `limit` bytes, or all.
pub open spec fn head_of(bytes: Seq<u8>, limit: usize) -> Seq<u8> {
    if bytes.len() <= limit {
        bytes
    } else {
        bytes.take(limit as int)
    }
}

/// A copy of the first `limit` bytes, or of all.
pub fn first_bytes(bytes: &[u8], limit: usize) -> (result: Vec<u8>)
    ensures
        result@ == head_of(bytes@, limit),
{
    let n: usize = if bytes.len() <= limit {
        bytes.len()
    } else {
        limit
    };
    let mut result: Vec<u8> = Vec::new();
    for i in 0..n
        invariant
            n <= bytes@.len(),
            result@ == bytes@.take(i as int),
    {
        result.push(bytes[i]);
        assert(bytes@.take(i + 1) =~= bytes@.take(i as int).push(bytes@[i as int]));
    }
    assert(bytes@.take(bytes@.len() as int) =~= bytes@);
    result
}

/// A copy of the bytes from `from` up to `to`.
pub fn copy_range(bytes: &[u8], from: usize, to: usize) -> (result: Vec<u8>)
    requires
        from <= to <= bytes@.len(),
    ensures
        result@ == bytes@.subrange(from as int, to as int),
{
    let mut result: Vec<u8> = Vec::new();
    for i in from..to
        invariant
            from <= to <= bytes@.len(),
            result@ == bytes@.subrange(from as int, i as int),
    {
        result.push(bytes[i]);
        assert(bytes@.subrange(from as int, i + 1) =~= bytes@.subrange(from as int, i as int).push(
            bytes@[i as int],
        ));
    }
    result
}

/// The bytes of `prefix` followed by `parts`.
pub fn tagged(prefix: &str, parts: &[u8]) -> (bytes: Vec<u8>)
    ensures
        bytes@ == encode_utf8(prefix@) + parts@,
{
    let mut bytes: Vec<u8> = Vec::new();
    bytes.extend_from_slice(prefix.as_bytes());
    bytes.extend_from_slice(parts);
    assert(bytes@ =~= encode_utf8(prefix@) + parts@);
    bytes
}

/// Appends bytes to others.
pub fn append(bytes: &mut Vec<u8>, more: &[u8])
    ensures
        final(bytes)@ == old(bytes)@ + more@,
{
    bytes.extend_from_slice(more);
    assert(bytes@ =~= old(bytes)@ + more@);
}

} // verus!
