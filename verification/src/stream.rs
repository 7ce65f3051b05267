//! Input that arrives in pieces.
use vstd::prelude::*;

verus! {

/// What one read of the input gave.
pub enum Read {
    /// These bytes; none of them at the end of the input.
    Data(Vec<u8>),
    /// Nothing, and it should be made again.
    Interrupted,
    /// A failure.
    Failed,
}

/// The input could not be read to its end.
#[derive(Debug)]
pub struct ReadFailed;

/// The input that `reads` deliver, and whether a failure cuts it off.
pub open spec fn read_input(reads: Seq<Read>) -> (Seq<u8>, bool)
    decreases reads.len(),
{
    if reads.len() == 0 {
        (Seq::empty(), false)
    } else {
        match reads[0] {
            Read::Interrupted => read_input(reads.drop_first()),
            Read::Failed => (Seq::empty(), true),
            Read::Data(chunk) => if chunk@.len() == 0 {
                (Seq::empty(), false)
            } else {
                let (rest, failed) = read_input(reads.drop_first());
                (chunk@ + rest, failed)
            },
        }
    }
}

/// Reads an input to its end.
pub fn read_all(reads: &[Read]) -> (input: Result<Vec<u8>, ReadFailed>)
    ensures
        match input {
            Ok(bytes) => !read_input(reads@).1 && bytes@ == read_input(reads@).0,
            Err(_) => read_input(reads@).1,
        },
{
    let mut input: Vec<u8> = Vec::new();
    let mut at: usize = 0;
    assert(reads@.skip(0) =~= reads@);
    assert(input@ + read_input(reads@).0 =~= read_input(reads@).0);
    while at < reads.len()
        invariant
            at <= reads@.len(),
            read_input(reads@).0 == input@ + read_input(reads@.skip(at as int)).0,
            read_input(reads@).1 == read_input(reads@.skip(at as int)).1,
        decreases reads@.len() - at,
    {
        let ghost rest = reads@.skip(at as int);
        let ghost before = input@;
        assert(rest.drop_first() =~= reads@.skip(at + 1));
        match &reads[at] {
            Read::Interrupted => {},
            Read::Failed => {
                return Err(ReadFailed);
            },
            Read::Data(chunk) => {
                if chunk.len() == 0 {
                    assert(input@ + read_input(rest).0 =~= input@);
                    return Ok(input);
                }
                input.extend_from_slice(chunk.as_slice());
                assert(input@ =~= before + chunk@);
                assert(before + read_input(rest).0 =~= input@ + read_input(rest.drop_first()).0);
            },
        }
        at = at + 1;
    }
    assert(input@ + read_input(reads@.skip(at as int)).0 =~= input@);
    Ok(input)
}

} // verus!
