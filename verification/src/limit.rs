//! The capture limit that the server and the watcher share through a file.
use crate::text;
use vstd::prelude::*;
use vstd::string::*;
use vstd::utf8::*;

verus! {

/// The limit where no file sets one.
pub const DEFAULT_CAPTURE_BYTES: u64 = 16_777_216;

/// The smallest limit that a file can set.
pub const MIN_CAPTURE_BYTES: u64 = 65_536;

/// The largest limit that a file can set.
pub const MAX_CONFIGURED_BYTES: u64 = 536_870_912;

/// The limit that is never exceeded, whatever a file sets.
pub const MAX_CAPTURE_BYTES: u64 = 67_108_864;

/// What was read of the file that sets the limit: at most its first 33 bytes.
pub enum LimitFile {
    Missing,
    Unreadable,
    Contents(Vec<u8>),
}

/// The file does not set a limit.
#[derive(Debug)]
pub struct InvalidLimit;

/// A numeral that may have a plus sign.
pub open spec fn unsigned(s: Seq<char>) -> Option<nat> {
    if s.len() > 0 && s[0] == '+' {
        text::numeral(s.drop_first())
    } else {
        text::numeral(s)
    }
}

/// The limit that the contents of the file set, where they set one.
pub open spec fn limit_in(contents: Seq<u8>) -> Option<nat> {
    if valid_utf8(contents) && contents.len() <= 32 {
        match unsigned(text::trimmed(decode_utf8(contents))) {
            Some(size) => if MIN_CAPTURE_BYTES <= size <= MAX_CONFIGURED_BYTES {
                Some(
                    if size <= MAX_CAPTURE_BYTES {
                        size
                    } else {
                        MAX_CAPTURE_BYTES as nat
                    },
                )
            } else {
                None
            },
            None => None,
        }
    } else {
        None
    }
}

/// Reads a numeral that may have a plus sign.
pub fn parse_unsigned(chars: &[char]) -> (result: Option<u64>)
    ensures
        match result {
            Some(value) => unsigned(chars@) == Some(value as nat),
            None => unsigned(chars@) is None || unsigned(chars@)->0 > u64::MAX,
        },
{
    if chars.len() > 0 && chars[0] == '+' {
        let rest = text::slice_chars(chars, 1, chars.len());
        assert(rest@ =~= chars@.drop_first());
        text::parse_digits(rest.as_slice())
    } else {
        text::parse_digits(chars)
    }
}

/// The capture limit in force. Without a file it is the default; a file that
/// sets no limit within bounds admits nothing.
pub fn load(file: &LimitFile) -> (limit: Result<u64, InvalidLimit>)
    ensures
        match *file {
            LimitFile::Missing => limit == Ok::<u64, InvalidLimit>(DEFAULT_CAPTURE_BYTES),
            LimitFile::Unreadable => limit is Err,
            LimitFile::Contents(contents) => match limit {
                Ok(limit) => limit_in(contents@) == Some(limit as nat),
                Err(_) => limit_in(contents@) is None,
            },
        },
        limit matches Ok(limit) ==> MIN_CAPTURE_BYTES <= limit <= MAX_CAPTURE_BYTES,
{
    let contents = match file {
        LimitFile::Missing => {
            return Ok(DEFAULT_CAPTURE_BYTES);
        },
        LimitFile::Unreadable => {
            return Err(InvalidLimit);
        },
        LimitFile::Contents(contents) => contents,
    };
    if contents.len() > 32 {
        return Err(InvalidLimit);
    }
    let value = match text::text_of(contents.as_slice()) {
        Some(value) => value,
        None => {
            return Err(InvalidLimit);
        },
    };
    let trimmed = text::trim_chars(text::chars_of(value).as_slice());
    match parse_unsigned(trimmed.as_slice()) {
        Some(size) => {
            if size < MIN_CAPTURE_BYTES || size > MAX_CONFIGURED_BYTES {
                Err(InvalidLimit)
            } else if size <= MAX_CAPTURE_BYTES {
                Ok(size)
            } else {
                Ok(MAX_CAPTURE_BYTES)
            }
        },
        None => Err(InvalidLimit),
    }
}

} // verus!
