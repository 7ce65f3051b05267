//! The names of the clip-api protocol.
use crate::text;
use vstd::prelude::*;

pub mod stream;

verus! {

/// The name of the protocol.
pub const NAME: &'static str = "clip-api";

/// The version of the protocol.
pub const VERSION: u8 = 1;

/// The names of the methods.
pub const METHODS: [&'static str; 20] = [
    "clipboard.session.begin",
    "clipboard.session.end",
    "clipboard.session.hidden",
    "clipboard.history.query",
    "clipboard.entry.details",
    "clipboard.entry.thumbnail",
    "clipboard.entry.action",
    "clipboard.entry.edit.begin",
    "clipboard.entry.edit.commit",
    "clipboard.entry.edit.cancel",
    "clipboard.entries.delete",
    "clipboard.selection.publishText",
    "clipboard.selection.publishFiles",
    "clipboard.capture.setPaused",
    "clipboard.capture.screenshot",
    "clipboard.capture.interactive",
    "clipboard.settings.get",
    "clipboard.settings.update",
    "clipboard.history.wipe.prepare",
    "clipboard.history.wipe.commit",
];

/// The names of the streams.
pub const STREAMS: [&'static str; 5] = [
    stream::HISTORY,
    stream::CURRENT,
    stream::OPERATION,
    stream::CAPTURE,
    stream::SESSION,
];

/// One of the streams has this name.
pub open spec fn stream_name(name: Seq<char>) -> bool {
    ||| name == stream::HISTORY@
    ||| name == stream::CURRENT@
    ||| name == stream::OPERATION@
    ||| name == stream::CAPTURE@
    ||| name == stream::SESSION@
}

/// Whether one of the streams has this name.
pub fn is_stream(name: &str) -> (result: bool)
    ensures
        result == stream_name(name@),
{
    text::same(name, stream::HISTORY) || text::same(name, stream::CURRENT) || text::same(
        name,
        stream::OPERATION,
    ) || text::same(name, stream::CAPTURE) || text::same(name, stream::SESSION)
}

} // verus!
