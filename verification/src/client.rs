//! What a client does with the daemon's replies and events.
use crate::backend::MAX_WAYLAND_SELECTION_BYTES;
use crate::protocol::stream;
use crate::text;
use vstd::prelude::*;
use vstd::string::*;

verus! {

/// What a reply has begun.
#[derive(Debug, Clone, Copy, PartialEq, Eq, Structural)]
pub enum TrackedKind {
    Operation,
    Subscription,
}

/// Something that a reply has begun, and that events follow.
#[derive(Debug, PartialEq, Eq)]
pub struct TrackedId {
    pub id: String,
    pub kind: TrackedKind,
}

/// How replies and events belong together.
#[derive(Debug, Clone, Copy, PartialEq, Eq, Structural)]
pub struct ClipCorrelation;

/// The events of this name are the last ones of an operation.
pub open spec fn last_event(name: Seq<char>) -> bool {
    name == "completed"@ || name == "failed"@ || name == "cancelled"@
}

impl ClipCorrelation {
    /// What a reply has begun: `operation` and `subscription` are the identifiers
    /// that it holds. An operation comes first.
    pub fn response_id(&self, operation: Option<String>, subscription: Option<String>) -> (begun:
        Option<TrackedId>)
        ensures
            begun == match (operation, subscription) {
                (Some(id), _) => Some(TrackedId { id, kind: TrackedKind::Operation }),
                (None, Some(id)) => Some(TrackedId { id, kind: TrackedKind::Subscription }),
                (None, None) => None,
            },
    {
        match (operation, subscription) {
            (Some(id), _) => Some(TrackedId { id, kind: TrackedKind::Operation }),
            (None, Some(id)) => Some(TrackedId { id, kind: TrackedKind::Subscription }),
            (None, None) => None,
        }
    }

    /// What an event belongs to: `operation` and `subscription` are the
    /// identifiers that it holds.
    pub fn event_id(&self, name: &str, operation: Option<String>, subscription: Option<String>) -> (id:
        Option<String>)
        ensures
            id == if name@ == stream::OPERATION@ {
                operation
            } else {
                subscription
            },
    {
        if text::same(name, stream::OPERATION) {
            operation
        } else {
            subscription
        }
    }

    /// Whether no event follows this one for what it belongs to.
    pub fn is_terminal(&self, name: &str, event: Option<&str>) -> (last: bool)
        ensures
            last == (name@ == stream::OPERATION@ && event is Some && last_event(event->0@)),
    {
        match event {
            Some(event) => text::same(name, stream::OPERATION) && (text::same(event, "completed")
                || text::same(event, "failed") || text::same(event, "cancelled")),
            None => false,
        }
    }
}

/// What a reply says: `accepted` and `message` are what it holds of that.
pub fn reply_outcome(accepted: Option<bool>, message: Option<String>, otherwise: &str) -> (result:
    Result<(), String>)
    ensures
        match result {
            Ok(_) => accepted == Some(true),
            Err(said) => accepted != Some(true) && said@ == match message {
                Some(message) => message@,
                None => otherwise@,
            },
        },
{
    if let Some(true) = accepted {
        return Ok(());
    }
    match message {
        Some(message) => Err(message),
        None => Err(otherwise.to_owned()),
    }
}

/// Rejects content that no clipboard takes, before it is sent.
pub fn validate_input(length: u64) -> (result: Result<(), String>)
    ensures
        match result {
            Ok(_) => length <= MAX_WAYLAND_SELECTION_BYTES,
            Err(message) => length > MAX_WAYLAND_SELECTION_BYTES && message@
                == "stdin exceeds the hard clipboard limit of "@ + text::decimal(
                MAX_WAYLAND_SELECTION_BYTES as nat,
            ) + " bytes"@,
        },
{
    if length <= MAX_WAYLAND_SELECTION_BYTES {
        return Ok(());
    }
    let mut message = text::join(
        "stdin exceeds the hard clipboard limit of ",
        text::format_u64(MAX_WAYLAND_SELECTION_BYTES).as_str(),
    );
    message.append(" bytes");
    Err(message)
}

} // verus!
