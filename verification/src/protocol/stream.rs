//! The names of the streams of events.
use vstd::prelude::*;

verus! {

/// The stream of changes of the history.
pub const HISTORY: &'static str = "clipboard.history.changed";

/// The stream of changes of the current entry.
pub const CURRENT: &'static str = "clipboard.current.changed";

/// The stream of what becomes of operations.
pub const OPERATION: &'static str = "clipboard.operation";

/// The stream of changes of the capture.
pub const CAPTURE: &'static str = "clipboard.capture.changed";

/// The stream of changes of paste sessions.
pub const SESSION: &'static str = "clipboard.session";

} // verus!
