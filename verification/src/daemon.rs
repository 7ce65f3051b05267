//! Where the daemon is found on the session bus, and what it tells its callers
//! unasked.
use crate::actions::ApiError;
use crate::text;
use vstd::prelude::*;
use vstd::string::*;

pub mod subscription;

verus! {

/// The name of the daemon on the session bus.
pub const BUS_NAME: &'static str = "org.laufan.ClipDaemon";

/// The path of its object.
pub const OBJECT_PATH: &'static str = "/org/laufan/ClipDaemon";

/// The interface of its object.
pub const INTERFACE: &'static str = "org.laufan.ClipDaemon1";

/// What was cancelled.
#[derive(Debug, Clone, Copy, PartialEq, Eq, Structural)]
pub enum Cancelled {
    Subscription,
    Operation,
}

/// What is told of a request to cancel something: subscriptions come before
/// operations.
pub fn cancelled(request_id: &str, subscription: bool, operation: bool) -> (result: Result<
    Cancelled,
    ApiError,
>)
    ensures
        if subscription {
            result == Ok::<Cancelled, ApiError>(Cancelled::Subscription)
        } else if operation {
            result == Ok::<Cancelled, ApiError>(Cancelled::Operation)
        } else {
            result matches Err(error) && error.is(
                "request-not-found"@,
                "No cancellable subscription or operation named "@ + request_id@
                    + "; an operation may already be committing"@,
            )
        },
{
    if subscription {
        return Ok(Cancelled::Subscription);
    }
    if operation {
        return Ok(Cancelled::Operation);
    }
    let mut message = text::join("No cancellable subscription or operation named ", request_id);
    message.append("; an operation may already be committing");
    Err(ApiError::new("request-not-found", message.as_str()))
}

} // verus!
