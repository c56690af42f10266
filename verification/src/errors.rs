//! The error taxonomy of the bot's core.
//!
//! Every failure of a single unit of work (one thread-created event) is
//! terminal for that unit: nothing is retried, and the caller reduces the
//! error to a log line.

use vstd::prelude::*;

verus! {

/// What can go wrong while handling one thread-created event.
///
/// `DiscordApi` stands for a transport failure of the remote API client,
/// `BodyDeserialize` for a failure to decode its response body, and
/// `NoThreadParentId` for a thread-created event that carries no parent
/// channel identifier (an anomaly worth surfacing, not a silent skip).
#[derive(Clone, Copy, Debug, PartialEq, Eq, Structural)]
pub enum Error {
    DiscordApi,
    BodyDeserialize,
    NoThreadParentId,
}

impl Error {
    /// A one-line description of the error, for log output.
    pub fn message(&self) -> (r: &'static str)
        ensures
            self is DiscordApi ==> r@ == "twilight-http error"@,
            self is BodyDeserialize ==> r@ == "twilight-http deserializer error"@,
            self is NoThreadParentId ==> (r@
                == "Discord did not send a parent channel ID, are you sure this is a thread?"@),
    {
        match self {
            Error::DiscordApi => "twilight-http error",
            Error::BodyDeserialize => "twilight-http deserializer error",
            Error::NoThreadParentId => {
                "Discord did not send a parent channel ID, are you sure this is a thread?"
            },
        }
    }
}

/// Reduces the outcome of one unit of work to the error that should be
/// logged, if any: per-event errors never propagate past the event loop.
pub fn wrap_result<T>(result: Result<T, Error>) -> (r: Option<Error>)
    ensures
        result is Ok ==> r is None,
        result matches Err(e) ==> r == Some(e),
{
    match result {
        Ok(_) => None,
        Err(e) => Some(e),
    }
}

} // verus!
