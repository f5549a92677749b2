use vstd::prelude::*;
use crate::app::parse::ObjectParseError;

verus! {

/// Why a task of the master did not reach its end.
#[derive(Copy, Clone, Debug, PartialEq, Eq, Structural)]
pub enum TaskError {
    /// too many requests are waiting already
    TooManyRequests,
    /// the object headers of the response could not be read
    MalformedResponse(ObjectParseError),
    /// the response does not hold what the task expects
    UnexpectedResponseHeaders,
    /// a response of several fragments did not ask for their confirmation
    NonFinWithoutCon,
    /// no response came in time
    ResponseTimeout,
    /// the request could not be written
    WriteError,
    /// there is no connection to the outstation
    NoConnection,
    /// the master was shut down
    Shutdown,
}

} // verus!
