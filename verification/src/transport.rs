pub mod assembler;
pub mod reader;
pub mod writer;

use vstd::prelude::*;
use crate::app::parse::Request;
use crate::app::sequence::Sequence;
use crate::link::address::BroadcastConfirmMode;

verus! {

/// What the transport layer knows about a fragment besides its octets.
#[derive(Copy, Clone, Debug, PartialEq, Eq, Structural)]
pub struct FragmentInfo {
    /// running number of the fragment, one more for each fragment received
    pub id: u32,
    /// set when the fragment came by broadcast
    pub broadcast: Option<BroadcastConfirmMode>,
}

impl FragmentInfo {
    /// The information about fragment number `id`.
    pub fn new(id: u32, broadcast: Option<BroadcastConfirmMode>) -> (info: FragmentInfo)
        ensures
            info == (FragmentInfo { id, broadcast }),
    {
        FragmentInfo { id, broadcast }
    }
}

/// Why the header of a fragment could not be read.
#[derive(Copy, Clone, Debug, PartialEq, Eq, Structural)]
pub enum HeaderParseError {
    /// the function code is unknown; the sequence number could be read
    UnknownFunction(Sequence, u8),
    /// the fragment is shorter than a header
    InsufficientBytes,
}

/// Why a fragment with a readable header is no valid request.
#[derive(Copy, Clone, Debug, PartialEq, Eq, Structural)]
pub enum RequestValidationError {
    /// the fragment is not complete in itself
    NonFirFin,
    /// a fragment other than a confirmation sets the unsolicited bit
    UnexpectedUnsBit,
    /// the function code is that of a response
    UnexpectedFunction,
}

/// Why the transport layer could not hand over a request.
#[derive(Copy, Clone, Debug, PartialEq, Eq, Structural)]
pub enum TransportRequestError {
    /// the header could not be read
    HeaderParseError(HeaderParseError),
    /// the header could be read and is not that of a valid request
    RequestValidationError(Sequence, RequestValidationError),
}

/// Link-layer messages that reach the session.
#[derive(Copy, Clone, Debug, PartialEq, Eq, Structural)]
pub enum LinkLayerMessage {
    /// the master answered a link status request
    LinkStatusResponse,
    /// the master asked for the status of the link
    LinkStatusRequest,
}

/// What the transport layer hands to the session.
#[derive(Debug)]
pub enum TransportRequest {
    /// a request fragment
    Request(FragmentInfo, Request),
    /// a link-layer message
    LinkLayerMessage(LinkLayerMessage),
    /// a fragment that is no request
    Error(TransportRequestError),
}

} // verus!
