use vstd::prelude::*;
use crate::app::function_code::FunctionCode;
use crate::app::header::RequestHeader;
use crate::app::parse::Request;
use crate::app::parser::{objects_parsed, parse_request, spec_request_header};
use crate::link::address::{BroadcastConfirmMode, EndpointAddress, broadcast_mode, spec_broadcast_mode};
use crate::link::header::{Function, Header};
use crate::transport::assembler::{Assembler, AssemblerView, AssemblyState, TransportHeader};
use crate::transport::{
    FragmentInfo,
    HeaderParseError,
    LinkLayerMessage,
    RequestValidationError,
    TransportRequest,
    TransportRequestError,
};

verus! {

/// Why a fragment with a readable header is no valid request, if it is
/// none: a request is complete in one fragment, sets the unsolicited bit
/// only in a confirmation, and does not carry the function code of a
/// response.
pub open spec fn spec_validate(header: RequestHeader) -> Option<RequestValidationError> {
    if !(header.control.fir && header.control.fin) {
        Some(RequestValidationError::NonFirFin)
    } else if header.control.uns && header.function != FunctionCode::Confirm {
        Some(RequestValidationError::UnexpectedUnsBit)
    } else if header.function == FunctionCode::Response || header.function
        == FunctionCode::UnsolicitedResponse {
        Some(RequestValidationError::UnexpectedFunction)
    } else {
        None
    }
}

/// Tests whether a fragment with a readable header is a valid request.
pub fn validate(header: RequestHeader) -> (r: Option<RequestValidationError>)
    ensures
        r == spec_validate(header),
{
    if !(header.control.fir && header.control.fin) {
        return Some(RequestValidationError::NonFirFin);
    }
    if header.control.uns && !header.function.same(&FunctionCode::Confirm) {
        return Some(RequestValidationError::UnexpectedUnsBit);
    }
    if header.function.same(&FunctionCode::Response) || header.function.same(
        &FunctionCode::UnsolicitedResponse,
    ) {
        return Some(RequestValidationError::UnexpectedFunction);
    }
    None
}

/// What a link frame means to the transport layer of an outstation.
#[derive(Copy, Clone, Debug, PartialEq, Eq, Structural)]
pub enum FrameKind {
    /// user data for this outstation, directly or by broadcast
    Data(Option<BroadcastConfirmMode>),
    /// a link-layer message for the session
    Message(LinkLayerMessage),
    /// nothing: the frame is for another station, from a station that is
    /// not a master, or of a function that the transport layer ignores
    Ignored,
}

/// What a link frame means to the transport layer of the outstation with
/// the address `local`.
pub open spec fn spec_frame_kind(header: Header, local: u16) -> FrameKind {
    if !header.control.master {
        FrameKind::Ignored
    } else if header.destination != local && spec_broadcast_mode(header.destination) is None {
        FrameKind::Ignored
    } else {
        match header.control.func {
            Function::PriUnconfirmedUserData | Function::PriConfirmedUserData => FrameKind::Data(
                spec_broadcast_mode(header.destination),
            ),
            Function::SecLinkStatus => FrameKind::Message(LinkLayerMessage::LinkStatusResponse),
            Function::PriRequestLinkStatus => FrameKind::Message(
                LinkLayerMessage::LinkStatusRequest,
            ),
            _ => FrameKind::Ignored,
        }
    }
}

/// The transport layer of an outstation seen from above: it takes link
/// frames and hands out requests, link-layer messages and errors.
pub struct TransportReader {
    assembler: Assembler,
    local: EndpointAddress,
    message: Option<LinkLayerMessage>,
    next_id: u32,
}

/// The transport reader as contracts see it.
pub struct TransportReaderView {
    /// the assembly of segments
    pub assembler: AssemblerView,
    /// address of the outstation
    pub local: u16,
    /// a link-layer message that waits to be taken
    pub message: Option<LinkLayerMessage>,
    /// running number of the next fragment
    pub next_id: u32,
}

impl View for TransportReader {
    type V = TransportReaderView;

    closed spec fn view(&self) -> TransportReaderView {
        TransportReaderView {
            assembler: self.assembler@,
            local: self.local@,
            message: self.message,
            next_id: self.next_id,
        }
    }
}

/// The running number after `id`, wrapping at the end of 32 bits.
pub open spec fn next_id(id: u32) -> u32 {
    if id == u32::MAX {
        0
    } else {
        (id + 1) as u32
    }
}

impl TransportReader {
    /// The transport reader of the outstation with the address `local`,
    /// for fragments of up to `max_size` octets.
    pub fn new(local: EndpointAddress, max_size: usize) -> (r: TransportReader)
        ensures
            r@ == (TransportReaderView {
                assembler: AssemblerView {
                    state: AssemblyState::Empty,
                    data: Seq::empty(),
                    broadcast: None,
                    max_size: max_size as int,
                },
                local: local@,
                message: None,
                next_id: 0,
            }),
    {
        TransportReader { assembler: Assembler::new(max_size), local, message: None, next_id: 0 }
    }

    /// Gives up the fragment under way and drops a message in waiting.
    pub fn reset(&mut self)
        ensures
            final(self)@ == (TransportReaderView {
                assembler: AssemblerView {
                    state: AssemblyState::Empty,
                    data: Seq::empty(),
                    ..old(self)@.assembler
                },
                message: None,
                ..old(self)@
            }),
    {
        self.assembler.reset();
        self.message = None;
    }

    /// Takes a link frame with its user data. User data for this
    /// outstation is a transport segment: its first octet is the transport
    /// header, the rest goes into the assembly. A frame with user data that
    /// holds no octet is ignored.
    pub fn on_frame(&mut self, header: Header, payload: &[u8])
        ensures
            match spec_frame_kind(header, old(self)@.local) {
                FrameKind::Data(broadcast) => if payload@.len() == 0 {
                    final(self)@ == old(self)@
                } else {
                    final(self)@ == (TransportReaderView {
                        assembler: old(self)@.assembler.assemble(
                            TransportHeader::spec_from(payload@[0]),
                            payload@.subrange(1, payload@.len() as int),
                            broadcast,
                        ),
                        ..old(self)@
                    })
                },
                FrameKind::Message(message) => final(self)@ == (TransportReaderView {
                    message: Some(message),
                    ..old(self)@
                }),
                FrameKind::Ignored => final(self)@ == old(self)@,
            },
    {
        if !header.control.master {
            return ;
        }
        let broadcast = broadcast_mode(header.destination);
        if header.destination != self.local.raw_value() && broadcast.is_none() {
            return ;
        }
        match header.control.func {
            Function::PriUnconfirmedUserData | Function::PriConfirmedUserData => {
                if payload.len() == 0 {
                    return ;
                }
                let transport = TransportHeader::from(payload[0]);
                let segment = vstd::slice::slice_subrange(payload, 1, payload.len());
                self.assembler.assemble(transport, segment, broadcast);
            },
            Function::SecLinkStatus => {
                self.message = Some(LinkLayerMessage::LinkStatusResponse);
            },
            Function::PriRequestLinkStatus => {
                self.message = Some(LinkLayerMessage::LinkStatusRequest);
            },
            _ => {},
        }
    }

    /// Hands out what waits to be taken: a link-layer message first, else
    /// a complete fragment, read as a request. A fragment whose header
    /// cannot be read, or whose header is not that of a valid request, is
    /// handed out as an error. Each fragment gets the next running number.
    pub fn pop_request(&mut self) -> (r: Option<TransportRequest>)
        ensures
            match old(self)@.message {
                Some(message) => {
                    &&& r matches Some(TransportRequest::LinkLayerMessage(m))
                    &&& m == message
                    &&& final(self)@ == (TransportReaderView { message: None, ..old(self)@ })
                },
                None => if old(self)@.assembler.state == AssemblyState::Complete {
                    let fragment = old(self)@.assembler.data;
                    &&& final(self)@ == (TransportReaderView {
                        assembler: AssemblerView {
                            state: AssemblyState::Empty,
                            data: Seq::empty(),
                            ..old(self)@.assembler
                        },
                        next_id: next_id(old(self)@.next_id),
                        ..old(self)@
                    })
                    &&& match spec_request_header(fragment) {
                        Err(err) => r matches Some(TransportRequest::Error(e)) && e
                            == TransportRequestError::HeaderParseError(err),
                        Ok(header) => match spec_validate(header) {
                            Some(err) => r matches Some(TransportRequest::Error(e)) && e
                                == TransportRequestError::RequestValidationError(
                                header.control.seq,
                                err,
                            ),
                            None => {
                                &&& r matches Some(TransportRequest::Request(info, request))
                                &&& info == (FragmentInfo {
                                    id: old(self)@.next_id,
                                    broadcast: old(self)@.assembler.broadcast,
                                })
                                &&& request.header == header
                                &&& request.raw_fragment@ == fragment
                                &&& objects_parsed(
                                    request.objects,
                                    fragment.subrange(2, fragment.len() as int),
                                )
                            },
                        },
                    }
                } else {
                    r is None && final(self)@ == old(self)@
                },
            },
    {
        if let Some(message) = self.message {
            self.message = None;
            return Some(TransportRequest::LinkLayerMessage(message));
        }
        let (fragment, broadcast) = match self.assembler.take() {
            Some(x) => x,
            None => {
                return None;
            },
        };
        let id: u32 = self.next_id;
        self.next_id = self.next_id.wrapping_add(1);
        match parse_request(fragment.as_slice()) {
            Err(err) => Some(
                TransportRequest::Error(TransportRequestError::HeaderParseError(err)),
            ),
            Ok(request) => match validate(request.header) {
                Some(err) => Some(
                    TransportRequest::Error(
                        TransportRequestError::RequestValidationError(
                            request.header.control.seq,
                            err,
                        ),
                    ),
                ),
                None => Some(
                    TransportRequest::Request(FragmentInfo::new(id, broadcast), request),
                ),
            },
        }
    }
}

} // verus!
