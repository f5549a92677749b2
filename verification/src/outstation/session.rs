pub mod confirm;
pub mod idle;
pub mod laws;
pub mod requests;

use vstd::prelude::*;
use crate::app::control_field::ControlField;
use crate::app::function_code::FunctionCode;
use crate::app::header::{ResponseFunction, ResponseHeader};
use crate::app::iin::{Iin1, Iin2, Iin};
use crate::app::parse::{ObjectParseError, Request};
use crate::app::sequence::Sequence;
use crate::link::address::BroadcastConfirmMode;
use crate::outstation::config::{DecodeLevel, SessionConfig, SessionParameters};
use crate::outstation::database::{Database, EventClasses, EventsInfo, ResponseInfo};
use crate::outstation::deferred::{DeferredRead, DeferredReadView};
use crate::outstation::select::SelectState;
use crate::outstation::traits::{
    ApplicationIin,
    ControlHandler,
    OutstationApplication,
    OutstationInformation,
    bits_if,
};
use crate::transport::FragmentInfo;
use crate::util::clock::Clock;
use crate::util::hash::{digest, spec_digest};
use crate::util::time::Moment;

verus! {

/// Whether a wait ended because its deadline passed.
#[derive(Copy, Clone, Debug, PartialEq, Eq, Structural)]
pub enum Timeout {
    /// the deadline passed
    Yes,
    /// something was received before the deadline
    No,
}

/// A response fragment: its header and the number of octets of the transmit
/// buffer that it takes, header included. A size of zero stands for a
/// fragment that is its header alone.
#[derive(Copy, Clone, Debug, PartialEq, Eq, Structural)]
pub struct Response {
    /// header of the fragment
    pub header: ResponseHeader,
    /// octets of the transmit buffer that the fragment takes
    pub size: usize,
}

impl Response {
    /// The empty solicited response to the request `seq`, with the given
    /// indications.
    pub open spec fn spec_empty_solicited(seq: Sequence, iin: Iin) -> Response {
        Response {
            header: ResponseHeader {
                control: ControlField { fir: true, fin: true, con: false, uns: false, seq },
                function: ResponseFunction::Response,
                iin,
            },
            size: 0,
        }
    }

    /// Number of octets that go on the wire for this fragment out of a
    /// buffer of `capacity` octets: the header at least, the buffer at most.
    pub open spec fn spec_length(self, capacity: int) -> int {
        let wanted = if self.size < ResponseHeader::LENGTH {
            ResponseHeader::LENGTH as int
        } else {
            self.size as int
        };
        if wanted <= capacity {
            wanted
        } else {
            capacity
        }
    }

    /// A response made of its header and size.
    pub fn new(header: ResponseHeader, size: usize) -> (r: Response)
        ensures
            r == (Response { header, size }),
    {
        Response { header, size }
    }

    /// The empty solicited response to the request `seq`, with the given
    /// indications.
    pub fn empty_solicited(seq: Sequence, iin: Iin) -> (r: Response)
        ensures
            r == Self::spec_empty_solicited(seq, iin),
    {
        let header = ResponseHeader::new(
            ControlField::response(seq, true, true, false),
            ResponseFunction::Response,
            iin,
        );
        Response::new(header, 0)
    }

    /// Sequence number of the fragment.
    pub fn seq(&self) -> (s: Sequence)
        ensures
            s == self.header.control.seq,
    {
        self.header.control.seq
    }
}

/// A series of response fragments under way: the sequence number whose
/// confirmation is awaited, and whether the fragment sent was the last.
#[derive(Copy, Clone, Debug, PartialEq, Eq, Structural)]
pub struct ResponseSeries {
    /// sequence number of the confirmation awaited
    pub ecsn: Sequence,
    /// the fragment awaiting confirmation is the last of the series
    pub fin: bool,
}

impl ResponseSeries {
    /// The series that awaits the confirmation `ecsn`.
    pub fn new(ecsn: Sequence, fin: bool) -> (s: ResponseSeries)
        ensures
            s == (ResponseSeries { ecsn, fin }),
    {
        ResponseSeries { ecsn, fin }
    }
}

/// Counts down the repetitions of an unsolicited response.
#[derive(Copy, Clone, Debug, PartialEq, Eq, Structural)]
pub struct RetryCounter {
    /// repetitions left; `None` for no limit
    pub retries: Option<usize>,
}

impl RetryCounter {
    /// Whether another repetition is allowed.
    pub open spec fn spec_may_retry(self) -> bool {
        match self.retries {
            None => true,
            Some(x) => x > 0,
        }
    }

    /// The counter after one repetition was asked for.
    pub open spec fn spec_decrement(self) -> RetryCounter {
        match self.retries {
            None => self,
            Some(x) => if x == 0 {
                self
            } else {
                RetryCounter { retries: Some((x - 1) as usize) }
            },
        }
    }

    /// A counter that allows `limit` repetitions, or any number for `None`.
    pub fn new(limit: Option<usize>) -> (c: RetryCounter)
        ensures
            c.retries == limit,
    {
        RetryCounter { retries: limit }
    }

    /// Asks for one more repetition. Returns whether it is allowed, and
    /// counts it if so.
    pub fn decrement(&mut self) -> (allowed: bool)
        ensures
            allowed == old(self).spec_may_retry(),
            *final(self) == old(self).spec_decrement(),
    {
        match self.retries {
            None => true,
            Some(x) => {
                if x == 0 {
                    false
                } else {
                    self.retries = Some(x - 1);
                    true
                }
            },
        }
    }

    /// A counter that starts at `n` allows exactly `n` repetitions: after
    /// `k` of them, `n - k` are left.
    pub proof fn lemma_bounded(n: usize, k: int)
        requires
            0 <= k <= n,
        ensures
            Self::after(RetryCounter { retries: Some(n) }, k).retries == Some((n - k) as usize),
            Self::after(RetryCounter { retries: Some(n) }, k).spec_may_retry() == (k < n),
        decreases k,
    {
        if k > 0 {
            Self::lemma_bounded(n, k - 1);
        }
    }

    /// The counter after `k` requests for a repetition.
    pub open spec fn after(c: RetryCounter, k: int) -> RetryCounter
        decreases k,
    {
        if k <= 0 {
            c
        } else {
            Self::after(c, k - 1).spec_decrement()
        }
    }
}

impl ResponseInfo {
    /// The series that a fragment opens or continues: one that awaits the
    /// confirmation `ecsn` if the fragment must be confirmed, none otherwise.
    pub open spec fn spec_response_series(&self, ecsn: Sequence) -> Option<ResponseSeries> {
        if self.spec_need_confirm() {
            Some(ResponseSeries { ecsn, fin: self.complete })
        } else {
            None
        }
    }

    /// The series that a fragment opens or continues.
    pub fn get_response_series(&self, ecsn: Sequence) -> (r: Option<ResponseSeries>)
        ensures
            r == self.spec_response_series(ecsn),
    {
        if self.need_confirm() {
            Some(ResponseSeries::new(ecsn, self.complete))
        } else {
            None
        }
    }
}

/// The request answered last: what is needed to recognise its repetition
/// and to answer it the same way.
#[derive(Copy, Clone, Debug, PartialEq, Eq, Structural)]
pub struct LastValidRequest {
    /// sequence number of the request
    pub seq: Sequence,
    /// digest of the octets of the request
    pub request_hash: u64,
    /// the response sent, if one was
    pub response: Option<Response>,
    /// the series that the response opened, if any
    pub series: Option<ResponseSeries>,
}

impl LastValidRequest {
    /// A series on record belongs to the response on record: the response
    /// asks for the confirmation that the series awaits.
    pub open spec fn series_matches(self) -> bool {
        match self.series {
            Some(series) => self.response matches Some(r) && r.header.control.con && series.ecsn
                == r.header.control.seq,
            None => true,
        }
    }

    /// The record of a request and its response.
    pub fn new(
        seq: Sequence,
        request_hash: u64,
        response: Option<Response>,
        series: Option<ResponseSeries>,
    ) -> (r: LastValidRequest)
        ensures
            r == (LastValidRequest { seq, request_hash, response, series }),
    {
        LastValidRequest { seq, request_hash, response, series }
    }
}

/// Where the session stands with unsolicited responses.
#[derive(Copy, Clone, Debug, PartialEq, Eq, Structural)]
pub enum UnsolicitedState {
    /// the empty unsolicited response that opens a session is still owed
    NullRequired,
    /// events can be reported, from the instant given on
    Ready(Option<Moment>),
}

/// What the session waits for.
#[derive(Copy, Clone, Debug, PartialEq, Eq, Structural)]
pub enum WaitState {
    /// nothing: requests are taken, events reported
    Idle,
    /// the confirmation of a solicited fragment. This is the one solicited
    /// fragment that asked for a confirmation and has not got it.
    SolConfirmWait {
        /// the series that the fragment belongs to
        series: ResponseSeries,
        /// the fragment that awaits confirmation, as it was sent
        response: Response,
        /// when the wait ends
        deadline: Moment,
    },
    /// the confirmation of an unsolicited fragment
    UnsolConfirmWait {
        /// the fragment, as it was sent
        response: Response,
        /// the fragment is the empty one that opens a session
        is_null: bool,
        /// repetitions left
        retries: RetryCounter,
        /// when the wait ends
        deadline: Moment,
    },
}

/// The part of a session that changes while it runs.
pub struct SessionState {
    /// the restart indication is reported
    pub restart_iin_asserted: bool,
    /// classes whose events are reported unsolicited
    pub enabled_unsolicited_classes: EventClasses,
    /// the request answered last
    pub last_valid_request: Option<LastValidRequest>,
    /// the select on record
    pub select: Option<SelectState>,
    /// where the session stands with unsolicited responses
    pub unsolicited: UnsolicitedState,
    /// sequence number of the next unsolicited response
    pub unsolicited_seq: Sequence,
    /// a read request that waits for the end of an unsolicited exchange
    pub deferred_read: DeferredRead,
    /// when the master asked to record the time
    pub last_recorded_time: Option<Moment>,
    /// the kind of the last broadcast, until it has been reported
    pub last_broadcast_type: Option<BroadcastConfirmMode>,
}

/// The changing part of a session as contracts see it.
pub struct SessionStateView {
    pub restart_iin_asserted: bool,
    pub enabled_unsolicited_classes: EventClasses,
    pub last_valid_request: Option<LastValidRequest>,
    pub select: Option<SelectState>,
    pub unsolicited: UnsolicitedState,
    pub unsolicited_seq: int,
    pub deferred_read: DeferredReadView,
    pub last_recorded_time: Option<Moment>,
    pub last_broadcast_type: Option<BroadcastConfirmMode>,
}

impl View for SessionState {
    type V = SessionStateView;

    open spec fn view(&self) -> SessionStateView {
        SessionStateView {
            restart_iin_asserted: self.restart_iin_asserted,
            enabled_unsolicited_classes: self.enabled_unsolicited_classes,
            last_valid_request: self.last_valid_request,
            select: self.select,
            unsolicited: self.unsolicited,
            unsolicited_seq: self.unsolicited_seq@,
            deferred_read: self.deferred_read@,
            last_recorded_time: self.last_recorded_time,
            last_broadcast_type: self.last_broadcast_type,
        }
    }
}

impl SessionState {
    /// The state of a session that has just been made: the restart
    /// indication is on, no class is enabled, the opening unsolicited
    /// response is owed, and nothing is on record.
    pub fn new(max_read_headers: u16) -> (s: SessionState)
        ensures
            s@ == (SessionStateView {
                restart_iin_asserted: true,
                enabled_unsolicited_classes: EventClasses {
                    class1: false,
                    class2: false,
                    class3: false,
                },
                last_valid_request: None,
                select: None,
                unsolicited: UnsolicitedState::NullRequired,
                unsolicited_seq: 0,
                deferred_read: DeferredReadView {
                    max_headers: max_read_headers as int,
                    info: None,
                    headers: Seq::empty(),
                },
                last_recorded_time: None,
                last_broadcast_type: None,
            }),
    {
        SessionState {
            enabled_unsolicited_classes: EventClasses::none(),
            restart_iin_asserted: true,
            last_valid_request: None,
            select: None,
            unsolicited: UnsolicitedState::NullRequired,
            unsolicited_seq: Sequence::new(0),
            deferred_read: DeferredRead::new(max_read_headers),
            last_recorded_time: None,
            last_broadcast_type: None,
        }
    }

    /// Forgets what belongs to one connection: the request answered last,
    /// the select on record and the deferred read.
    pub fn reset(&mut self)
        ensures
            final(self)@ == (SessionStateView {
                last_valid_request: None,
                select: None,
                deferred_read: old(self)@.deferred_read.clear(),
                ..old(self)@
            }),
    {
        self.last_valid_request = None;
        self.select = None;
        self.deferred_read.clear();
    }
}

/// What kind of fragment the session has in hand.
#[derive(Copy, Clone, Debug, PartialEq, Eq, Structural)]
pub enum FragmentType {
    /// a request whose object headers could not be read
    MalformedRequest(u64, ObjectParseError),
    /// a read request that is not the one answered last
    NewRead(u64),
    /// the read request answered last, once more
    RepeatRead(u64, Option<Response>),
    /// a request other than a read that is not the one answered last
    NewNonRead(u64),
    /// the request other than a read answered last, once more
    RepeatNonRead(u64, Option<Response>),
    /// a request that came by broadcast
    Broadcast(BroadcastConfirmMode),
    /// the confirmation of a solicited response
    SolicitedConfirm(Sequence),
    /// the confirmation of an unsolicited response
    UnsolicitedConfirm(Sequence),
}

/// How a wait for a solicited confirmation ended.
#[derive(Copy, Clone, Debug, PartialEq, Eq, Structural)]
pub enum Confirm {
    /// the confirmation came
    Yes,
    /// the deadline passed
    Timeout,
    /// a new request came instead
    NewRequest,
}

/// How an unsolicited exchange ended.
#[derive(Copy, Clone, Debug, PartialEq, Eq, Structural)]
pub enum UnsolicitedResult {
    /// the master confirmed the response
    Confirmed,
    /// no confirmation came and no repetition is left
    Timeout,
    /// the master disabled unsolicited responses
    ReturnToIdle,
}

/// What one step of waiting for an unsolicited confirmation brought.
#[derive(Copy, Clone, Debug, PartialEq, Eq, Structural)]
pub enum UnsolicitedWaitResult {
    /// the deadline passed
    Timeout,
    /// the wait goes on
    ReadNext,
    /// the exchange is over
    Complete(UnsolicitedResult),
}

/// What a fragment received during the wait for a solicited confirmation
/// asks the session to do.
#[derive(Copy, Clone, Debug, PartialEq, Eq, Structural)]
pub enum ConfirmAction {
    /// the confirmation came
    Confirmed,
    /// a new request came: the wait ends and the request is handled from idle
    NewRequest,
    /// the request answered last came again: the response is sent again
    EchoLastResponse(Option<Response>),
    /// the fragment is ignored and the wait goes on
    ContinueWait,
}

/// Why a session ended.
#[derive(Copy, Clone, Debug, PartialEq, Eq, Structural)]
pub enum RunError {
    /// the link failed
    Link,
    /// the session was told to stop
    Shutdown,
}

/// A change of configuration that reaches a running session.
#[derive(Copy, Clone, Debug, PartialEq, Eq, Structural)]
pub enum ConfigurationChange {
    /// log traffic at another level
    SetDecodeLevel(DecodeLevel),
}

/// A fragment for the session's owner to put on the wire.
#[derive(Copy, Clone, Debug, PartialEq, Eq, Structural)]
pub enum Transmit {
    /// the first octets of the buffer for solicited responses
    Solicited(usize),
    /// the first octets of the buffer for unsolicited responses
    Unsolicited(usize),
}

/// One outstation's conversation with its master: the state machine that
/// takes request fragments, answers them, reports events unsolicited and
/// waits for confirmations. Its owner moves octets and waits for deadlines;
/// the session decides.
pub struct OutstationSession<A: OutstationApplication, I: OutstationInformation, C: ControlHandler> {
    /// buffer in which solicited responses are composed
    pub sol_tx_buffer: Vec<u8>,
    /// buffer in which unsolicited responses are composed
    pub unsol_tx_buffer: Vec<u8>,
    /// configuration
    pub config: SessionConfig,
    /// the changing state
    pub state: SessionState,
    /// what the session waits for
    pub wait: WaitState,
    /// the application behind the outstation
    pub application: A,
    /// observer of the session
    pub info: I,
    /// what carries out controls
    pub control_handler: C,
    /// when the link is tested next
    pub next_link_status: Option<Moment>,
}

/// The indications that a response reports besides those of the request it
/// answers: restart, waiting events, overflow, a broadcast received, and
/// what the application adds.
pub open spec fn spec_response_iin(
    restart: bool,
    events: EventsInfo,
    broadcast: Option<BroadcastConfirmMode>,
    application: ApplicationIin,
) -> Iin {
    Iin {
        iin1: Iin1 {
            value: bits_if(restart, Iin1::RESTART) | bits_if(
                events.unwritten_classes.class1,
                Iin1::CLASS_1_EVENTS,
            ) | bits_if(events.unwritten_classes.class2, Iin1::CLASS_2_EVENTS) | bits_if(
                events.unwritten_classes.class3,
                Iin1::CLASS_3_EVENTS,
            ) | bits_if(broadcast is Some, Iin1::BROADCAST) | application.spec_to_iin().iin1.value,
        },
        iin2: Iin2 {
            value: bits_if(events.is_overflown, Iin2::EVENT_BUFFER_OVERFLOW)
                | application.spec_to_iin().iin2.value,
        },
    }
}

/// The indications that a response reports besides those of the request it
/// answers.
pub fn response_iin(
    restart: bool,
    events: EventsInfo,
    broadcast: Option<BroadcastConfirmMode>,
    application: ApplicationIin,
) -> (iin: Iin)
    ensures
        iin == spec_response_iin(restart, events, broadcast, application),
{
    let restart_bit: u8 = if restart {
        Iin1::RESTART
    } else {
        0
    };
    let class1: u8 = if events.unwritten_classes.class1 {
        Iin1::CLASS_1_EVENTS
    } else {
        0
    };
    let class2: u8 = if events.unwritten_classes.class2 {
        Iin1::CLASS_2_EVENTS
    } else {
        0
    };
    let class3: u8 = if events.unwritten_classes.class3 {
        Iin1::CLASS_3_EVENTS
    } else {
        0
    };
    let broadcast_bit: u8 = if broadcast.is_some() {
        Iin1::BROADCAST
    } else {
        0
    };
    let overflow: u8 = if events.is_overflown {
        Iin2::EVENT_BUFFER_OVERFLOW
    } else {
        0
    };
    let app = application.to_iin();
    Iin {
        iin1: Iin1 {
            value: restart_bit | class1 | class2 | class3 | broadcast_bit | app.iin1.value,
        },
        iin2: Iin2 { value: overflow | app.iin2.value },
    }
}

/// The memory of a broadcast after a response has reported it: kept only
/// when the broadcast asked for a confirmation.
pub open spec fn broadcast_after_report(broadcast: Option<BroadcastConfirmMode>) -> Option<
    BroadcastConfirmMode,
> {
    match broadcast {
        Some(BroadcastConfirmMode::Mandatory) => broadcast,
        _ => None,
    }
}

/// The kind of a fragment, given the request answered last.
pub open spec fn spec_classify(
    last: Option<LastValidRequest>,
    info: FragmentInfo,
    request: &Request,
) -> FragmentType {
    let seq = request.header.control.seq;
    let hash = spec_digest(request.raw_fragment@);
    if request.header.function == FunctionCode::Confirm {
        if request.header.control.uns {
            FragmentType::UnsolicitedConfirm(seq)
        } else {
            FragmentType::SolicitedConfirm(seq)
        }
    } else if let Some(mode) = info.broadcast {
        FragmentType::Broadcast(mode)
    } else if let Err(err) = request.objects {
        FragmentType::MalformedRequest(hash, err)
    } else if last is Some && last->0.seq@ == seq@ && last->0.request_hash == hash {
        if request.header.function == FunctionCode::Read {
            FragmentType::RepeatRead(hash, last->0.response)
        } else {
            FragmentType::RepeatNonRead(hash, last->0.response)
        }
    } else if request.header.function == FunctionCode::Read {
        FragmentType::NewRead(hash)
    } else {
        FragmentType::NewNonRead(hash)
    }
}

/// True when the kind of fragment comes with readable object headers.
pub open spec fn has_objects(kind: FragmentType) -> bool {
    kind is NewRead || kind is RepeatRead || kind is NewNonRead || kind is RepeatNonRead
}

impl<A: OutstationApplication, I: OutstationInformation, C: ControlHandler> OutstationSession<
    A,
    I,
    C,
> {
    /// Both transmit buffers have a size that configuration allows.
    pub open spec fn wf(&self) -> bool {
        &&& 249 <= self.sol_tx_buffer@.len() <= 2048
        &&& 249 <= self.unsol_tx_buffer@.len() <= 2048
    }

    /// Configuration, wait state, link deadline and both buffers are as in `old`.
    pub open spec fn keeps_all_but_state(&self, old: &Self) -> bool {
        &&& self.config == old.config
        &&& self.wait == old.wait
        &&& self.next_link_status == old.next_link_status
        &&& self.sol_tx_buffer == old.sol_tx_buffer
        &&& self.unsol_tx_buffer == old.unsol_tx_buffer
    }

    /// Configuration, wait state, link deadline and the buffer for
    /// unsolicited responses are as in `old`, and the buffer for solicited
    /// responses has kept its size.
    pub open spec fn keeps_all_but_state_and_sol(&self, old: &Self) -> bool {
        &&& self.config == old.config
        &&& self.wait == old.wait
        &&& self.next_link_status == old.next_link_status
        &&& self.unsol_tx_buffer == old.unsol_tx_buffer
        &&& self.sol_tx_buffer@.len() == old.sol_tx_buffer@.len()
    }

    /// True when the buffer for solicited responses starts with the header
    /// of the response on record: the fragment sent last is still there.
    pub open spec fn last_response_in_buffer(&self) -> bool {
        match self.state.last_valid_request {
            Some(last) => match last.response {
                Some(r) => self.sol_tx_buffer@.subrange(0, 4) == r.header.spec_bytes(),
                None => false,
            },
            None => false,
        }
    }

    /// True when the session waits for the confirmation of the response on
    /// record: the wait state holds the response and the series that the
    /// record holds, and the buffer starts with the header of that response.
    pub open spec fn awaits_recorded(&self) -> bool {
        &&& self.wait matches WaitState::SolConfirmWait { series, response, .. }
        &&& self.state.last_valid_request matches Some(last)
        &&& last.response == Some(response)
        &&& last.series == Some(series)
        &&& self.sol_tx_buffer@.subrange(0, 4) == response.header.spec_bytes()
    }

    /// The octets of a solicited fragment of `len` octets.
    pub open spec fn spec_solicited_fragment(&self, len: usize) -> Seq<u8> {
        if len <= self.sol_tx_buffer@.len() {
            self.sol_tx_buffer@.subrange(0, len as int)
        } else {
            self.sol_tx_buffer@
        }
    }

    /// The octets of an unsolicited fragment of `len` octets.
    pub open spec fn spec_unsolicited_fragment(&self, len: usize) -> Seq<u8> {
        if len <= self.unsol_tx_buffer@.len() {
            self.unsol_tx_buffer@.subrange(0, len as int)
        } else {
            self.unsol_tx_buffer@
        }
    }

    /// The instant at which the link is tested next when there is traffic
    /// at `now`.
    pub open spec fn spec_link_deadline(&self, now: Moment) -> Option<Moment> {
        match self.config.keep_alive_timeout {
            Some(timeout) => Some(now.spec_after(timeout)),
            None => None,
        }
    }

    /// What a session that has just been made looks like, whenever it was
    /// made.
    pub open spec fn fresh(
        s: &Self,
        config: SessionConfig,
        param: SessionParameters,
        application: A,
        information: I,
        control_handler: C,
    ) -> bool {
        &&& s.wf()
        &&& s.config == config
        &&& s.wait == WaitState::Idle
        &&& s.sol_tx_buffer@.len() == param.sol_tx_buffer_size@
        &&& s.unsol_tx_buffer@.len() == param.unsol_tx_buffer_size@
        &&& s.state@.restart_iin_asserted
        &&& s.state@.enabled_unsolicited_classes == (EventClasses {
            class1: false,
            class2: false,
            class3: false,
        })
        &&& s.state@.last_valid_request is None
        &&& s.state@.select is None
        &&& s.state@.unsolicited == UnsolicitedState::NullRequired
        &&& s.state@.unsolicited_seq == 0
        &&& s.state@.deferred_read.info is None
        &&& s.state@.deferred_read.max_headers == param.max_read_headers_per_request
        &&& s.state@.last_recorded_time is None
        &&& s.state@.last_broadcast_type is None
        &&& s.application == application
        &&& s.info == information
        &&& s.control_handler == control_handler
    }

    /// A session in the idle state, made now: the first test of the link is
    /// due one keep-alive time after the present reading of the clock.
    pub fn new(
        config: SessionConfig,
        param: SessionParameters,
        application: A,
        information: I,
        control_handler: C,
        clock: &Clock,
    ) -> (s: Self)
        ensures
            Self::fresh(&s, config, param, application, information, control_handler),
            exists|now: Moment| s.next_link_status == #[trigger] s.spec_link_deadline(now),
    {
        let now = clock.now();
        let s = Self::new_at(config, param, application, information, control_handler, now);
        proof {
            assert(s.next_link_status == s.spec_link_deadline(now));
        }
        s
    }

    /// A session in the idle state, made at `now`.
    pub fn new_at(
        config: SessionConfig,
        param: SessionParameters,
        application: A,
        information: I,
        control_handler: C,
        now: Moment,
    ) -> (s: Self)
        ensures
            Self::fresh(&s, config, param, application, information, control_handler),
            s.next_link_status == s.spec_link_deadline(now),
    {
        let next_link_status = match config.keep_alive_timeout {
            Some(delay) => Some(now.after(delay)),
            None => None,
        };
        proof {
            param.sol_tx_buffer_size.lemma_range();
            param.unsol_tx_buffer_size.lemma_range();
        }
        OutstationSession {
            config,
            sol_tx_buffer: param.sol_tx_buffer_size.create_buffer(),
            unsol_tx_buffer: param.unsol_tx_buffer_size.create_buffer(),
            state: SessionState::new(param.max_read_headers_per_request),
            wait: WaitState::Idle,
            application,
            info: information,
            control_handler,
            next_link_status,
        }
    }

    /// Forgets what belongs to one connection and returns to the idle state.
    pub fn reset(&mut self)
        ensures
            final(self).state@ == (SessionStateView {
                last_valid_request: None,
                select: None,
                deferred_read: old(self).state@.deferred_read.clear(),
                ..old(self).state@
            }),
            final(self).wait == WaitState::Idle,
            final(self).sol_tx_buffer == old(self).sol_tx_buffer,
            final(self).unsol_tx_buffer == old(self).unsol_tx_buffer,
            final(self).config == old(self).config,
            final(self).next_link_status == old(self).next_link_status,
    {
        self.state.reset();
        self.wait = WaitState::Idle;
    }

    /// True when the session waits for nothing.
    pub fn is_idle(&self) -> (b: bool)
        ensures
            b == (self.wait is Idle),
    {
        match self.wait {
            WaitState::Idle => true,
            _ => false,
        }
    }

    /// The instant at which the current wait ends, if the session waits.
    pub fn wait_deadline(&self) -> (d: Option<Moment>)
        ensures
            d == match self.wait {
                WaitState::Idle => None,
                WaitState::SolConfirmWait { deadline, .. } => Some(deadline),
                WaitState::UnsolConfirmWait { deadline, .. } => Some(deadline),
            },
    {
        match self.wait {
            WaitState::Idle => None,
            WaitState::SolConfirmWait { deadline, .. } => Some(deadline),
            WaitState::UnsolConfirmWait { deadline, .. } => Some(deadline),
        }
    }

    /// A copy of the octets of a solicited fragment of `len` octets.
    pub fn solicited_fragment(&self, len: usize) -> (bytes: Vec<u8>)
        ensures
            bytes@ == self.spec_solicited_fragment(len),
    {
        copy_prefix(&self.sol_tx_buffer, len)
    }

    /// A copy of the octets of an unsolicited fragment of `len` octets.
    pub fn unsolicited_fragment(&self, len: usize) -> (bytes: Vec<u8>)
        ensures
            bytes@ == self.spec_unsolicited_fragment(len),
    {
        copy_prefix(&self.unsol_tx_buffer, len)
    }

    /// Takes a change of configuration.
    pub fn handle_config_change(&mut self, message: ConfigurationChange)
        ensures
            match message {
                ConfigurationChange::SetDecodeLevel(level) => final(self).config == (SessionConfig {
                    decode_level: level,
                    ..old(self).config
                }),
            },
            final(self).state == old(self).state,
            final(self).wait == old(self).wait,
            final(self).sol_tx_buffer == old(self).sol_tx_buffer,
            final(self).unsol_tx_buffer == old(self).unsol_tx_buffer,
            final(self).next_link_status == old(self).next_link_status,
    {
        match message {
            ConfigurationChange::SetDecodeLevel(level) => {
                self.config.decode_level = level;
            },
        }
    }

    /// Notes traffic on the link at `now`: the next test of the link moves
    /// to one keep-alive time later.
    pub fn on_link_activity(&mut self, now: Moment)
        ensures
            final(self).next_link_status == old(self).spec_link_deadline(now),
            final(self).state == old(self).state,
            final(self).wait == old(self).wait,
            final(self).config == old(self).config,
            final(self).sol_tx_buffer == old(self).sol_tx_buffer,
            final(self).unsol_tx_buffer == old(self).unsol_tx_buffer,
            final(self).application == old(self).application,
            final(self).info == old(self).info,
            final(self).control_handler == old(self).control_handler,
    {
        self.next_link_status = match self.config.keep_alive_timeout {
            Some(timeout) => Some(now.after(timeout)),
            None => None,
        };
    }

    /// The deadline of a wait for a confirmation that starts at `now`.
    pub fn new_confirm_deadline(&self, now: Moment) -> (d: Moment)
        ensures
            d == now.spec_after(self.config.confirm_timeout),
    {
        now.after(self.config.confirm_timeout)
    }

    /// The instant from which unsolicited responses are tried again after
    /// one went unconfirmed at `now`.
    pub fn new_unsolicited_retry_deadline(&self, now: Moment) -> (d: Moment)
        ensures
            d == now.spec_after(self.config.unsolicited_retry_delay),
    {
        now.after(self.config.unsolicited_retry_delay)
    }

    /// Tells what kind of fragment a request is. A confirmation is told by
    /// its function code, a broadcast by its link address. Of the others,
    /// one whose sequence number and digest are those of the request answered
    /// last is a repetition.
    pub fn classify(&self, info: FragmentInfo, request: &Request) -> (kind: FragmentType)
        ensures
            kind == spec_classify(self.state.last_valid_request, info, request),
            has_objects(kind) ==> request.objects is Ok,
    {
        if request.header.function.same(&FunctionCode::Confirm) {
            return if request.header.control.uns {
                FragmentType::UnsolicitedConfirm(request.header.control.seq)
            } else {
                FragmentType::SolicitedConfirm(request.header.control.seq)
            };
        }
        if let Some(mode) = info.broadcast {
            return FragmentType::Broadcast(mode);
        }
        let this_hash = digest(&request.raw_fragment);
        if let Err(err) = &request.objects {
            return FragmentType::MalformedRequest(this_hash, *err);
        }
        if let Some(last) = self.state.last_valid_request {
            if last.seq.same(&request.header.control.seq) && last.request_hash == this_hash {
                return if request.header.function.same(&FunctionCode::Read) {
                    FragmentType::RepeatRead(this_hash, last.response)
                } else {
                    FragmentType::RepeatNonRead(this_hash, last.response)
                };
            }
        }
        if request.header.function.same(&FunctionCode::Read) {
            FragmentType::NewRead(this_hash)
        } else {
            FragmentType::NewNonRead(this_hash)
        }
    }

    /// The indications that the next response reports. A broadcast that did
    /// not ask for a confirmation is forgotten once it has been reported. The
    /// application adds bits of its own: the result is that of
    /// `spec_response_iin` for some answer of the application.
    pub fn get_response_iin(&mut self, database: &Database) -> (iin: Iin)
        ensures
            exists|application: ApplicationIin|
                iin == #[trigger] spec_response_iin(
                    old(self).state.restart_iin_asserted,
                    database@.events_info(),
                    old(self).state.last_broadcast_type,
                    application,
                ),
            final(self).state@ == (SessionStateView {
                last_broadcast_type: broadcast_after_report(old(self).state.last_broadcast_type),
                ..old(self).state@
            }),
            final(self).wait == old(self).wait,
            final(self).config == old(self).config,
            final(self).sol_tx_buffer == old(self).sol_tx_buffer,
            final(self).unsol_tx_buffer == old(self).unsol_tx_buffer,
            final(self).next_link_status == old(self).next_link_status,
            final(self).application == old(self).application,
            final(self).control_handler == old(self).control_handler,
    {
        let events_info = database.get_events_info();
        let application = self.application.get_application_iin();
        let iin = response_iin(
            self.state.restart_iin_asserted,
            events_info,
            self.state.last_broadcast_type,
            application,
        );
        match self.state.last_broadcast_type {
            Some(BroadcastConfirmMode::Mandatory) => {},
            _ => {
                self.state.last_broadcast_type = None;
            },
        }
        iin
    }

    /// Writes the header of `response` into the buffer for solicited
    /// responses, over the four octets kept free for it, and returns the
    /// number of octets that go on the wire. A fragment that is already in
    /// the buffer is thereby sent again as it was.
    pub fn repeat_solicited(&mut self, response: Response) -> (len: usize)
        requires
            old(self).wf(),
        ensures
            final(self).wf(),
            final(self).sol_tx_buffer@ == response.header.spec_written(old(self).sol_tx_buffer@),
            len == response.spec_length(old(self).sol_tx_buffer@.len() as int),
            final(self).unsol_tx_buffer == old(self).unsol_tx_buffer,
            final(self).state == old(self).state,
            final(self).wait == old(self).wait,
            final(self).config == old(self).config,
            final(self).next_link_status == old(self).next_link_status,
            final(self).application == old(self).application,
            final(self).control_handler == old(self).control_handler,
    {
        let _ = response.header.write(&mut self.sol_tx_buffer);
        response_length(response, self.sol_tx_buffer.len())
    }

    /// Writes the header of `response` into the buffer for unsolicited
    /// responses, over the four octets kept free for it, and returns the
    /// number of octets that go on the wire.
    pub fn repeat_unsolicited(&mut self, response: Response) -> (len: usize)
        requires
            old(self).wf(),
        ensures
            final(self).wf(),
            final(self).unsol_tx_buffer@ == response.header.spec_written(
                old(self).unsol_tx_buffer@,
            ),
            len == response.spec_length(old(self).unsol_tx_buffer@.len() as int),
            final(self).sol_tx_buffer == old(self).sol_tx_buffer,
            final(self).state == old(self).state,
            final(self).wait == old(self).wait,
            final(self).config == old(self).config,
            final(self).next_link_status == old(self).next_link_status,
            final(self).application == old(self).application,
            final(self).control_handler == old(self).control_handler,
    {
        let _ = response.header.write(&mut self.unsol_tx_buffer);
        response_length(response, self.unsol_tx_buffer.len())
    }

    /// Completes a solicited response and puts it in its buffer: the
    /// indications of the moment are added to those of the response, and a
    /// confirmation is asked for when a broadcast that wants one is still
    /// unreported. Returns the response as sent and its length on the wire.
    pub fn write_solicited(&mut self, response: Response, database: &Database) -> (r: (
        Response,
        usize,
    ))
        requires
            old(self).wf(),
        ensures
            final(self).wf(),
            exists|application: ApplicationIin|
                r.0 == #[trigger] spec_sent_solicited(
                    response,
                    old(self).state.restart_iin_asserted,
                    database@.events_info(),
                    old(self).state.last_broadcast_type,
                    application,
                ),
            final(self).sol_tx_buffer@ == r.0.header.spec_written(old(self).sol_tx_buffer@),
            r.1 == r.0.spec_length(old(self).sol_tx_buffer@.len() as int),
            final(self).state@ == (SessionStateView {
                last_broadcast_type: broadcast_after_report(old(self).state.last_broadcast_type),
                ..old(self).state@
            }),
            final(self).unsol_tx_buffer == old(self).unsol_tx_buffer,
            final(self).wait == old(self).wait,
            final(self).config == old(self).config,
            final(self).next_link_status == old(self).next_link_status,
            final(self).application == old(self).application,
            final(self).control_handler == old(self).control_handler,
    {
        let mut sent = response;
        let iin = self.get_response_iin(database);
        sent.header.iin = sent.header.iin.or(iin);
        if let Some(BroadcastConfirmMode::Mandatory) = self.state.last_broadcast_type {
            if !sent.header.control.con {
                sent.header.control.con = true;
            }
        }
        proof {
            let application = choose|application: ApplicationIin|
                iin == #[trigger] spec_response_iin(
                    old(self).state.restart_iin_asserted,
                    database@.events_info(),
                    old(self).state.last_broadcast_type,
                    application,
                );
            assert(sent == spec_sent_solicited(
                response,
                old(self).state.restart_iin_asserted,
                database@.events_info(),
                old(self).state.last_broadcast_type,
                application,
            ));
        }
        let len = self.repeat_solicited(sent);
        (sent, len)
    }

    /// Completes an unsolicited response and puts it in its buffer: the
    /// indications of the moment are added to those of the response.
    /// Returns the response as sent and its length on the wire.
    pub fn write_unsolicited(&mut self, response: Response, database: &Database) -> (r: (
        Response,
        usize,
    ))
        requires
            old(self).wf(),
        ensures
            final(self).wf(),
            exists|application: ApplicationIin|
                r.0 == #[trigger] spec_sent_unsolicited(
                    response,
                    old(self).state.restart_iin_asserted,
                    database@.events_info(),
                    old(self).state.last_broadcast_type,
                    application,
                ),
            final(self).unsol_tx_buffer@ == r.0.header.spec_written(old(self).unsol_tx_buffer@),
            r.1 == r.0.spec_length(old(self).unsol_tx_buffer@.len() as int),
            final(self).state@ == (SessionStateView {
                last_broadcast_type: broadcast_after_report(old(self).state.last_broadcast_type),
                ..old(self).state@
            }),
            final(self).sol_tx_buffer == old(self).sol_tx_buffer,
            final(self).wait == old(self).wait,
            final(self).config == old(self).config,
            final(self).next_link_status == old(self).next_link_status,
            final(self).application == old(self).application,
            final(self).control_handler == old(self).control_handler,
    {
        let mut sent = response;
        let iin = self.get_response_iin(database);
        sent.header.iin = sent.header.iin.or(iin);
        proof {
            let application = choose|application: ApplicationIin|
                iin == #[trigger] spec_response_iin(
                    old(self).state.restart_iin_asserted,
                    database@.events_info(),
                    old(self).state.last_broadcast_type,
                    application,
                );
            assert(sent == spec_sent_unsolicited(
                response,
                old(self).state.restart_iin_asserted,
                database@.events_info(),
                old(self).state.last_broadcast_type,
                application,
            ));
        }
        let len = self.repeat_unsolicited(sent);
        (sent, len)
    }
}

/// A solicited response as it is sent: with the indications of the moment
/// added, and asking for a confirmation when a broadcast that wants one is
/// still unreported.
pub open spec fn spec_sent_solicited(
    response: Response,
    restart: bool,
    events: EventsInfo,
    broadcast: Option<BroadcastConfirmMode>,
    application: ApplicationIin,
) -> Response {
    Response {
        header: ResponseHeader {
            control: ControlField {
                con: response.header.control.con || broadcast == Some(
                    BroadcastConfirmMode::Mandatory,
                ),
                ..response.header.control
            },
            function: response.header.function,
            iin: response.header.iin.spec_or(
                spec_response_iin(restart, events, broadcast, application),
            ),
        },
        size: response.size,
    }
}

/// An unsolicited response as it is sent: with the indications of the
/// moment added.
pub open spec fn spec_sent_unsolicited(
    response: Response,
    restart: bool,
    events: EventsInfo,
    broadcast: Option<BroadcastConfirmMode>,
    application: ApplicationIin,
) -> Response {
    Response {
        header: ResponseHeader {
            control: response.header.control,
            function: response.header.function,
            iin: response.header.iin.spec_or(
                spec_response_iin(restart, events, broadcast, application),
            ),
        },
        size: response.size,
    }
}

/// Number of octets that go on the wire for `response` out of a buffer of
/// `capacity` octets.
pub fn response_length(response: Response, capacity: usize) -> (len: usize)
    ensures
        len == response.spec_length(capacity as int),
{
    let wanted: usize = if response.size < ResponseHeader::LENGTH {
        ResponseHeader::LENGTH
    } else {
        response.size
    };
    if wanted <= capacity {
        wanted
    } else {
        capacity
    }
}

/// A copy of the first `len` octets of `buffer`, or of all when it has fewer.
pub fn copy_prefix(buffer: &Vec<u8>, len: usize) -> (bytes: Vec<u8>)
    ensures
        bytes@ == if len <= buffer@.len() {
            buffer@.subrange(0, len as int)
        } else {
            buffer@
        },
{
    let n: usize = if len <= buffer.len() {
        len
    } else {
        buffer.len()
    };
    let mut bytes: Vec<u8> = Vec::new();
    let mut i: usize = 0;
    while i < n
        invariant
            n <= buffer@.len(),
            i <= n,
            bytes@ == buffer@.subrange(0, i as int),
        decreases n - i,
    {
        bytes.push(buffer[i]);
        i = i + 1;
        proof {
            assert(bytes@ =~= buffer@.subrange(0, i as int));
        }
    }
    proof {
        assert(buffer@.subrange(0, buffer@.len() as int) =~= buffer@);
    }
    bytes
}

} // verus!
