use vstd::prelude::*;
use vstd::bytes::{spec_u16_to_le_bytes, u16_to_le_bytes};
use crate::app::control_field::ControlField;
use crate::app::function_code::FunctionCode;
use crate::app::header::{ResponseFunction, ResponseHeader};
use crate::app::iin::{Iin2, Iin};
use crate::app::parse::{
    AllObjectsVariation,
    CountVariation,
    HeaderCollection,
    HeaderDetails,
    ObjectHeader,
    ObjectParseError,
    RangedVariation,
    Request,
    single,
    spec_single,
};
use crate::app::sequence::Sequence;
use crate::app::timestamp::Timestamp;
use crate::app::variations::{Group50Var1, Group50Var3};
use crate::link::address::BroadcastConfirmMode;
use crate::outstation::config::Feature;
use crate::outstation::control::{
    CommandStatus,
    ControlCollection,
    ControlOutcome,
    ControlTransaction,
    aggregate,
    append,
    beyond_limit,
    count_controls,
    echo_headers,
    echo_length,
    first_non_control,
    lemma_aggregate_uniform,
    lemma_all_control_headers,
    lemma_echo_length,
    uniform,
};
use crate::outstation::database::{Database, DatabaseView, EventClasses, copy_into, overwrite};
use crate::outstation::select::SelectState;
use crate::outstation::session::{OutstationSession, Response, SessionStateView};
use crate::outstation::traits::{
    BroadcastAction,
    ControlHandler,
    FreezeIndices,
    FreezeResult,
    FreezeType,
    OperateType,
    OutstationApplication,
    OutstationInformation,
    RestartDelay,
    WriteTimeResult,
    bits_if,
};
use crate::util::time::Moment;

verus! {

/// The indication bits that report why object headers could not be read.
pub open spec fn spec_iin2_of_error(err: ObjectParseError) -> u8 {
    match err {
        ObjectParseError::InsufficientBytes => Iin2::PARAMETER_ERROR,
        ObjectParseError::InvalidQualifierForVariation(_, _) => Iin2::NO_FUNC_CODE_SUPPORT,
        ObjectParseError::InvalidRange(_, _) => Iin2::PARAMETER_ERROR,
        ObjectParseError::UnknownGroupVariation(_, _) => Iin2::OBJECT_UNKNOWN,
        ObjectParseError::UnsupportedQualifierCode(_) => Iin2::PARAMETER_ERROR,
        ObjectParseError::UnknownQualifier(_) => Iin2::PARAMETER_ERROR,
        ObjectParseError::ZeroLengthOctetData => Iin2::PARAMETER_ERROR,
    }
}

impl Iin2 {
    /// The indication bits that report why object headers could not be read:
    /// an unknown object raises `OBJECT_UNKNOWN`, a qualifier that does not
    /// go with its variation `NO_FUNC_CODE_SUPPORT`, anything else
    /// `PARAMETER_ERROR`.
    pub fn from(err: ObjectParseError) -> (r: Iin2)
        ensures
            r.value == spec_iin2_of_error(err),
    {
        match err {
            ObjectParseError::InsufficientBytes => Iin2 { value: Iin2::PARAMETER_ERROR },
            ObjectParseError::InvalidQualifierForVariation(_, _) => Iin2 {
                value: Iin2::NO_FUNC_CODE_SUPPORT,
            },
            ObjectParseError::InvalidRange(_, _) => Iin2 { value: Iin2::PARAMETER_ERROR },
            ObjectParseError::UnknownGroupVariation(_, _) => Iin2 { value: Iin2::OBJECT_UNKNOWN },
            ObjectParseError::UnsupportedQualifierCode(_) => Iin2 { value: Iin2::PARAMETER_ERROR },
            ObjectParseError::UnknownQualifier(_) => Iin2 { value: Iin2::PARAMETER_ERROR },
            ObjectParseError::ZeroLengthOctetData => Iin2 { value: Iin2::PARAMETER_ERROR },
        }
    }
}

/// The empty solicited response to `seq` that reports the bits `iin2`.
pub open spec fn empty_reply(seq: Sequence, iin2: u8) -> Response {
    Response::spec_empty_solicited(seq, Iin::spec_from_iin2(Iin2 { value: iin2 }))
}

/// The solicited response to `seq` that is complete in one fragment, takes
/// `size` octets of the buffer and reports the bits `iin2`.
pub open spec fn single_reply(seq: Sequence, iin2: u8, size: usize) -> Response {
    Response {
        header: ResponseHeader {
            control: ControlField { fir: true, fin: true, con: false, uns: false, seq },
            function: ResponseFunction::Response,
            iin: Iin::spec_from_iin2(Iin2 { value: iin2 }),
        },
        size,
    }
}

/// `response` with the bits of `iin2` added, unless there are none to add.
pub open spec fn with_more_iin2(response: Response, iin2: u8) -> Response {
    if iin2 == 0 {
        response
    } else {
        Response {
            header: ResponseHeader {
                iin: response.header.iin.spec_with_iin2(iin2),
                ..response.header
            },
            size: response.size,
        }
    }
}

/// The indication bits that a request earns by carrying object headers
/// with a function that takes none.
pub open spec fn spec_get_iin2(function: FunctionCode, headers: &HeaderCollection) -> u8 {
    if function.spec_objects_allowed() || headers.data@.len() == 0 {
        0
    } else {
        Iin2::PARAMETER_ERROR
    }
}

/// True when a bit written by the master clears the restart indication:
/// index 7, value off.
pub open spec fn clears_restart(item: (bool, u16)) -> bool {
    item.1 == 7 && !item.0
}

/// True when one of the bits written clears the restart indication.
pub open spec fn any_clears_restart(items: Seq<(bool, u16)>) -> bool {
    exists|i: int| 0 <= i < items.len() && clears_restart(#[trigger] items[i])
}

/// True when one of the bits written is anything but a clear of the
/// restart indication.
pub open spec fn any_refused_bit(items: Seq<(bool, u16)>) -> bool {
    exists|i: int| 0 <= i < items.len() && !clears_restart(#[trigger] items[i])
}

/// The bits of the internal indications that a write request writes, when
/// it is a write of such bits.
pub open spec fn written_iin_bits(headers: &HeaderCollection) -> Option<Seq<(bool, u16)>> {
    match headers.spec_only_header() {
        Some(header) => match header.details {
            HeaderDetails::OneByteStartStop(_, _, RangedVariation::Group80Var1(items)) => Some(
                items@,
            ),
            _ => None,
        },
        None => None,
    }
}

/// True when the request, carried out, clears the restart indication: a
/// write of internal indication bits with bit 7 off among them.
pub open spec fn request_clears_restart(function: FunctionCode, headers: &HeaderCollection) -> bool {
    function == FunctionCode::Write && match written_iin_bits(headers) {
        Some(items) => any_clears_restart(items),
        None => false,
    }
}

/// The time that a write relative to the last recorded time sets: the time
/// written plus what has passed since the recording. None when the request
/// does not hold exactly one time, when no time was recorded, when the
/// clock ran backwards, or when the sum exceeds 48 bits.
pub open spec fn spec_g50v3_time(
    items: Seq<Group50Var3>,
    last_recorded_time: Option<Moment>,
    now: Moment,
) -> Option<int> {
    match (spec_single(items), last_recorded_time) {
        (Some(value), Some(recorded)) => match now.spec_checked_duration_since(recorded) {
            Some(delay) => if value.time@ + delay.millis <= Timestamp::MAX_VALUE {
                Some(value.time@ + delay.millis)
            } else {
                None
            },
            None => None,
        },
        _ => None,
    }
}

/// The octets of an object header that counts one object of two octets.
pub open spec fn count_of_one_u16(group: u8, var: u8, value: u16) -> Seq<u8> {
    seq![group, var, 0x07u8, 1u8] + spec_u16_to_le_bytes(value)
}

/// The octets that report a restart delay: a coarse delay for seconds, a
/// fine delay for milliseconds.
pub open spec fn restart_delay_bytes(delay: RestartDelay) -> Seq<u8> {
    match delay {
        RestartDelay::Seconds(value) => count_of_one_u16(52, 1, value),
        RestartDelay::Milliseconds(value) => count_of_one_u16(52, 2, value),
    }
}

/// Writes an object header that counts one object of two octets into the
/// buffer, after the room for the response header.
fn write_count_of_one_u16(buffer: &mut Vec<u8>, group: u8, var: u8, value: u16) -> (size: usize)
    requires
        249 <= old(buffer)@.len(),
    ensures
        final(buffer)@ == overwrite(old(buffer)@, 4, count_of_one_u16(group, var, value)),
        final(buffer)@.len() == old(buffer)@.len(),
        size == 10,
{
    let mut bytes: Vec<u8> = Vec::new();
    bytes.push(group);
    bytes.push(var);
    bytes.push(0x07);
    bytes.push(1);
    let v = u16_to_le_bytes(value);
    append(&mut bytes, &v);
    proof {
        assert(bytes@ =~= count_of_one_u16(group, var, value));
    }
    copy_into(buffer, 4, &bytes);
    10
}

/// True when a header of an enable or disable request names the class.
pub open spec fn names_class(details: HeaderDetails, class: AllObjectsVariation) -> bool {
    details == HeaderDetails::AllObjects(class)
}

/// True when one of the first `n` headers names the class.
pub open spec fn any_names_class(headers: Seq<ObjectHeader>, class: AllObjectsVariation, n: int) -> bool {
    exists|i: int| 0 <= i < n && names_class((#[trigger] headers[i]).details, class)
}

/// True when a header names none of the three event classes.
pub open spec fn names_no_class(details: HeaderDetails) -> bool {
    !names_class(details, AllObjectsVariation::Group60Var2) && !names_class(
        details,
        AllObjectsVariation::Group60Var3,
    ) && !names_class(details, AllObjectsVariation::Group60Var4)
}

/// True when one of the first `n` headers names none of the event classes.
pub open spec fn any_names_no_class(headers: Seq<ObjectHeader>, n: int) -> bool {
    exists|i: int| 0 <= i < n && names_no_class((#[trigger] headers[i]).details)
}

/// The classes enabled after an enable or disable request for the first
/// `n` headers: each class that a header names is switched as asked.
pub open spec fn switched_classes(
    classes: EventClasses,
    enable: bool,
    headers: Seq<ObjectHeader>,
    n: int,
) -> EventClasses {
    EventClasses {
        class1: if any_names_class(headers, AllObjectsVariation::Group60Var2, n) {
            enable
        } else {
            classes.class1
        },
        class2: if any_names_class(headers, AllObjectsVariation::Group60Var3, n) {
            enable
        } else {
            classes.class2
        },
        class3: if any_names_class(headers, AllObjectsVariation::Group60Var4, n) {
            enable
        } else {
            classes.class3
        },
    }
}

/// The counters that a header of a freeze request addresses, if it
/// addresses counters.
pub open spec fn spec_freeze_indices(details: HeaderDetails) -> Option<FreezeIndices> {
    match details {
        HeaderDetails::AllObjects(AllObjectsVariation::Group20Var0) => Some(FreezeIndices::All),
        HeaderDetails::OneByteStartStop(start, stop, RangedVariation::Group20Var0) => Some(
            FreezeIndices::Range(start as u16, stop as u16),
        ),
        HeaderDetails::TwoByteStartStop(start, stop, RangedVariation::Group20Var0) => Some(
            FreezeIndices::Range(start, stop),
        ),
        _ => None,
    }
}

/// True when one of the first `n` headers of a freeze request addresses
/// counters, so that the application is asked to freeze.
pub open spec fn any_freezes(headers: Seq<ObjectHeader>, n: int) -> bool
    decreases n,
{
    if n <= 0 {
        false
    } else {
        any_freezes(headers, n - 1) || spec_freeze_indices(headers[n - 1].details) is Some
    }
}

/// The indication bits of a freeze request after its first `n` headers:
/// those that the application's answers raise, and `NO_FUNC_CODE_SUPPORT`
/// for each header that addresses no counters. `results[i]` is the
/// application's answer for header `i`, where it was asked.
pub open spec fn freeze_bits(headers: Seq<ObjectHeader>, results: Seq<FreezeResult>, n: int) -> u8
    decreases n,
{
    if n <= 0 {
        0
    } else {
        freeze_bits(headers, results, n - 1) | (match spec_freeze_indices(headers[n - 1].details) {
            Some(_) => results[n - 1].spec_iin2(),
            None => Iin2::NO_FUNC_CODE_SUPPORT,
        })
    }
}

/// The indication bits of a freeze depend only on the answers they read.
pub proof fn lemma_freeze_bits_prefix(
    headers: Seq<ObjectHeader>,
    a: Seq<FreezeResult>,
    b: Seq<FreezeResult>,
    n: int,
)
    requires
        n <= a.len(),
        n <= b.len(),
        forall|i: int| 0 <= i < n ==> a[i] == b[i],
    ensures
        freeze_bits(headers, a, n) == freeze_bits(headers, b, n),
    decreases n,
{
    if n > 0 {
        lemma_freeze_bits_prefix(headers, a, b, n - 1);
    }
}

/// True when a control request is refused as a whole, before any control
/// is looked at: a header of it holds no controls, or the echo of the
/// request does not fit a buffer of `capacity` octets behind the response
/// header.
pub open spec fn control_request_refused(headers: &HeaderCollection, capacity: int) -> bool {
    ||| first_non_control(headers.headers@, headers.headers@.len() as int) is Some
    ||| 4 + echo_length(headers.headers@, headers.headers@.len() as int) > capacity
}

/// The reply to a control request and the buffer that holds it, given the
/// status of each control. The echo of the request goes into the buffer
/// after the room for the response header. A status `NotSupported` of the
/// controls together raises `PARAMETER_ERROR`.
pub open spec fn control_reply(
    buffer: Seq<u8>,
    headers: Seq<ObjectHeader>,
    statuses: Seq<CommandStatus>,
    seq: Sequence,
) -> (Seq<u8>, Response) {
    let echo = echo_headers(headers, statuses, headers.len() as int);
    let status = aggregate(statuses, statuses.len() as int);
    (
        overwrite(buffer, 4, echo),
        single_reply(
            seq,
            bits_if(status == CommandStatus::NotSupported, Iin2::PARAMETER_ERROR),
            (4 + echo.len()) as usize,
        ),
    )
}

/// What a select with the given statuses does to the select on record:
/// it is recorded when every control succeeded.
pub open spec fn select_after(
    prior: Option<SelectState>,
    headers: &HeaderCollection,
    statuses: Seq<CommandStatus>,
    seq: Sequence,
    frame_id: u32,
    now: Moment,
) -> Option<SelectState> {
    if aggregate(statuses, statuses.len() as int) == CommandStatus::Success {
        Some(SelectState { seq, frame_id, time: now, object_hash: headers.spec_hash() })
    } else {
        prior
    }
}

/// The statuses are those of the controls of a request under a limit on
/// controls: one for each control, `NotSupported` beyond the limit.
pub open spec fn statuses_fit(
    headers: Seq<ObjectHeader>,
    statuses: Seq<CommandStatus>,
    max_controls: Option<u16>,
) -> bool {
    &&& statuses.len() == count_controls(headers, headers.len() as int)
    &&& forall|i: int|
        0 <= i < statuses.len() && beyond_limit(i, max_controls) ==> statuses[i]
            == CommandStatus::NotSupported
}

/// What an operate finds when it is tested against the select on record:
/// the status that refuses it, or none when it matches.
pub open spec fn operate_refusal(
    select: Option<SelectState>,
    now: Moment,
    timeout: crate::util::time::Millis,
    seq: Sequence,
    frame_id: u32,
    object_hash: u64,
) -> Option<CommandStatus> {
    match select {
        None => Some(CommandStatus::NoSelect),
        Some(s) => s.spec_match_operate(now, timeout, seq, frame_id, object_hash),
    }
}

/// True when a control request hands at least one control to the
/// handler: every header holds controls, there is a control among them, and
/// the limit on controls per request is not zero.
pub open spec fn controls_reach_handler(headers: &HeaderCollection, max_controls: Option<u16>) -> bool {
    &&& first_non_control(headers.headers@, headers.headers@.len() as int) is None
    &&& count_controls(headers.headers@, headers.headers@.len() as int) > 0
    &&& !beyond_limit(0, max_controls)
}

/// True for the functions that a broadcast may carry.
pub open spec fn broadcast_allowed(function: FunctionCode) -> bool {
    function == FunctionCode::Write || function == FunctionCode::DirectOperateNoResponse
        || function == FunctionCode::ImmediateFreezeNoResponse || function
        == FunctionCode::FreezeClearNoResponse || function == FunctionCode::RecordCurrentTime
        || function == FunctionCode::DisableUnsolicited || function
        == FunctionCode::EnableUnsolicited
}

/// What becomes of a broadcast request.
pub open spec fn spec_broadcast_action(broadcast: Feature, request: &Request) -> BroadcastAction {
    if broadcast == Feature::Disabled {
        BroadcastAction::IgnoredByConfiguration
    } else if request.objects is Err {
        BroadcastAction::BadObjectHeaders
    } else if broadcast_allowed(request.header.function) {
        BroadcastAction::Processed
    } else {
        BroadcastAction::UnsupportedFunction(request.header.function)
    }
}

/// True for the functions that get no response.
pub open spec fn no_response(function: FunctionCode) -> bool {
    function == FunctionCode::DirectOperateNoResponse || function
        == FunctionCode::ImmediateFreezeNoResponse || function
        == FunctionCode::FreezeClearNoResponse
}

impl<A: OutstationApplication, I: OutstationInformation, C: ControlHandler> OutstationSession<
    A,
    I,
    C,
> {
    /// What a write request does, as far as the session decides it. The
    /// control handler is never involved, and the application only where a
    /// time is handed to it.
    pub open spec fn write_post(
        pre: &Self,
        post: &Self,
        now: Moment,
        seq: Sequence,
        headers: &HeaderCollection,
        response: Response,
    ) -> bool {
        &&& post.keeps_all_but_state(pre)
        &&& post.control_handler == pre.control_handler
        &&& response.header.control == (ControlField {
            fir: true,
            fin: true,
            con: false,
            uns: false,
            seq,
        })
        &&& response.header.function == ResponseFunction::Response
        &&& response.header.iin.iin1.value == 0
        &&& response.size == 0
        &&& match headers.spec_only_header() {
            None => {
                &&& response == empty_reply(seq, 0)
                &&& post.state@ == pre.state@
                &&& post.application == pre.application
            },
            Some(header) => match header.details {
                HeaderDetails::OneByteStartStop(_, _, RangedVariation::Group80Var1(items)) => {
                    &&& post.application == pre.application
                    &&& response == empty_reply(
                        seq,
                        bits_if(any_refused_bit(items@), Iin2::PARAMETER_ERROR),
                    )
                    &&& post.state@ == (SessionStateView {
                        restart_iin_asserted: pre.state.restart_iin_asserted && !any_clears_restart(
                            items@,
                        ),
                        ..pre.state@
                    })
                },
                HeaderDetails::OneByteCount(_, CountVariation::Group50Var1(items)) => {
                    &&& post.state@ == pre.state@
                    &&& match spec_single(items@) {
                        Some(_) => exists|answer: WriteTimeResult|
                            response == empty_reply(seq, #[trigger] answer.spec_iin2()),
                        None => {
                            &&& response == empty_reply(seq, Iin2::PARAMETER_ERROR)
                            &&& post.application == pre.application
                        },
                    }
                },
                HeaderDetails::OneByteCount(_, CountVariation::Group50Var3(items)) => {
                    match spec_g50v3_time(items@, pre.state.last_recorded_time, now) {
                        Some(_) => {
                            &&& post.state@ == (SessionStateView {
                                last_recorded_time: None,
                                ..pre.state@
                            })
                            &&& exists|answer: WriteTimeResult|
                                response == empty_reply(seq, #[trigger] answer.spec_iin2())
                        },
                        None => {
                            &&& post.state@ == pre.state@
                            &&& post.application == pre.application
                            &&& response == empty_reply(seq, Iin2::PARAMETER_ERROR)
                        },
                    }
                },
                _ => {
                    &&& response == empty_reply(seq, Iin2::NO_FUNC_CODE_SUPPORT)
                    &&& post.state@ == pre.state@
                    &&& post.application == pre.application
                },
            },
        }
    }

    /// What a control request that is refused as a whole does: it is
    /// answered with `PARAMETER_ERROR`, and nothing else happens. Neither the
    /// handler nor the application nor the database hears of it.
    pub open spec fn refused_post(
        pre: &Self,
        post: &Self,
        db_pre: DatabaseView,
        db_post: DatabaseView,
        seq: Sequence,
        response: Response,
    ) -> bool {
        &&& response == empty_reply(seq, Iin2::PARAMETER_ERROR)
        &&& post.sol_tx_buffer == pre.sol_tx_buffer
        &&& post.state == pre.state
        &&& post.control_handler == pre.control_handler
        &&& post.application == pre.application
        &&& db_post == db_pre
    }

    /// What a direct operate does to the session and the database. Where
    /// no control reaches the handler, handler and database stay as they
    /// are.
    pub open spec fn control_post(
        pre: &Self,
        post: &Self,
        db_pre: DatabaseView,
        db_post: DatabaseView,
        seq: Sequence,
        headers: &HeaderCollection,
        response: Response,
    ) -> bool {
        &&& post.keeps_all_but_state_and_sol(pre)
        &&& post.application == pre.application
        &&& post.state == pre.state
        &&& !controls_reach_handler(headers, pre.config.max_controls_per_request) ==> {
            &&& db_post == db_pre
            &&& post.control_handler == pre.control_handler
        }
        &&& if control_request_refused(headers, pre.sol_tx_buffer@.len() as int) {
            Self::refused_post(pre, post, db_pre, db_post, seq, response)
        } else {
            exists|statuses: Seq<CommandStatus>|
                {
                    &&& statuses_fit(headers.headers@, statuses, pre.config.max_controls_per_request)
                    &&& (post.sol_tx_buffer@, response) == #[trigger] control_reply(
                        pre.sol_tx_buffer@,
                        headers.headers@,
                        statuses,
                        seq,
                    )
                }
        }
    }

    /// What a select does to the session and the database. Where no
    /// control reaches the handler, handler and database stay as they are.
    pub open spec fn select_post(
        pre: &Self,
        post: &Self,
        db_pre: DatabaseView,
        db_post: DatabaseView,
        now: Moment,
        seq: Sequence,
        frame_id: u32,
        headers: &HeaderCollection,
        response: Response,
    ) -> bool {
        &&& post.keeps_all_but_state_and_sol(pre)
        &&& post.application == pre.application
        &&& !controls_reach_handler(headers, pre.config.max_controls_per_request) ==> {
            &&& db_post == db_pre
            &&& post.control_handler == pre.control_handler
        }
        &&& if control_request_refused(headers, pre.sol_tx_buffer@.len() as int) {
            Self::refused_post(pre, post, db_pre, db_post, seq, response)
        } else {
            exists|statuses: Seq<CommandStatus>|
                {
                    &&& statuses_fit(headers.headers@, statuses, pre.config.max_controls_per_request)
                    &&& (post.sol_tx_buffer@, response) == #[trigger] control_reply(
                        pre.sol_tx_buffer@,
                        headers.headers@,
                        statuses,
                        seq,
                    )
                    &&& post.state@ == (SessionStateView {
                        select: select_after(
                            pre.state.select,
                            headers,
                            statuses,
                            seq,
                            frame_id,
                            now,
                        ),
                        ..pre.state@
                    })
                }
        }
    }

    /// What an operate does to the session and the database. Where no
    /// control reaches the handler, handler and database stay as they are.
    pub open spec fn operate_post(
        pre: &Self,
        post: &Self,
        db_pre: DatabaseView,
        db_post: DatabaseView,
        now: Moment,
        seq: Sequence,
        frame_id: u32,
        headers: &HeaderCollection,
        response: Response,
    ) -> bool {
        &&& post.keeps_all_but_state_and_sol(pre)
        &&& post.application == pre.application
        &&& !controls_reach_handler(headers, pre.config.max_controls_per_request) ==> {
            &&& db_post == db_pre
            &&& post.control_handler == pre.control_handler
        }
        &&& if control_request_refused(headers, pre.sol_tx_buffer@.len() as int) {
            Self::refused_post(pre, post, db_pre, db_post, seq, response)
        } else {
            match operate_refusal(
                pre.state.select,
                now,
                pre.config.select_timeout,
                seq,
                frame_id,
                headers.spec_hash(),
            ) {
                Some(status) => {
                    &&& (post.sol_tx_buffer@, response) == control_reply(
                        pre.sol_tx_buffer@,
                        headers.headers@,
                        uniform(
                            status,
                            count_controls(headers.headers@, headers.headers@.len() as int),
                        ),
                        seq,
                    )
                    &&& post.state == pre.state
                    &&& post.control_handler == pre.control_handler
                    &&& db_post == db_pre
                },
                None => exists|statuses: Seq<CommandStatus>|
                    {
                        &&& statuses_fit(
                            headers.headers@,
                            statuses,
                            pre.config.max_controls_per_request,
                        )
                        &&& (post.sol_tx_buffer@, response) == #[trigger] control_reply(
                            pre.sol_tx_buffer@,
                            headers.headers@,
                            statuses,
                            seq,
                        )
                        &&& post.state@ == (SessionStateView { select: None, ..pre.state@ })
                    },
            }
        }
    }

    /// What a direct operate without response does: the session stays as
    /// it is but for its handler, and where no control reaches the handler,
    /// handler and database stay as they are too.
    pub open spec fn direct_operate_no_ack_post(
        pre: &Self,
        post: &Self,
        db_pre: DatabaseView,
        db_post: DatabaseView,
        headers: &HeaderCollection,
    ) -> bool {
        &&& post.keeps_all_but_state(pre)
        &&& post.application == pre.application
        &&& post.state == pre.state
        &&& !controls_reach_handler(headers, pre.config.max_controls_per_request) ==> {
            &&& db_post == db_pre
            &&& post.control_handler == pre.control_handler
        }
    }

    /// What an enable or disable of unsolicited responses does.
    pub open spec fn enable_post(
        pre: &Self,
        post: &Self,
        enable: bool,
        seq: Sequence,
        headers: &HeaderCollection,
        response: Response,
    ) -> bool {
        let n = headers.headers@.len() as int;
        &&& post.keeps_all_but_state(pre)
        &&& post.application == pre.application
        &&& post.control_handler == pre.control_handler
        &&& if pre.config.unsolicited == Feature::Disabled {
            &&& response == empty_reply(seq, Iin2::NO_FUNC_CODE_SUPPORT)
            &&& post.state@ == pre.state@
        } else {
            &&& response == empty_reply(
                seq,
                bits_if(any_names_no_class(headers.headers@, n), Iin2::NO_FUNC_CODE_SUPPORT),
            )
            &&& post.state@ == (SessionStateView {
                enabled_unsolicited_classes: switched_classes(
                    pre.state.enabled_unsolicited_classes,
                    enable,
                    headers.headers@,
                    n,
                ),
                ..pre.state@
            })
        }
    }

    /// What a freeze does, as far as the session decides it. Where no
    /// header addresses counters, the application is not asked, and it and
    /// the database stay as they are.
    pub open spec fn freeze_post(
        pre: &Self,
        post: &Self,
        db_pre: DatabaseView,
        db_post: DatabaseView,
        seq: Sequence,
        headers: &HeaderCollection,
        respond: bool,
        response: Option<Response>,
    ) -> bool {
        &&& post.keeps_all_but_state(pre)
        &&& post.control_handler == pre.control_handler
        &&& post.state == pre.state
        &&& !any_freezes(headers.headers@, headers.headers@.len() as int) ==> {
            &&& post.application == pre.application
            &&& db_post == db_pre
        }
        &&& if respond {
            exists|results: Seq<FreezeResult>|
                {
                    &&& results.len() == headers.headers@.len()
                    &&& response == Some(
                        empty_reply(
                            seq,
                            #[trigger] freeze_bits(
                                headers.headers@,
                                results,
                                headers.headers@.len() as int,
                            ),
                        ),
                    )
                }
        } else {
            response is None
        }
    }

    /// What a request for the processing delay does.
    pub open spec fn delay_measure_post(pre: &Self, post: &Self, seq: Sequence, response: Response) -> bool {
        &&& post.keeps_all_but_state_and_sol(pre)
        &&& post.application == pre.application
        &&& post.control_handler == pre.control_handler
        &&& post.state == pre.state
        &&& response == single_reply(seq, 0, 10)
        &&& exists|delay: u16|
            post.sol_tx_buffer@ == overwrite(
                pre.sol_tx_buffer@,
                4,
                #[trigger] count_of_one_u16(52, 2, delay),
            )
    }

    /// What a restart request does when the application answers `delay`.
    pub open spec fn restart_post(
        pre: &Self,
        post: &Self,
        seq: Sequence,
        delay: Option<RestartDelay>,
        response: Response,
    ) -> bool {
        &&& post.keeps_all_but_state_and_sol(pre)
        &&& post.control_handler == pre.control_handler
        &&& post.state == pre.state
        &&& match delay {
            None => {
                &&& response == empty_reply(seq, Iin2::NO_FUNC_CODE_SUPPORT)
                &&& post.sol_tx_buffer == pre.sol_tx_buffer
            },
            Some(d) => {
                &&& response == single_reply(seq, 0, 10)
                &&& post.sol_tx_buffer@ == overwrite(pre.sol_tx_buffer@, 4, restart_delay_bytes(d))
            },
        }
    }

    /// What a request to record the time does.
    pub open spec fn record_time_post(
        pre: &Self,
        post: &Self,
        now: Moment,
        seq: Sequence,
        response: Response,
    ) -> bool {
        &&& post.keeps_all_but_state(pre)
        &&& post.application == pre.application
        &&& post.control_handler == pre.control_handler
        &&& post.state@ == (SessionStateView { last_recorded_time: Some(now), ..pre.state@ })
        &&& response == empty_reply(seq, 0)
    }

    /// What a request other than a read does, function by function, and the
    /// response that its handler composes.
    pub open spec fn handler_post(
        pre: &Self,
        post: &Self,
        db_pre: DatabaseView,
        db_post: DatabaseView,
        now: Moment,
        function: FunctionCode,
        seq: Sequence,
        frame_id: u32,
        headers: &HeaderCollection,
        response: Option<Response>,
    ) -> bool {
        match function {
            FunctionCode::Write => response is Some && db_post == db_pre && Self::write_post(
                pre,
                post,
                now,
                seq,
                headers,
                response->0,
            ),
            FunctionCode::DelayMeasure => response is Some && db_post == db_pre
                && Self::delay_measure_post(pre, post, seq, response->0),
            FunctionCode::RecordCurrentTime => response is Some && db_post == db_pre
                && Self::record_time_post(pre, post, now, seq, response->0),
            FunctionCode::ColdRestart | FunctionCode::WarmRestart => response is Some && db_post
                == db_pre && exists|delay: Option<RestartDelay>| #[trigger]
                Self::restart_post(pre, post, seq, delay, response->0),
            FunctionCode::Select => response is Some && Self::select_post(
                pre,
                post,
                db_pre,
                db_post,
                now,
                seq,
                frame_id,
                headers,
                response->0,
            ),
            FunctionCode::Operate => response is Some && Self::operate_post(
                pre,
                post,
                db_pre,
                db_post,
                now,
                seq,
                frame_id,
                headers,
                response->0,
            ),
            FunctionCode::DirectOperate => response is Some && Self::control_post(
                pre,
                post,
                db_pre,
                db_post,
                seq,
                headers,
                response->0,
            ),
            FunctionCode::DirectOperateNoResponse => response is None
                && Self::direct_operate_no_ack_post(pre, post, db_pre, db_post, headers),
            FunctionCode::ImmediateFreeze | FunctionCode::FreezeClear => Self::freeze_post(
                pre,
                post,
                db_pre,
                db_post,
                seq,
                headers,
                true,
                response,
            ),
            FunctionCode::ImmediateFreezeNoResponse
            | FunctionCode::FreezeClearNoResponse => Self::freeze_post(
                pre,
                post,
                db_pre,
                db_post,
                seq,
                headers,
                false,
                response,
            ),
            FunctionCode::EnableUnsolicited => response is Some && db_post == db_pre
                && Self::enable_post(pre, post, true, seq, headers, response->0),
            FunctionCode::DisableUnsolicited => response is Some && db_post == db_pre
                && Self::enable_post(pre, post, false, seq, headers, response->0),
            _ => {
                &&& response == Some(empty_reply(seq, Iin2::NO_FUNC_CODE_SUPPORT))
                &&& post.state == pre.state
                &&& post.keeps_all_but_state(pre)
                &&& post.application == pre.application
                &&& post.control_handler == pre.control_handler
                &&& db_post == db_pre
            },
        }
    }

    /// What a request other than a read does and what is answered: the
    /// response of the function's handler, with `PARAMETER_ERROR` added when
    /// the request carries object headers and its function takes none.
    pub open spec fn non_read_post(
        pre: &Self,
        post: &Self,
        db_pre: DatabaseView,
        db_post: DatabaseView,
        now: Moment,
        function: FunctionCode,
        seq: Sequence,
        frame_id: u32,
        headers: &HeaderCollection,
        result: Option<Response>,
    ) -> bool {
        exists|response: Option<Response>|
            {
                &&& #[trigger] Self::handler_post(
                    pre,
                    post,
                    db_pre,
                    db_post,
                    now,
                    function,
                    seq,
                    frame_id,
                    headers,
                    response,
                )
                &&& result == match response {
                    Some(r) => Some(with_more_iin2(r, spec_get_iin2(function, headers))),
                    None => None,
                }
            }
    }

    /// The restart indication after a request other than a read: cleared by
    /// a write of the internal indications with bit 7 off, kept otherwise.
    pub open spec fn restart_kept(
        pre: &Self,
        post: &Self,
        function: FunctionCode,
        headers: &HeaderCollection,
    ) -> bool {
        post.state.restart_iin_asserted == (pre.state.restart_iin_asserted
            && !request_clears_restart(function, headers))
    }

    /// What a broadcast request does.
    pub open spec fn broadcast_post(
        pre: &Self,
        post: &Self,
        db_pre: DatabaseView,
        db_post: DatabaseView,
        now: Moment,
        request: &Request,
        action: BroadcastAction,
    ) -> bool {
        &&& action == spec_broadcast_action(pre.config.broadcast, request)
        &&& post.config == pre.config
        &&& post.wait == pre.wait
        &&& post.next_link_status == pre.next_link_status
        &&& post.unsol_tx_buffer == pre.unsol_tx_buffer
        &&& post.sol_tx_buffer == pre.sol_tx_buffer
        &&& match action {
            BroadcastAction::Processed => {
                &&& request.objects is Ok
                &&& exists|response: Option<Response>| #[trigger]
                    Self::handler_post(
                        pre,
                        post,
                        db_pre,
                        db_post,
                        now,
                        request.header.function,
                        request.header.control.seq,
                        0,
                        &request.objects->Ok_0,
                        response,
                    )
            },
            _ => {
                &&& post.state == pre.state
                &&& post.application == pre.application
                &&& post.control_handler == pre.control_handler
                &&& db_post == db_pre
            },
        }
    }

    /// What taking a broadcast request does: its kind is remembered for
    /// the indications of the next response, and the request is carried out
    /// where it may be.
    pub open spec fn broadcast_taken(
        pre: &Self,
        post: &Self,
        db_pre: DatabaseView,
        db_post: DatabaseView,
        now: Moment,
        mode: BroadcastConfirmMode,
        request: &Request,
        action: BroadcastAction,
    ) -> bool {
        exists|start: Self, end: Self|
            {
                &&& start.keeps_all_but_state(pre)
                &&& start.control_handler == pre.control_handler
                &&& start.application == pre.application
                &&& start.state@ == (SessionStateView {
                    last_broadcast_type: Some(mode),
                    ..pre.state@
                })
                &&& #[trigger] Self::broadcast_post(
                    &start,
                    &end,
                    db_pre,
                    db_post,
                    now,
                    request,
                    action,
                )
                &&& post.state == end.state
                &&& post.keeps_all_but_state(&end)
                &&& post.control_handler == end.control_handler
                &&& post.application == end.application
            }
    }

    /// What taking a broadcast request does is the same for two sessions
    /// that differ in their observer alone.
    pub proof fn lemma_broadcast_taken_ignores_observer(
        a: &Self,
        b: &Self,
        post: &Self,
        db_pre: DatabaseView,
        db_post: DatabaseView,
        now: Moment,
        mode: BroadcastConfirmMode,
        request: &Request,
        action: BroadcastAction,
    )
        requires
            Self::broadcast_taken(b, post, db_pre, db_post, now, mode, request, action),
            a.state@ == b.state@,
            a.keeps_all_but_state(b),
            a.control_handler == b.control_handler,
            a.application == b.application,
        ensures
            Self::broadcast_taken(a, post, db_pre, db_post, now, mode, request, action),
    {
        let (start, end) = choose|start: Self, end: Self|
            {
                &&& start.keeps_all_but_state(b)
                &&& start.control_handler == b.control_handler
                &&& start.application == b.application
                &&& start.state@ == (SessionStateView {
                    last_broadcast_type: Some(mode),
                    ..b.state@
                })
                &&& #[trigger] Self::broadcast_post(
                    &start,
                    &end,
                    db_pre,
                    db_post,
                    now,
                    request,
                    action,
                )
                &&& post.state == end.state
                &&& post.keeps_all_but_state(&end)
                &&& post.control_handler == end.control_handler
                &&& post.application == end.application
            };
        assert(Self::broadcast_post(&start, &end, db_pre, db_post, now, request, action));
    }

    /// The indication bits that a request earns by carrying object headers
    /// with a function that takes none.
    pub fn get_iin2(function: FunctionCode, object_headers: &HeaderCollection) -> (r: Iin2)
        ensures
            r.value == spec_get_iin2(function, object_headers),
    {
        if function.get_function_info().objects_allowed {
            return Iin2 { value: 0 };
        }
        if object_headers.is_empty() {
            Iin2 { value: 0 }
        } else {
            Iin2 { value: Iin2::PARAMETER_ERROR }
        }
    }

    /// Carries out a write of the time relative to the last recorded time
    /// and returns the indication bits it earns. The time handed to the
    /// application is the time written plus what has passed since the master
    /// asked to record the time; the record is used up by that. Without
    /// exactly one time in the request, without a record, or when the sum
    /// does not fit, nothing changes and `PARAMETER_ERROR` is raised.
    pub fn handle_g50v3(&mut self, now: Moment, seq: &Vec<Group50Var3>) -> (iin2: Iin2)
        ensures
            final(self).keeps_all_but_state(old(self)),
            final(self).control_handler == old(self).control_handler,
            match spec_g50v3_time(seq@, old(self).state.last_recorded_time, now) {
                Some(_) => {
                    &&& final(self).state@ == (SessionStateView {
                        last_recorded_time: None,
                        ..old(self).state@
                    })
                    &&& exists|answer: WriteTimeResult| iin2.value == #[trigger] answer.spec_iin2()
                },
                None => {
                    &&& final(self).state@ == old(self).state@
                    &&& final(self).application == old(self).application
                    &&& iin2.value == Iin2::PARAMETER_ERROR
                },
            },
    {
        let value = match single(seq) {
            Some(value) => value,
            None => {
                return Iin2 { value: Iin2::PARAMETER_ERROR };
            },
        };
        let last_recorded_time = match self.state.last_recorded_time {
            Some(t) => t,
            None => {
                return Iin2 { value: Iin2::PARAMETER_ERROR };
            },
        };
        let delay = match now.checked_duration_since(last_recorded_time) {
            Some(delay) => delay,
            None => {
                return Iin2 { value: Iin2::PARAMETER_ERROR };
            },
        };
        let timestamp = match value.time.checked_add(delay) {
            Some(timestamp) => timestamp,
            None => {
                return Iin2 { value: Iin2::PARAMETER_ERROR };
            },
        };
        self.state.last_recorded_time = None;
        let answer = self.application.write_absolute_time(timestamp);
        answer.iin2()
    }

    /// Carries out a write request and composes its response, which is
    /// always empty. Of the internal indications only the restart bit can
    /// be written, and only cleared: any other bit raises `PARAMETER_ERROR`.
    /// An absolute time goes to the application. A request without objects
    /// is answered without complaint; any other object raises
    /// `NO_FUNC_CODE_SUPPORT`.
    pub fn handle_write(&mut self, now: Moment, seq: Sequence, object_headers: &HeaderCollection) -> (response:
        Response)
        ensures
            Self::write_post(old(self), final(self), now, seq, object_headers, response),
    {
        let iin2 = if let Some(header) = object_headers.get_only_header() {
            match &header.details {
                HeaderDetails::OneByteStartStop(_, _, RangedVariation::Group80Var1(items)) => {
                    let mut refused = false;
                    let n: usize = items.len();
                    let mut i: usize = 0;
                    while i < n
                        invariant
                            n == items@.len(),
                            i <= n,
                            refused == any_refused_bit(items@.subrange(0, i as int)),
                            self.state@ == (SessionStateView {
                                restart_iin_asserted: old(self).state.restart_iin_asserted
                                    && !any_clears_restart(items@.subrange(0, i as int)),
                                ..old(self).state@
                            }),
                            self.keeps_all_but_state(old(self)),
                            self.application == old(self).application,
                            self.control_handler == old(self).control_handler,
                        decreases n - i,
                    {
                        let (value, index) = items[i];
                        proof {
                            lemma_bits_step(items@, i as int);
                        }
                        if index == 7 && !value {
                            self.state.restart_iin_asserted = false;
                            self.info.clear_restart_iin();
                        } else {
                            refused = true;
                        }
                        i = i + 1;
                    }
                    proof {
                        assert(items@.subrange(0, n as int) =~= items@);
                    }
                    if refused {
                        Iin2 { value: Iin2::PARAMETER_ERROR }
                    } else {
                        Iin2 { value: 0 }
                    }
                },
                HeaderDetails::OneByteCount(_, CountVariation::Group50Var1(items)) => {
                    if let Some(value) = single(items) {
                        let answer = self.application.write_absolute_time(value.time);
                        answer.iin2()
                    } else {
                        Iin2 { value: Iin2::PARAMETER_ERROR }
                    }
                },
                HeaderDetails::OneByteCount(_, CountVariation::Group50Var3(items)) => {
                    self.handle_g50v3(now, items)
                },
                _ => Iin2 { value: Iin2::NO_FUNC_CODE_SUPPORT },
            }
        } else {
            Iin2 { value: 0 }
        };
        Response::empty_solicited(seq, Iin::from_iin2(iin2))
    }

    /// Answers a request to measure the delay: the response reports the
    /// time that the application says it takes to process a request, as a
    /// fine time delay.
    pub fn handle_delay_measure(&mut self, seq: Sequence) -> (response: Response)
        requires
            old(self).wf(),
        ensures
            final(self).wf(),
            final(self).keeps_all_but_state_and_sol(old(self)),
            final(self).state == old(self).state,
            final(self).application == old(self).application,
            final(self).control_handler == old(self).control_handler,
            response == single_reply(seq, 0, 10),
            exists|delay: u16|
                final(self).sol_tx_buffer@ == overwrite(
                    old(self).sol_tx_buffer@,
                    4,
                    #[trigger] count_of_one_u16(52, 2, delay),
                ),
    {
        let delay = self.application.get_processing_delay_ms();
        let size = write_count_of_one_u16(&mut self.sol_tx_buffer, 52, 2, delay);
        let header = ResponseHeader::new(
            ControlField::response(seq, true, true, false),
            ResponseFunction::Response,
            Iin::from_iin2(Iin2 { value: 0 }),
        );
        Response::new(header, size)
    }

    /// Notes the time of receipt for a later write relative to it, and
    /// answers with an empty response.
    pub fn handle_record_current_time(&mut self, now: Moment, seq: Sequence) -> (response:
        Response)
        ensures
            final(self).keeps_all_but_state(old(self)),
            final(self).application == old(self).application,
            final(self).control_handler == old(self).control_handler,
            final(self).state@ == (SessionStateView {
                last_recorded_time: Some(now),
                ..old(self).state@
            }),
            response == empty_reply(seq, 0),
    {
        self.state.last_recorded_time = Some(now);
        Response::empty_solicited(seq, Iin::from_iin2(Iin2 { value: 0 }))
    }

    /// Answers a restart request with the delay that the application gave:
    /// seconds as a coarse time delay, milliseconds as a fine one. Without a
    /// delay the application does not support the restart, and the response
    /// is empty with `NO_FUNC_CODE_SUPPORT`.
    pub fn handle_restart(&mut self, seq: Sequence, delay: Option<RestartDelay>) -> (response:
        Response)
        requires
            old(self).wf(),
        ensures
            final(self).wf(),
            final(self).keeps_all_but_state_and_sol(old(self)),
            final(self).state == old(self).state,
            final(self).application == old(self).application,
            final(self).control_handler == old(self).control_handler,
            match delay {
                None => {
                    &&& response == empty_reply(seq, Iin2::NO_FUNC_CODE_SUPPORT)
                    &&& final(self).sol_tx_buffer == old(self).sol_tx_buffer
                },
                Some(d) => {
                    &&& response == single_reply(seq, 0, 10)
                    &&& final(self).sol_tx_buffer@ == overwrite(
                        old(self).sol_tx_buffer@,
                        4,
                        restart_delay_bytes(d),
                    )
                },
            },
    {
        let delay = match delay {
            None => {
                return Response::empty_solicited(
                    seq,
                    Iin::from_iin2(Iin2 { value: Iin2::NO_FUNC_CODE_SUPPORT }),
                );
            },
            Some(x) => x,
        };
        let size = match delay {
            RestartDelay::Seconds(value) => write_count_of_one_u16(
                &mut self.sol_tx_buffer,
                52,
                1,
                value,
            ),
            RestartDelay::Milliseconds(value) => write_count_of_one_u16(
                &mut self.sol_tx_buffer,
                52,
                2,
                value,
            ),
        };
        let header = ResponseHeader::new(
            ControlField::response(seq, true, true, false),
            ResponseFunction::Response,
            Iin::from_iin2(Iin2 { value: 0 }),
        );
        Response::new(header, size)
    }

    /// Puts the echo of a control request into the buffer for solicited
    /// responses and composes the reply.
    fn write_control_reply(&mut self, seq: Sequence, outcome: &ControlOutcome) -> (response:
        Response)
        requires
            old(self).wf(),
            4 + outcome.response@.len() <= old(self).sol_tx_buffer@.len(),
        ensures
            final(self).wf(),
            final(self).keeps_all_but_state_and_sol(old(self)),
            final(self).state == old(self).state,
            final(self).application == old(self).application,
            final(self).control_handler == old(self).control_handler,
            final(self).sol_tx_buffer@ == overwrite(old(self).sol_tx_buffer@, 4, outcome.response@),
            response == single_reply(
                seq,
                bits_if(outcome.status == CommandStatus::NotSupported, Iin2::PARAMETER_ERROR),
                (4 + outcome.response@.len()) as usize,
            ),
    {
        copy_into(&mut self.sol_tx_buffer, 4, &outcome.response);
        let iin2: u8 = if outcome.status.is_not_supported() {
            Iin2::PARAMETER_ERROR
        } else {
            0
        };
        let header = ResponseHeader::new(
            ControlField::single_response(seq),
            ResponseFunction::Response,
            Iin::from_iin2(Iin2 { value: iin2 }),
        );
        Response::new(header, 4 + outcome.response.len())
    }

    /// Takes the object headers of a control request as controls, if the
    /// request can be answered: every header must hold controls, and the
    /// echo of the request must fit the buffer behind the response header.
    fn accept_controls<'a>(&self, object_headers: &'a HeaderCollection) -> (r: Option<
        ControlCollection<'a>,
    >)
        requires
            self.wf(),
        ensures
            match r {
                Some(controls) => {
                    &&& !control_request_refused(object_headers, self.sol_tx_buffer@.len() as int)
                    &&& controls.wf()
                    &&& controls.headers() == object_headers.headers@
                    &&& controls.spec_hash() == object_headers.spec_hash()
                },
                None => control_request_refused(object_headers, self.sol_tx_buffer@.len() as int),
            },
    {
        match ControlCollection::from(object_headers) {
            Err(_) => None,
            Ok(controls) => {
                if controls.echo_fits(self.sol_tx_buffer.len() - 4) {
                    Some(controls)
                } else {
                    None
                }
            },
        }
    }

    /// Carries out a direct operate: each control goes to the handler, and
    /// the response echoes the request with the status of each. A request
    /// with a header that holds no controls, or whose echo does not fit the
    /// buffer, is answered with `PARAMETER_ERROR` and nothing is carried out.
    pub fn handle_direct_operate(
        &mut self,
        database: &mut Database,
        seq: Sequence,
        object_headers: &HeaderCollection,
    ) -> (response: Response)
        requires
            old(self).wf(),
        ensures
            final(self).wf(),
            final(self).state == old(self).state,
            Self::control_post(
                old(self),
                final(self),
                old(database)@,
                final(database)@,
                seq,
                object_headers,
                response,
            ),
    {
        let controls = match self.accept_controls(object_headers) {
            None => {
                return Response::empty_solicited(
                    seq,
                    Iin::from_iin2(Iin2 { value: Iin2::PARAMETER_ERROR }),
                );
            },
            Some(controls) => controls,
        };
        let mut transaction = ControlTransaction::new();
        let outcome = controls.operate_with_response(
            OperateType::DirectOperate,
            &mut transaction,
            &mut self.control_handler,
            database,
            self.config.max_controls_per_request,
        );
        transaction.end(&mut self.control_handler);
        proof {
            let n = object_headers.headers@.len() as int;
            lemma_all_control_headers(object_headers.headers@, n);
            lemma_echo_length(object_headers.headers@, outcome.statuses@, n);
        }
        let response = self.write_control_reply(seq, &outcome);
        proof {
            assert((final(self).sol_tx_buffer@, response) == control_reply(
                old(self).sol_tx_buffer@,
                object_headers.headers@,
                outcome.statuses@,
                seq,
            ));
        }
        response
    }

    /// Carries out a direct operate that gets no response: each control
    /// goes to the handler, as far as the limit on controls per request
    /// allows. Nothing of the session changes but the handler, and the
    /// database changes only by the handler's doing. A request with a header
    /// that holds no controls is ignored; such a request, a request without
    /// a control and a limit of zero leave handler and database as they were.
    pub fn handle_direct_operate_no_ack(
        &mut self,
        database: &mut Database,
        object_headers: &HeaderCollection,
    )
        ensures
            Self::direct_operate_no_ack_post(
                old(self),
                final(self),
                old(database)@,
                final(database)@,
                object_headers,
            ),
            final(self).application == old(self).application,
            final(self).info == old(self).info,
    {
        let controls = match ControlCollection::from(object_headers) {
            Err(_) => {
                return ;
            },
            Ok(controls) => controls,
        };
        let mut transaction = ControlTransaction::new();
        let _ = controls.operate_no_ack(
            &mut transaction,
            &mut self.control_handler,
            database,
            self.config.max_controls_per_request,
        );
        transaction.end(&mut self.control_handler);
    }

    /// Carries out a select: each control goes to the handler for a check,
    /// and the response echoes the request with the status of each. When
    /// every control passed, the select is put on record for the operate to
    /// come: its sequence number, its fragment, the time and the digest of
    /// its object headers. A request with a header that holds no controls,
    /// or whose echo does not fit the buffer, is answered with
    /// `PARAMETER_ERROR`, and the handler does not hear of it.
    pub fn handle_select(
        &mut self,
        now: Moment,
        database: &mut Database,
        seq: Sequence,
        frame_id: u32,
        object_headers: &HeaderCollection,
    ) -> (response: Response)
        requires
            old(self).wf(),
        ensures
            final(self).wf(),
            final(self).config == old(self).config,
            final(self).wait == old(self).wait,
            final(self).next_link_status == old(self).next_link_status,
            final(self).unsol_tx_buffer == old(self).unsol_tx_buffer,
            Self::select_post(
                old(self),
                final(self),
                old(database)@,
                final(database)@,
                now,
                seq,
                frame_id,
                object_headers,
                response,
            ),
    {
        let controls = match self.accept_controls(object_headers) {
            None => {
                return Response::empty_solicited(
                    seq,
                    Iin::from_iin2(Iin2 { value: Iin2::PARAMETER_ERROR }),
                );
            },
            Some(controls) => controls,
        };
        let mut transaction = ControlTransaction::new();
        let outcome = controls.select_with_response(
            &mut transaction,
            &mut self.control_handler,
            database,
            self.config.max_controls_per_request,
        );
        transaction.end(&mut self.control_handler);
        if outcome.status.is_success() {
            self.state.select = Some(SelectState::new(seq, frame_id, now, object_headers.hash()));
        }
        proof {
            let n = object_headers.headers@.len() as int;
            lemma_all_control_headers(object_headers.headers@, n);
            lemma_echo_length(object_headers.headers@, outcome.statuses@, n);
        }
        let response = self.write_control_reply(seq, &outcome);
        proof {
            assert((final(self).sol_tx_buffer@, response) == control_reply(
                old(self).sol_tx_buffer@,
                object_headers.headers@,
                outcome.statuses@,
                seq,
            ));
        }
        response
    }

    /// Carries out an operate. It must match the select on record: follow
    /// it in sequence number and in fragment, carry the same object headers,
    /// and come within the select timeout. An operate that does not match is
    /// echoed with the status that refuses it, `NoSelect` or `Timeout`, for
    /// every control, and the handler does not hear of it. An operate that
    /// matches goes to the handler control by control and uses up the select.
    /// A request with a header that holds no controls, or whose echo does
    /// not fit the buffer, is answered with `PARAMETER_ERROR` before it is
    /// held against the select; the select stays on record.
    pub fn handle_operate(
        &mut self,
        now: Moment,
        database: &mut Database,
        seq: Sequence,
        frame_id: u32,
        object_headers: &HeaderCollection,
    ) -> (response: Response)
        requires
            old(self).wf(),
        ensures
            final(self).wf(),
            final(self).config == old(self).config,
            final(self).wait == old(self).wait,
            final(self).next_link_status == old(self).next_link_status,
            final(self).unsol_tx_buffer == old(self).unsol_tx_buffer,
            Self::operate_post(
                old(self),
                final(self),
                old(database)@,
                final(database)@,
                now,
                seq,
                frame_id,
                object_headers,
                response,
            ),
    {
        let controls = match self.accept_controls(object_headers) {
            None => {
                return Response::empty_solicited(
                    seq,
                    Iin::from_iin2(Iin2 { value: Iin2::PARAMETER_ERROR }),
                );
            },
            Some(controls) => controls,
        };
        let refusal = match self.state.select {
            Some(s) => match s.match_operate(
                now,
                self.config.select_timeout,
                seq,
                frame_id,
                object_headers.hash(),
            ) {
                Err(status) => Some(status),
                Ok(()) => None,
            },
            None => Some(CommandStatus::NoSelect),
        };
        match refusal {
            Some(status) => {
                let echo = controls.respond_with_status(status);
                let ghost all = uniform(status, controls.spec_num_controls());
                proof {
                    lemma_count_nonnegative(
                        object_headers.headers@,
                        object_headers.headers@.len() as int,
                    );
                    lemma_aggregate_uniform(status, all.len() as int, all.len() as int);
                    let n = object_headers.headers@.len() as int;
                    lemma_all_control_headers(object_headers.headers@, n);
                    lemma_echo_length(object_headers.headers@, all, n);
                }
                let outcome = ControlOutcome { statuses: Vec::new(), status, response: echo };
                self.write_control_reply(seq, &outcome)
            },
            None => {
                let mut transaction = ControlTransaction::new();
                let outcome = controls.operate_with_response(
                    OperateType::SelectBeforeOperate,
                    &mut transaction,
                    &mut self.control_handler,
                    database,
                    self.config.max_controls_per_request,
                );
                transaction.end(&mut self.control_handler);
                self.state.select = None;
                proof {
                    let n = object_headers.headers@.len() as int;
                    lemma_all_control_headers(object_headers.headers@, n);
                    lemma_echo_length(object_headers.headers@, outcome.statuses@, n);
                }
                let response = self.write_control_reply(seq, &outcome);
                proof {
                    assert((final(self).sol_tx_buffer@, response) == control_reply(
                        old(self).sol_tx_buffer@,
                        object_headers.headers@,
                        outcome.statuses@,
                        seq,
                    ));
                }
                response
            },
        }
    }

    /// Switches unsolicited reporting on or off for the event classes that
    /// the request names. A header that names none of the three classes
    /// raises `NO_FUNC_CODE_SUPPORT`; so does any such request when
    /// unsolicited responses are disabled by configuration, and nothing is
    /// switched then.
    pub fn handle_enable_or_disable_unsolicited(
        &mut self,
        enable: bool,
        seq: Sequence,
        object_headers: &HeaderCollection,
    ) -> (response: Response)
        ensures
            Self::enable_post(old(self), final(self), enable, seq, object_headers, response),
    {
        if self.config.unsolicited.is_disabled() {
            return Response::empty_solicited(
                seq,
                Iin::from_iin2(Iin2 { value: Iin2::NO_FUNC_CODE_SUPPORT }),
            );
        }
        let mut refused = false;
        let n: usize = object_headers.headers.len();
        let mut i: usize = 0;
        while i < n
            invariant
                n == object_headers.headers@.len(),
                i <= n,
                refused == any_names_no_class(object_headers.headers@, i as int),
                self.state@ == (SessionStateView {
                    enabled_unsolicited_classes: switched_classes(
                        old(self).state.enabled_unsolicited_classes,
                        enable,
                        object_headers.headers@,
                        i as int,
                    ),
                    ..old(self).state@
                }),
                self.keeps_all_but_state(old(self)),
                self.application == old(self).application,
                self.control_handler == old(self).control_handler,
            decreases n - i,
        {
            proof {
                lemma_names_step(object_headers.headers@, i as int);
            }
            match &object_headers.headers[i].details {
                HeaderDetails::AllObjects(AllObjectsVariation::Group60Var2) => {
                    self.state.enabled_unsolicited_classes.class1 = enable;
                },
                HeaderDetails::AllObjects(AllObjectsVariation::Group60Var3) => {
                    self.state.enabled_unsolicited_classes.class2 = enable;
                },
                HeaderDetails::AllObjects(AllObjectsVariation::Group60Var4) => {
                    self.state.enabled_unsolicited_classes.class3 = enable;
                },
                _ => {
                    refused = true;
                },
            }
            i = i + 1;
        }
        let iin2: u8 = if refused {
            Iin2::NO_FUNC_CODE_SUPPORT
        } else {
            0
        };
        Response::empty_solicited(seq, Iin::from_iin2(Iin2 { value: iin2 }))
    }

    /// Carries out a freeze: for each header that addresses counters the
    /// application is asked to freeze them, and what it answers goes into
    /// the indications. A header that addresses anything else raises
    /// `NO_FUNC_CODE_SUPPORT`. The response is empty, and there is none when
    /// the request asked for none.
    pub fn handle_freeze(
        &mut self,
        database: &mut Database,
        seq: Sequence,
        object_headers: &HeaderCollection,
        freeze_type: FreezeType,
        respond: bool,
    ) -> (response: Option<Response>)
        ensures
            Self::freeze_post(
                old(self),
                final(self),
                old(database)@,
                final(database)@,
                seq,
                object_headers,
                respond,
                response,
            ),
    {
        let mut iin2: u8 = 0;
        let ghost mut results: Seq<FreezeResult> = Seq::empty();
        let n: usize = object_headers.headers.len();
        let mut i: usize = 0;
        while i < n
            invariant
                n == object_headers.headers@.len(),
                i <= n,
                results.len() == i,
                iin2 == freeze_bits(object_headers.headers@, results, i as int),
                self.state == old(self).state,
                self.keeps_all_but_state(old(self)),
                self.control_handler == old(self).control_handler,
                !any_freezes(object_headers.headers@, i as int) ==> {
                    &&& self.application == old(self).application
                    &&& database@ == old(database)@
                },
            decreases n - i,
        {
            let indices = match &object_headers.headers[i].details {
                HeaderDetails::AllObjects(AllObjectsVariation::Group20Var0) => Some(
                    FreezeIndices::All,
                ),
                HeaderDetails::OneByteStartStop(start, stop, RangedVariation::Group20Var0) => Some(
                    FreezeIndices::Range(*start as u16, *stop as u16),
                ),
                HeaderDetails::TwoByteStartStop(start, stop, RangedVariation::Group20Var0) => Some(
                    FreezeIndices::Range(*start, *stop),
                ),
                _ => None,
            };
            let ghost prior = results;
            let bits: u8 = match indices {
                Some(indices) => {
                    let answer = self.application.freeze_counter(indices, freeze_type, database);
                    proof {
                        results = results.push(answer);
                    }
                    answer.iin2()
                },
                None => {
                    proof {
                        results = results.push(FreezeResult::Success);
                    }
                    Iin2::NO_FUNC_CODE_SUPPORT
                },
            };
            proof {
                lemma_freeze_bits_prefix(object_headers.headers@, prior, results, i as int);
            }
            iin2 = iin2 | bits;
            i = i + 1;
        }
        if respond {
            Some(Response::empty_solicited(seq, Iin::from_iin2(Iin2 { value: iin2 })))
        } else {
            None
        }
    }

    /// Carries out a request other than a read and composes its response.
    /// Each function has its handler; a function that the session does not
    /// carry out is answered with `NO_FUNC_CODE_SUPPORT`. The functions that
    /// ask for no response get none. `PARAMETER_ERROR` is added when the
    /// request carries object headers and its function takes none.
    pub fn handle_non_read(
        &mut self,
        now: Moment,
        database: &mut Database,
        function: FunctionCode,
        seq: Sequence,
        frame_id: u32,
        object_headers: &HeaderCollection,
    ) -> (result: Option<Response>)
        requires
            old(self).wf(),
        ensures
            final(self).wf(),
            Self::non_read_post(
                old(self),
                final(self),
                old(database)@,
                final(database)@,
                now,
                function,
                seq,
                frame_id,
                object_headers,
                result,
            ),
            Self::restart_kept(old(self), final(self), function, object_headers),
            result is None <==> no_response(function),
    {
        let response = match function {
            FunctionCode::Write => Some(self.handle_write(now, seq, object_headers)),
            FunctionCode::DelayMeasure => Some(self.handle_delay_measure(seq)),
            FunctionCode::RecordCurrentTime => Some(self.handle_record_current_time(now, seq)),
            FunctionCode::ColdRestart => {
                let delay = self.application.cold_restart();
                let r = self.handle_restart(seq, delay);
                proof {
                    assert(Self::restart_post(old(self), final(self), seq, delay, r));
                }
                Some(r)
            },
            FunctionCode::WarmRestart => {
                let delay = self.application.warm_restart();
                let r = self.handle_restart(seq, delay);
                proof {
                    assert(Self::restart_post(old(self), final(self), seq, delay, r));
                }
                Some(r)
            },
            FunctionCode::Select => Some(
                self.handle_select(now, database, seq, frame_id, object_headers),
            ),
            FunctionCode::Operate => Some(
                self.handle_operate(now, database, seq, frame_id, object_headers),
            ),
            FunctionCode::DirectOperate => Some(
                self.handle_direct_operate(database, seq, object_headers),
            ),
            FunctionCode::DirectOperateNoResponse => {
                self.handle_direct_operate_no_ack(database, object_headers);
                None
            },
            FunctionCode::ImmediateFreeze => self.handle_freeze(
                database,
                seq,
                object_headers,
                FreezeType::ImmediateFreeze,
                true,
            ),
            FunctionCode::ImmediateFreezeNoResponse => self.handle_freeze(
                database,
                seq,
                object_headers,
                FreezeType::ImmediateFreeze,
                false,
            ),
            FunctionCode::FreezeClear => self.handle_freeze(
                database,
                seq,
                object_headers,
                FreezeType::FreezeAndClear,
                true,
            ),
            FunctionCode::FreezeClearNoResponse => self.handle_freeze(
                database,
                seq,
                object_headers,
                FreezeType::FreezeAndClear,
                false,
            ),
            FunctionCode::EnableUnsolicited => Some(
                self.handle_enable_or_disable_unsolicited(true, seq, object_headers),
            ),
            FunctionCode::DisableUnsolicited => Some(
                self.handle_enable_or_disable_unsolicited(false, seq, object_headers),
            ),
            _ => Some(
                Response::empty_solicited(
                    seq,
                    Iin::from_iin2(Iin2 { value: Iin2::NO_FUNC_CODE_SUPPORT }),
                ),
            ),
        };
        proof {
            assert(Self::handler_post(
                old(self),
                final(self),
                old(database)@,
                final(database)@,
                now,
                function,
                seq,
                frame_id,
                object_headers,
                response,
            ));
        }
        let extra = Self::get_iin2(function, object_headers);
        match response {
            Some(r) => {
                if extra.value != 0 {
                    let mut r = r;
                    r.header.iin = r.header.iin.with_iin2(extra.value);
                    Some(r)
                } else {
                    Some(r)
                }
            },
            None => None,
        }
    }

    /// Decides what becomes of a broadcast request and carries it out where
    /// it may be. Nothing is carried out when broadcast is disabled, when
    /// the object headers could not be read, or when the function is not one
    /// that a broadcast may carry: a write, a direct operate or a freeze
    /// without response, a request to record the time, or an enable or
    /// disable of unsolicited responses. No response is composed.
    pub fn process_broadcast_get_action(
        &mut self,
        now: Moment,
        database: &mut Database,
        request: &Request,
    ) -> (action: BroadcastAction)
        requires
            old(self).wf(),
        ensures
            final(self).wf(),
            Self::broadcast_post(
                old(self),
                final(self),
                old(database)@,
                final(database)@,
                now,
                request,
                action,
            ),
            final(self).state.restart_iin_asserted == (old(self).state.restart_iin_asserted && !(
            action == BroadcastAction::Processed && request_clears_restart(
                request.header.function,
                &request.objects->Ok_0,
            ))),
            final(self).state@.deferred_read == old(self).state@.deferred_read,
            final(self).state@.last_valid_request == old(self).state@.last_valid_request,
            final(self).state@.last_broadcast_type == old(self).state@.last_broadcast_type,
    {
        if self.config.broadcast.is_disabled() {
            return BroadcastAction::IgnoredByConfiguration;
        }
        let objects = match &request.objects {
            Ok(x) => x,
            Err(_) => {
                return BroadcastAction::BadObjectHeaders;
            },
        };
        let seq = request.header.control.seq;
        let ghost response: Option<Response>;
        match request.header.function {
            FunctionCode::Write => {
                let r = self.handle_write(now, seq, objects);
                proof {
                    response = Some(r);
                }
            },
            FunctionCode::DirectOperateNoResponse => {
                self.handle_direct_operate_no_ack(database, objects);
                proof {
                    response = None;
                }
            },
            FunctionCode::ImmediateFreezeNoResponse => {
                let r = self.handle_freeze(
                    database,
                    seq,
                    objects,
                    FreezeType::ImmediateFreeze,
                    false,
                );
                proof {
                    response = r;
                }
            },
            FunctionCode::FreezeClearNoResponse => {
                let r = self.handle_freeze(
                    database,
                    seq,
                    objects,
                    FreezeType::FreezeAndClear,
                    false,
                );
                proof {
                    response = r;
                }
            },
            FunctionCode::RecordCurrentTime => {
                let r = self.handle_record_current_time(now, seq);
                proof {
                    response = Some(r);
                }
            },
            FunctionCode::DisableUnsolicited => {
                let r = self.handle_enable_or_disable_unsolicited(false, seq, objects);
                proof {
                    response = Some(r);
                }
            },
            FunctionCode::EnableUnsolicited => {
                let r = self.handle_enable_or_disable_unsolicited(true, seq, objects);
                proof {
                    response = Some(r);
                }
            },
            _ => {
                return BroadcastAction::UnsupportedFunction(request.header.function);
            },
        }
        proof {
            assert(Self::handler_post(
                old(self),
                final(self),
                old(database)@,
                final(database)@,
                now,
                request.header.function,
                seq,
                0,
                objects,
                response,
            ));
        }
        BroadcastAction::Processed
    }

    /// Takes a broadcast request: remembers its kind for the indications of
    /// the next response, carries it out where it may be, and tells the
    /// observer what became of it.
    pub fn process_broadcast(
        &mut self,
        now: Moment,
        database: &mut Database,
        mode: BroadcastConfirmMode,
        request: &Request,
    ) -> (action: BroadcastAction)
        requires
            old(self).wf(),
        ensures
            final(self).wf(),
            final(self).state.last_broadcast_type == Some(mode),
            action == spec_broadcast_action(old(self).config.broadcast, request),
            final(self).config == old(self).config,
            final(self).wait == old(self).wait,
            final(self).next_link_status == old(self).next_link_status,
            final(self).unsol_tx_buffer == old(self).unsol_tx_buffer,
            final(self).sol_tx_buffer == old(self).sol_tx_buffer,
            action != BroadcastAction::Processed ==> final(self).state@ == (SessionStateView {
                last_broadcast_type: Some(mode),
                ..old(self).state@
            }) && final(database)@ == old(database)@,
            final(self).state.restart_iin_asserted == (old(self).state.restart_iin_asserted && !(
            action == BroadcastAction::Processed && request_clears_restart(
                request.header.function,
                &request.objects->Ok_0,
            ))),
            final(self).state@.deferred_read == old(self).state@.deferred_read,
            final(self).state@.last_valid_request == old(self).state@.last_valid_request,
            Self::broadcast_taken(
                old(self),
                final(self),
                old(database)@,
                final(database)@,
                now,
                mode,
                request,
                action,
            ),
    {
        self.state.last_broadcast_type = Some(mode);
        let ghost start = *self;
        let action = self.process_broadcast_get_action(now, database, request);
        let ghost end = *self;
        self.info.broadcast_received(request.header.function, action);
        proof {
            assert(Self::broadcast_post(
                &start,
                &end,
                old(database)@,
                final(database)@,
                now,
                request,
                action,
            ));
        }
        action
    }
}

/// Looking at one written bit more finds a match there or among those
/// before.
proof fn lemma_bits_step(items: Seq<(bool, u16)>, i: int)
    requires
        0 <= i < items.len(),
    ensures
        any_clears_restart(items.subrange(0, i + 1)) == (any_clears_restart(items.subrange(0, i))
            || clears_restart(items[i])),
        any_refused_bit(items.subrange(0, i + 1)) == (any_refused_bit(items.subrange(0, i))
            || !clears_restart(items[i])),
{
    let a = items.subrange(0, i);
    let b = items.subrange(0, i + 1);
    assert(b[i] == items[i]);
    if any_clears_restart(a) {
        let j = choose|j: int| 0 <= j < a.len() && clears_restart(#[trigger] a[j]);
        assert(b[j] == a[j]);
    }
    if any_clears_restart(b) {
        let j = choose|j: int| 0 <= j < b.len() && clears_restart(#[trigger] b[j]);
        if j < i {
            assert(a[j] == b[j]);
        }
    }
    if any_refused_bit(a) {
        let j = choose|j: int| 0 <= j < a.len() && !clears_restart(#[trigger] a[j]);
        assert(b[j] == a[j]);
    }
    if any_refused_bit(b) {
        let j = choose|j: int| 0 <= j < b.len() && !clears_restart(#[trigger] b[j]);
        if j < i {
            assert(a[j] == b[j]);
        }
    }
}

/// The number of controls in headers is never negative.
pub proof fn lemma_count_nonnegative(headers: Seq<ObjectHeader>, k: int)
    ensures
        count_controls(headers, k) >= 0,
    decreases k,
{
    if k > 0 {
        lemma_count_nonnegative(headers, k - 1);
    }
}

/// Looking at one header more finds a class named there or among those
/// before.
proof fn lemma_names_step(headers: Seq<ObjectHeader>, i: int)
    requires
        0 <= i < headers.len(),
    ensures
        forall|class: AllObjectsVariation|
            #![trigger any_names_class(headers, class, i + 1)]
            any_names_class(headers, class, i + 1) == (any_names_class(headers, class, i)
                || names_class(headers[i].details, class)),
        any_names_no_class(headers, i + 1) == (any_names_no_class(headers, i) || names_no_class(
            headers[i].details,
        )),
{
    assert forall|class: AllObjectsVariation|
        #![trigger any_names_class(headers, class, i + 1)]
        any_names_class(headers, class, i + 1) == (any_names_class(headers, class, i)
            || names_class(headers[i].details, class)) by {
        if any_names_class(headers, class, i + 1) {
            let j = choose|j: int|
                0 <= j < i + 1 && names_class((#[trigger] headers[j]).details, class);
            if j < i {
                assert(any_names_class(headers, class, i));
            }
        }
        if names_class(headers[i].details, class) {
            assert(any_names_class(headers, class, i + 1));
        }
    }
    if any_names_no_class(headers, i + 1) {
        let j = choose|j: int| 0 <= j < i + 1 && names_no_class((#[trigger] headers[j]).details);
        if j < i {
            assert(any_names_no_class(headers, i));
        }
    }
    if names_no_class(headers[i].details) {
        assert(any_names_no_class(headers, i + 1));
    }
}

} // verus!
