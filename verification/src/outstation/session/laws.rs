use vstd::prelude::*;
use crate::app::function_code::FunctionCode;
use crate::app::parse::{HeaderCollection, Request};
use crate::app::sequence::Sequence;
use crate::outstation::control::{CommandStatus, count_controls, uniform};
use crate::outstation::database::DatabaseView;
use crate::outstation::session::confirm::{SolicitedWait, UnsolicitedStep, UnsolicitedWait};
use crate::outstation::session::idle::answered_from_record;
use crate::outstation::session::requests::{
    control_reply,
    control_request_refused,
    operate_refusal,
};
use crate::outstation::session::{
    Confirm,
    LastValidRequest,
    OutstationSession,
    Response,
    Timeout,
    Transmit,
    UnsolicitedWaitResult,
    WaitState,
    spec_classify,
};
use crate::outstation::traits::{ControlHandler, OutstationApplication, OutstationInformation};
use crate::transport::{FragmentInfo, TransportRequest};
use crate::util::time::Moment;

verus! {

impl<A: OutstationApplication, I: OutstationInformation, C: ControlHandler> OutstationSession<
    A,
    I,
    C,
> {
    /// An operate that matches its select uses the select up: whatever
    /// operate comes next finds no select on record. It is echoed with the
    /// status `NoSelect` for every control, the handler does not hear of it,
    /// and neither the session nor the database changes. Both requests are
    /// such as the session answers with an echo: each header holds
    /// controls, and the echo fits the buffer.
    pub proof fn lemma_operate_uses_up_select(
        pre: &Self,
        mid: &Self,
        post: &Self,
        db_pre: DatabaseView,
        db_mid: DatabaseView,
        db_post: DatabaseView,
        first: (Moment, Sequence, u32, &HeaderCollection, Response),
        second: (Moment, Sequence, u32, &HeaderCollection, Response),
    )
        requires
            !control_request_refused(first.3, pre.sol_tx_buffer@.len() as int),
            operate_refusal(
                pre.state.select,
                first.0,
                pre.config.select_timeout,
                first.1,
                first.2,
                first.3.spec_hash(),
            ) is None,
            Self::operate_post(
                pre,
                mid,
                db_pre,
                db_mid,
                first.0,
                first.1,
                first.2,
                first.3,
                first.4,
            ),
            !control_request_refused(second.3, mid.sol_tx_buffer@.len() as int),
            Self::operate_post(
                mid,
                post,
                db_mid,
                db_post,
                second.0,
                second.1,
                second.2,
                second.3,
                second.4,
            ),
        ensures
            mid.state@.select is None,
            (post.sol_tx_buffer@, second.4) == control_reply(
                mid.sol_tx_buffer@,
                second.3.headers@,
                uniform(
                    CommandStatus::NoSelect,
                    count_controls(second.3.headers@, second.3.headers@.len() as int),
                ),
                second.1,
            ),
            post.control_handler == mid.control_handler,
            post.state == mid.state,
            db_post == db_mid,
    {
    }

    /// An unsolicited response is sent again only while a repetition is
    /// left, and each time uses one up: the same octets go out, and the
    /// count of repetitions left goes down. With `RetryCounter::lemma_bounded`
    /// this bounds the number of times that one response is sent by the
    /// configured number of repetitions plus one.
    pub proof fn lemma_repetition_uses_up_retry(
        pre: &Self,
        post: &Self,
        db_pre: DatabaseView,
        db_post: DatabaseView,
        now: Moment,
        step: UnsolicitedStep,
    )
        requires
            Self::unsol_step_post(
                pre,
                post,
                db_pre,
                db_post,
                now,
                UnsolicitedWaitResult::Timeout,
                step,
            ),
            step.transmit is Some,
        ensures
            ({
                &&& pre.wait matches WaitState::UnsolConfirmWait { response, retries, .. }
                &&& retries.spec_may_retry()
                &&& step.transmit == Some(
                    Transmit::Unsolicited(
                        response.spec_length(pre.unsol_tx_buffer@.len() as int) as usize,
                    ),
                )
                &&& post.unsol_tx_buffer@ == response.header.spec_written(pre.unsol_tx_buffer@)
                &&& post.wait matches WaitState::UnsolConfirmWait {
                    response: again,
                    retries: left,
                    ..
                }
                &&& again == response
                &&& left == retries.spec_decrement()
            }),
            post.state == pre.state,
            db_post == db_pre,
    {
    }

    /// A confirmation with another sequence number than the one awaited
    /// changes nothing about the wait for a solicited confirmation: the wait
    /// state stays as it is, its deadline included, and nothing is sent.
    pub proof fn lemma_wrong_confirm_is_ignored(
        pre: &Self,
        post: &Self,
        now: Moment,
        received: &TransportRequest,
        step: SolicitedWait,
    )
        requires
            Self::sol_wait_post(pre, post, now, Timeout::No, Some(received), step),
            ({
                &&& received matches TransportRequest::Request(info, request)
                &&& request.header.function == FunctionCode::Confirm
                &&& !request.header.control.uns
                &&& pre.wait matches WaitState::SolConfirmWait { series, .. }
                &&& request.header.control.seq@ != series.ecsn@
            }),
        ensures
            post.wait == pre.wait,
            post.state == pre.state,
            post.sol_tx_buffer == pre.sol_tx_buffer,
            step == (SolicitedWait { confirm: None, transmit: None }),
    {
    }

    /// An unsolicited confirmation with another sequence number than the
    /// one awaited changes nothing about the wait for an unsolicited
    /// confirmation either.
    pub proof fn lemma_wrong_unsolicited_confirm_is_ignored(
        pre: &Self,
        post: &Self,
        db_pre: DatabaseView,
        db_post: DatabaseView,
        now: Moment,
        received: &TransportRequest,
        step: UnsolicitedWait,
    )
        requires
            Self::unsol_wait_post(
                pre,
                post,
                db_pre,
                db_post,
                now,
                Timeout::No,
                Some(received),
                step,
            ),
            ({
                &&& received matches TransportRequest::Request(info, request)
                &&& request.header.function == FunctionCode::Confirm
                &&& request.header.control.uns
                &&& pre.wait matches WaitState::UnsolConfirmWait { response, .. }
                &&& request.header.control.seq@ != response.header.control.seq@
            }),
        ensures
            post.wait == pre.wait,
            post.state == pre.state,
            db_post == db_pre,
            step == (UnsolicitedWait { result: UnsolicitedWaitResult::ReadNext, transmit: None }),
    {
    }

    /// A read that repeats the one on record, received while the
    /// confirmation of the response on record is awaited, has that very
    /// fragment sent again: the octets go out of the buffer as they went
    /// before, whichever fragment of the series it is. Nothing is composed,
    /// and record and wait stay but for the deadline.
    pub proof fn lemma_repeated_read_echoes_answer(
        pre: &Self,
        post: &Self,
        now: Moment,
        received: &TransportRequest,
        step: SolicitedWait,
    )
        requires
            Self::sol_wait_post(pre, post, now, Timeout::No, Some(received), step),
            pre.awaits_recorded(),
            ({
                &&& received matches TransportRequest::Request(info, request)
                &&& spec_classify(pre.state.last_valid_request, *info, request) is RepeatRead
            }),
        ensures
            ({
                &&& pre.wait matches WaitState::SolConfirmWait { series, response, .. }
                &&& step.transmit matches Some(Transmit::Solicited(len))
                &&& len == response.spec_length(pre.sol_tx_buffer@.len() as int)
                &&& post.spec_solicited_fragment(len) == pre.spec_solicited_fragment(len)
                &&& post.wait matches WaitState::SolConfirmWait {
                    series: same,
                    response: again,
                    deadline,
                }
                &&& same == series
                &&& again == response
                &&& deadline == now.spec_after(pre.config.confirm_timeout)
            }),
            step.confirm is None,
            post.sol_tx_buffer@ == pre.sol_tx_buffer@,
            post.state == pre.state,
            post.awaits_recorded(),
    {
    }

    /// Whenever the answer to a request opens a wait for a solicited
    /// confirmation, the fragment awaited is the response on record, and it
    /// stands in the buffer: after a response composed afresh and after one
    /// sent again from its record.
    pub proof fn lemma_reply_awaits_recorded(
        pre: &Self,
        post: &Self,
        db: DatabaseView,
        now: Moment,
        result: LastValidRequest,
        transmit: Option<Transmit>,
    )
        requires
            pre.wf(),
            Self::reply_post(pre, post, db, now, result, transmit) || Self::replay_post(
                pre,
                post,
                now,
                result,
                transmit,
            ),
            post.wait is SolConfirmWait,
        ensures
            post.awaits_recorded(),
    {
        let sent = post.wait->SolConfirmWait_response;
        assert(sent.header.spec_written(pre.sol_tx_buffer@).subrange(0, 4)
            =~= sent.header.spec_bytes());
    }

    /// The record follows the series: when the confirmation of one fragment
    /// brings the next, and that one is awaited in turn, the fragment
    /// awaited is again the response on record, and it stands in the
    /// buffer.
    pub proof fn lemma_next_fragment_is_recorded(
        pre: &Self,
        post: &Self,
        db_pre: DatabaseView,
        db_post: DatabaseView,
        now: Moment,
        transmit: Option<Transmit>,
    )
        requires
            pre.wf(),
            pre.state.last_valid_request is Some,
            Self::sol_confirm_post(pre, post, db_pre, db_post, now, Confirm::Yes, transmit),
            post.wait is SolConfirmWait,
        ensures
            post.awaits_recorded(),
    {
        let sent = post.wait->SolConfirmWait_response;
        let body = post.sol_tx_buffer@;
        assert(body.subrange(0, 4) =~= sent.header.spec_bytes());
    }

    /// While the session waits for the confirmation of the response on
    /// record, as it does throughout a series, no step of the wait touches
    /// the fragment: buffer, record and wait state stay as they are but for
    /// the deadline, so whatever is sent again is what was sent when the
    /// wait began.
    pub proof fn lemma_wait_keeps_fragment(
        pre: &Self,
        post: &Self,
        now: Moment,
        timeout: Timeout,
        request: Option<&TransportRequest>,
        step: SolicitedWait,
    )
        requires
            Self::sol_wait_post(pre, post, now, timeout, request, step),
            pre.awaits_recorded(),
        ensures
            post.sol_tx_buffer@ == pre.sol_tx_buffer@,
            post.state == pre.state,
            ({
                &&& pre.wait matches WaitState::SolConfirmWait { series, response, .. }
                &&& post.wait matches WaitState::SolConfirmWait {
                    series: same,
                    response: again,
                    ..
                }
                &&& same == series
                &&& again == response
            }),
            post.awaits_recorded(),
    {
    }

    /// A request that repeats the one answered last, received while an
    /// unsolicited confirmation is awaited, has the very octets of the
    /// answer sent again, unless it is a read that can be read: provided the
    /// buffer still starts with the header of the answer. The request is
    /// not carried out a second time: application, control handler and
    /// database stay as they are.
    pub proof fn lemma_repeated_request_echoes_answer(
        pre: &Self,
        post: &Self,
        db_pre: DatabaseView,
        db_post: DatabaseView,
        now: Moment,
        received: &TransportRequest,
        step: UnsolicitedWait,
        answer: Response,
    )
        requires
            Self::unsol_wait_post(
                pre,
                post,
                db_pre,
                db_post,
                now,
                Timeout::No,
                Some(received),
                step,
            ),
            pre.last_response_in_buffer(),
            ({
                &&& received matches TransportRequest::Request(info, request)
                &&& answered_from_record(pre.state.last_valid_request, *info, request)
                &&& pre.state.last_valid_request->0.response == Some(answer)
            }),
        ensures
            ({
                &&& step.transmit matches Some(Transmit::Solicited(len))
                &&& len == answer.spec_length(pre.sol_tx_buffer@.len() as int)
                &&& post.spec_solicited_fragment(len) == pre.spec_solicited_fragment(len)
            }),
            step.result == UnsolicitedWaitResult::ReadNext,
            post.wait == pre.wait,
            post.sol_tx_buffer@ == pre.sol_tx_buffer@,
            post.application == pre.application,
            post.control_handler == pre.control_handler,
            db_post == db_pre,
    {
    }

    /// A request that repeats the one answered last, taken in the idle
    /// state, has the very octets of the answer sent again, unless it is a
    /// read that can be read: provided the buffer still starts with the
    /// header of the answer. The request is not carried out a second time:
    /// application, control handler and database stay as they are.
    pub proof fn lemma_repeated_request_from_idle_echoes_answer(
        pre: &Self,
        post: &Self,
        db_pre: DatabaseView,
        db_post: DatabaseView,
        now: Moment,
        info: FragmentInfo,
        request: &Request,
        transmit: Option<Transmit>,
        answer: Response,
    )
        requires
            pre.wf(),
            Self::idle_step_post(pre, post, db_pre, db_post, now, info, request, transmit),
            pre.last_response_in_buffer(),
            answered_from_record(pre.state.last_valid_request, info, request),
            pre.state.last_valid_request->0.response == Some(answer),
        ensures
            transmit == Some(
                Transmit::Solicited(answer.spec_length(pre.sol_tx_buffer@.len() as int) as usize),
            ),
            post.sol_tx_buffer@ == pre.sol_tx_buffer@,
            post.application == pre.application,
            post.control_handler == pre.control_handler,
            db_post == db_pre,
    {
        let (mid, result) = choose|mid: Self, result: Option<LastValidRequest>|
            {
                let start = Self::with_link_status(&mid, pre.spec_link_deadline(now));
                &&& #[trigger] Self::idle_request_post(
                    pre,
                    &mid,
                    db_pre,
                    db_post,
                    now,
                    info,
                    request,
                    result,
                )
                &&& match result {
                    Some(result) => if answered_from_record(
                        pre.state.last_valid_request,
                        info,
                        request,
                    ) {
                        Self::replay_post(&start, post, now, result, transmit)
                    } else {
                        Self::reply_post(&start, post, db_post, now, result, transmit)
                    },
                    None => {
                        &&& transmit is None
                        &&& post.state == mid.state
                        &&& post.wait == WaitState::Idle
                        &&& post.sol_tx_buffer == mid.sol_tx_buffer
                        &&& post.application == mid.application
                        &&& post.control_handler == mid.control_handler
                    },
                }
            };
        answer.header.lemma_rewrite_is_identity(pre.sol_tx_buffer@);
    }

    /// Whenever the response to a request taken from idle asks for a
    /// confirmation, be it composed afresh or sent again from its record,
    /// the session waits for exactly that confirmation afterwards; and it
    /// waits for a confirmation only then. The wait state holds one series,
    /// so no second solicited fragment that asks for a confirmation is
    /// outstanding beside it.
    pub proof fn lemma_confirmable_reply_is_awaited(
        pre: &Self,
        post: &Self,
        db: DatabaseView,
        now: Moment,
        result: LastValidRequest,
        transmit: Option<Transmit>,
    )
        requires
            Self::reply_post(pre, post, db, now, result, transmit) || Self::replay_post(
                pre,
                post,
                now,
                result,
                transmit,
            ),
            result.series_matches(),
        ensures
            Self::emits_one_confirmable(post, transmit),
            post.wait is Idle || post.wait is SolConfirmWait,
    {
    }

    /// While a solicited confirmation is awaited, the next fragment of the
    /// series goes out only once the confirmation of the one before has
    /// come; and it is awaited in turn exactly if it asks for a
    /// confirmation. A wait that ends without the confirmation sends
    /// nothing.
    pub proof fn lemma_next_fragment_follows_confirmation(
        pre: &Self,
        post: &Self,
        db_pre: DatabaseView,
        db_post: DatabaseView,
        now: Moment,
        confirm: Confirm,
        transmit: Option<Transmit>,
    )
        requires
            Self::sol_confirm_post(pre, post, db_pre, db_post, now, confirm, transmit),
        ensures
            transmit is Some ==> confirm == Confirm::Yes,
            post.wait is Idle || post.wait is SolConfirmWait,
            transmit is None ==> post.wait is Idle,
    {
    }

    /// The restart indication is cleared by nothing but a write of the
    /// internal indications with bit 7 off: whatever else a request other
    /// than a read does, it leaves the indication as it was.
    pub proof fn lemma_restart_cleared_only_by_write(
        pre: &Self,
        post: &Self,
        db_pre: DatabaseView,
        db_post: DatabaseView,
        now: Moment,
        function: FunctionCode,
        seq: Sequence,
        frame_id: u32,
        headers: &HeaderCollection,
        response: Option<Response>,
    )
        requires
            Self::handler_post(
                pre,
                post,
                db_pre,
                db_post,
                now,
                function,
                seq,
                frame_id,
                headers,
                response,
            ),
        ensures
            Self::restart_kept(pre, post, function, headers),
            pre.state.restart_iin_asserted && !post.state.restart_iin_asserted ==> function
                == FunctionCode::Write,
    {
    }
}

} // verus!
