use vstd::prelude::*;
use crate::app::function_code::FunctionCode;
use crate::app::iin::{Iin2, Iin};
use crate::app::parse::Request;
use crate::app::sequence::Sequence;
use crate::link::address::BroadcastConfirmMode;
use crate::outstation::database::{Database, DatabaseView, read_headers};
use crate::outstation::session::idle::answered_from_record;
use crate::outstation::session::requests::{
    empty_reply,
    request_clears_restart,
    spec_broadcast_action,
    spec_iin2_of_error,
};
use crate::outstation::session::{
    Confirm,
    ConfirmAction,
    FragmentType,
    LastValidRequest,
    OutstationSession,
    Response,
    ResponseSeries,
    SessionStateView,
    Timeout,
    Transmit,
    UnsolicitedResult,
    UnsolicitedWaitResult,
    WaitState,
    broadcast_after_report,
    response_length,
    spec_classify,
    spec_sent_solicited,
};
use crate::outstation::traits::{
    ApplicationIin,
    ControlHandler,
    OutstationApplication,
    OutstationInformation,
};
use crate::transport::{FragmentInfo, TransportRequest};
use crate::util::time::Moment;

verus! {

/// What a fragment received while a solicited confirmation is awaited asks
/// the session to do. The awaited confirmation ends the wait. The read
/// answered last, repeated, has its response sent again. Any other request,
/// and any fragment that is no valid request, ends the wait as a new
/// request. A confirmation with another sequence number, an unsolicited
/// confirmation and a link-layer message are ignored.
pub open spec fn spec_expect_sol_confirm(
    last: Option<LastValidRequest>,
    ecsn: Sequence,
    request: Option<&TransportRequest>,
) -> ConfirmAction {
    match request {
        None => ConfirmAction::ContinueWait,
        Some(TransportRequest::LinkLayerMessage(_)) => ConfirmAction::ContinueWait,
        Some(TransportRequest::Error(_)) => ConfirmAction::NewRequest,
        Some(TransportRequest::Request(info, request)) => match spec_classify(
            last,
            *info,
            request,
        ) {
            FragmentType::MalformedRequest(_, _) => ConfirmAction::NewRequest,
            FragmentType::NewRead(_) => ConfirmAction::NewRequest,
            FragmentType::RepeatRead(_, response) => ConfirmAction::EchoLastResponse(response),
            FragmentType::NewNonRead(_) => ConfirmAction::NewRequest,
            FragmentType::RepeatNonRead(_, _) => ConfirmAction::NewRequest,
            FragmentType::Broadcast(_) => ConfirmAction::NewRequest,
            FragmentType::SolicitedConfirm(seq) => if seq@ == ecsn@ {
                ConfirmAction::Confirmed
            } else {
                ConfirmAction::ContinueWait
            },
            FragmentType::UnsolicitedConfirm(_) => ConfirmAction::ContinueWait,
        },
    }
}

/// The record of a request after the next fragment of its response has
/// been sent: the record keeps the request and holds the fragment sent
/// last, with the series as it stands.
pub open spec fn record_moved(
    last: Option<LastValidRequest>,
    sent: Response,
    series: Option<ResponseSeries>,
) -> Option<LastValidRequest> {
    match last {
        Some(last) => Some(LastValidRequest { response: Some(sent), series, ..last }),
        None => None,
    }
}

/// What one step of the wait for a solicited confirmation brought.
#[derive(Copy, Clone, Debug, PartialEq, Eq, Structural)]
pub struct SolicitedWait {
    /// how the wait ended, if it did
    pub confirm: Option<Confirm>,
    /// the fragment to put on the wire, if any
    pub transmit: Option<Transmit>,
}

/// What one step of the wait for an unsolicited confirmation brought.
#[derive(Copy, Clone, Debug, PartialEq, Eq, Structural)]
pub struct UnsolicitedWait {
    /// what the step brought for the exchange
    pub result: UnsolicitedWaitResult,
    /// the fragment to put on the wire, if any
    pub transmit: Option<Transmit>,
}

/// What one step of an unsolicited exchange decided.
#[derive(Copy, Clone, Debug, PartialEq, Eq, Structural)]
pub struct UnsolicitedStep {
    /// how the exchange ended, if it did
    pub result: Option<UnsolicitedResult>,
    /// the fragment to put on the wire, if any
    pub transmit: Option<Transmit>,
    /// the instant of the next attempt, if the exchange ended and set one
    pub retry_at: Option<Moment>,
}

impl<A: OutstationApplication, I: OutstationInformation, C: ControlHandler> OutstationSession<
    A,
    I,
    C,
> {
    /// Decides what a fragment received while a solicited confirmation is
    /// awaited asks the session to do. Anything received counts as traffic
    /// on the link.
    pub fn expect_sol_confirm(
        &mut self,
        now: Moment,
        ecsn: Sequence,
        request: Option<&TransportRequest>,
    ) -> (action: ConfirmAction)
        ensures
            action == spec_expect_sol_confirm(old(self).state.last_valid_request, ecsn, request),
            final(self).next_link_status == if request is Some {
                old(self).spec_link_deadline(now)
            } else {
                old(self).next_link_status
            },
            final(self).state == old(self).state,
            final(self).wait == old(self).wait,
            final(self).config == old(self).config,
            final(self).sol_tx_buffer == old(self).sol_tx_buffer,
            final(self).unsol_tx_buffer == old(self).unsol_tx_buffer,
            final(self).application == old(self).application,
            final(self).control_handler == old(self).control_handler,
    {
        let (info, request) = match request {
            Some(TransportRequest::Request(info, request)) => {
                self.on_link_activity(now);
                (info, request)
            },
            Some(TransportRequest::LinkLayerMessage(_)) => {
                self.on_link_activity(now);
                return ConfirmAction::ContinueWait;
            },
            Some(TransportRequest::Error(_)) => {
                self.on_link_activity(now);
                return ConfirmAction::NewRequest;
            },
            None => {
                return ConfirmAction::ContinueWait;
            },
        };
        match self.classify(*info, request) {
            FragmentType::MalformedRequest(_, _) => ConfirmAction::NewRequest,
            FragmentType::NewRead(_) => ConfirmAction::NewRequest,
            FragmentType::RepeatRead(_, response) => ConfirmAction::EchoLastResponse(response),
            FragmentType::NewNonRead(_) => ConfirmAction::NewRequest,
            FragmentType::RepeatNonRead(_, _) => ConfirmAction::NewRequest,
            FragmentType::Broadcast(_) => ConfirmAction::NewRequest,
            FragmentType::SolicitedConfirm(seq) => {
                if seq.same(&ecsn) {
                    ConfirmAction::Confirmed
                } else {
                    self.info.wrong_solicited_confirm_seq(ecsn, request.header.control.seq);
                    ConfirmAction::ContinueWait
                }
            },
            FragmentType::UnsolicitedConfirm(seq) => {
                self.info.unexpected_confirm(true, seq);
                ConfirmAction::ContinueWait
            },
        }
    }

    /// What one step of the wait for a solicited confirmation does. The
    /// record of the awaited fragment in the wait state stays, and so does
    /// the buffer that holds the fragment: but where a read is repeated
    /// whose response on record is another than the fragment awaited, the
    /// header of that response is written back into the buffer.
    pub open spec fn sol_wait_post(
        pre: &Self,
        post: &Self,
        now: Moment,
        timeout: Timeout,
        request: Option<&TransportRequest>,
        step: SolicitedWait,
    ) -> bool {
        &&& post.config == pre.config
        &&& post.state == pre.state
        &&& post.unsol_tx_buffer == pre.unsol_tx_buffer
        &&& post.application == pre.application
        &&& post.control_handler == pre.control_handler
        &&& pre.wait matches WaitState::SolConfirmWait { series, response, deadline }
        &&& if timeout == Timeout::Yes {
            &&& step == (SolicitedWait { confirm: Some(Confirm::Timeout), transmit: None })
            &&& post.wait == pre.wait
            &&& post.sol_tx_buffer == pre.sol_tx_buffer
            &&& post.next_link_status == pre.next_link_status
        } else {
            &&& post.next_link_status == if request is Some {
                pre.spec_link_deadline(now)
            } else {
                pre.next_link_status
            }
            &&& match spec_expect_sol_confirm(pre.state.last_valid_request, series.ecsn, request) {
                ConfirmAction::ContinueWait => {
                    &&& step == (SolicitedWait { confirm: None, transmit: None })
                    &&& post.wait == pre.wait
                    &&& post.sol_tx_buffer == pre.sol_tx_buffer
                },
                ConfirmAction::Confirmed => {
                    &&& step == (SolicitedWait { confirm: Some(Confirm::Yes), transmit: None })
                    &&& post.wait == pre.wait
                    &&& post.sol_tx_buffer == pre.sol_tx_buffer
                },
                ConfirmAction::NewRequest => {
                    &&& step == (SolicitedWait {
                        confirm: Some(Confirm::NewRequest),
                        transmit: None,
                    })
                    &&& post.wait == pre.wait
                    &&& post.sol_tx_buffer == pre.sol_tx_buffer
                },
                ConfirmAction::EchoLastResponse(recorded) => {
                    &&& step.confirm is None
                    &&& post.wait == (WaitState::SolConfirmWait {
                        series,
                        response,
                        deadline: now.spec_after(pre.config.confirm_timeout),
                    })
                    &&& match recorded {
                        Some(r) => {
                            &&& step.transmit == Some(
                                Transmit::Solicited(
                                    r.spec_length(pre.sol_tx_buffer@.len() as int) as usize,
                                ),
                            )
                            &&& post.sol_tx_buffer@ == if r == response {
                                pre.sol_tx_buffer@
                            } else {
                                r.header.spec_written(pre.sol_tx_buffer@)
                            }
                        },
                        None => {
                            &&& step.transmit is None
                            &&& post.sol_tx_buffer == pre.sol_tx_buffer
                        },
                    }
                },
            }
        }
    }

    /// Takes one step of the wait for a solicited confirmation: either the
    /// deadline has passed, or the transport layer has something. The
    /// awaited confirmation, a new request and the deadline end the wait. A
    /// repetition of the read on record has the response on record sent
    /// again, and the deadline set anew. Where that response is the fragment
    /// awaited, as it is throughout a series, it goes out of the buffer as
    /// it stands there, and the buffer is not touched; else its header is
    /// written back over the buffer first. Anything else, a confirmation
    /// with another sequence number among it, leaves the wait and its
    /// deadline as they are.
    pub fn wait_for_sol_confirm(
        &mut self,
        now: Moment,
        timeout: Timeout,
        request: Option<&TransportRequest>,
    ) -> (step: SolicitedWait)
        requires
            old(self).wf(),
            old(self).wait is SolConfirmWait,
        ensures
            final(self).wf(),
            Self::sol_wait_post(old(self), final(self), now, timeout, request, step),
            final(self).wait is SolConfirmWait,
            old(self).awaits_recorded() ==> final(self).awaits_recorded()
                && final(self).sol_tx_buffer@ == old(self).sol_tx_buffer@,
    {
        let (series, awaited) = match self.wait {
            WaitState::SolConfirmWait { series, response, .. } => (series, response),
            _ => {
                return SolicitedWait { confirm: None, transmit: None };
            },
        };
        match timeout {
            Timeout::Yes => {
                self.info.solicited_confirm_timeout(series.ecsn);
                SolicitedWait { confirm: Some(Confirm::Timeout), transmit: None }
            },
            Timeout::No => {
                match self.expect_sol_confirm(now, series.ecsn, request) {
                    ConfirmAction::ContinueWait => SolicitedWait { confirm: None, transmit: None },
                    ConfirmAction::Confirmed => {
                        self.info.solicited_confirm_received(series.ecsn);
                        SolicitedWait { confirm: Some(Confirm::Yes), transmit: None }
                    },
                    ConfirmAction::NewRequest => {
                        self.info.solicited_confirm_wait_new_request();
                        SolicitedWait { confirm: Some(Confirm::NewRequest), transmit: None }
                    },
                    ConfirmAction::EchoLastResponse(recorded) => {
                        let transmit = match recorded {
                            Some(r) => {
                                let len = if r == awaited {
                                    response_length(r, self.sol_tx_buffer.len())
                                } else {
                                    self.repeat_solicited(r)
                                };
                                Some(Transmit::Solicited(len))
                            },
                            None => None,
                        };
                        self.wait = WaitState::SolConfirmWait {
                            series,
                            response: awaited,
                            deadline: self.new_confirm_deadline(now),
                        };
                        SolicitedWait { confirm: None, transmit }
                    },
                }
            },
        }
    }

    /// What the end of a wait for a solicited confirmation does.
    pub open spec fn sol_confirm_post(
        pre: &Self,
        post: &Self,
        db_pre: DatabaseView,
        db_post: DatabaseView,
        now: Moment,
        confirm: Confirm,
        transmit: Option<Transmit>,
    ) -> bool {
        &&& post.config == pre.config
        &&& post.next_link_status == pre.next_link_status
        &&& post.unsol_tx_buffer == pre.unsol_tx_buffer
        &&& post.sol_tx_buffer@.len() == pre.sol_tx_buffer@.len()
        &&& post.application == pre.application
        &&& post.control_handler == pre.control_handler
        &&& pre.wait matches WaitState::SolConfirmWait { series, .. }
        &&& match confirm {
            Confirm::Yes => if series.fin {
                &&& transmit is None
                &&& post.wait == WaitState::Idle
                &&& db_post == db_pre.clear_written()
                &&& post.sol_tx_buffer == pre.sol_tx_buffer
                &&& post.state@ == (SessionStateView { last_broadcast_type: None, ..pre.state@ })
            } else {
                let fill = db_pre.clear_written().write_fragment(pre.sol_tx_buffer@.len() - 4);
                &&& db_post == fill.database
                &&& exists|application: ApplicationIin, ecsn: Sequence|
                    {
                        let sent = #[trigger] spec_sent_solicited(
                            crate::outstation::session::idle::read_reply(
                                fill.info,
                                fill.bytes.len() as int,
                                false,
                                ecsn,
                                0,
                            ),
                            pre.state.restart_iin_asserted,
                            db_post.events_info(),
                            None,
                            application,
                        );
                        &&& ecsn@ == Sequence::successor(series.ecsn@)
                        &&& transmit == Some(
                            Transmit::Solicited(
                                sent.spec_length(pre.sol_tx_buffer@.len() as int) as usize,
                            ),
                        )
                        &&& post.sol_tx_buffer@ == sent.header.spec_written(
                            crate::outstation::database::overwrite(
                                pre.sol_tx_buffer@,
                                4,
                                fill.bytes,
                            ),
                        )
                        &&& post.wait == match fill.info.spec_response_series(ecsn) {
                            Some(next) => WaitState::SolConfirmWait {
                                series: next,
                                response: sent,
                                deadline: now.spec_after(pre.config.confirm_timeout),
                            },
                            None => WaitState::Idle,
                        }
                        &&& sent.header.control.con == (post.wait is SolConfirmWait)
                        &&& post.state@ == (SessionStateView {
                            last_broadcast_type: None,
                            last_valid_request: record_moved(
                                pre.state.last_valid_request,
                                sent,
                                fill.info.spec_response_series(ecsn),
                            ),
                            ..pre.state@
                        })
                    }
            },
            Confirm::Timeout | Confirm::NewRequest => {
                &&& transmit is None
                &&& post.wait == WaitState::Idle
                &&& db_post == db_pre.reset()
                &&& post.sol_tx_buffer == pre.sol_tx_buffer
                &&& post.state == pre.state
            },
        }
    }

    /// Draws the consequences of the end of a wait for a solicited
    /// confirmation. The confirmation frees the events that the fragment
    /// reported; if more fragments are to follow, the next is composed and
    /// sent under the following sequence number, the record of the request
    /// moves on to it, and the session waits for its confirmation in turn
    /// if it asks for one. A wait that ends without
    /// the confirmation, by its deadline or by a new request, gives the
    /// events back to the database for a later response. In every other case
    /// the session returns to the idle state.
    pub fn sol_confirm_wait(&mut self, now: Moment, confirm: Confirm, database: &mut Database) -> (transmit:
        Option<Transmit>)
        requires
            old(self).wf(),
            old(self).wait is SolConfirmWait,
        ensures
            final(self).wf(),
            Self::sol_confirm_post(
                old(self),
                final(self),
                old(database)@,
                final(database)@,
                now,
                confirm,
                transmit,
            ),
            final(self).wait is Idle || final(self).wait is SolConfirmWait,
            final(self).state.restart_iin_asserted == old(self).state.restart_iin_asserted,
            transmit is Some && old(self).state.last_valid_request is Some
                ==> final(self).last_response_in_buffer(),
            final(self).wait is SolConfirmWait && old(self).state.last_valid_request is Some
                ==> final(self).awaits_recorded(),
    {
        let series = match self.wait {
            WaitState::SolConfirmWait { series, .. } => series,
            _ => {
                return None;
            },
        };
        match confirm {
            Confirm::Yes => {
                self.state.last_broadcast_type = None;
                database.clear_written_events();
                if series.fin {
                    self.wait = WaitState::Idle;
                    return None;
                }
                let mut ecsn = series.ecsn;
                ecsn.increment();
                let (response, next) = self.write_read_response(
                    database,
                    false,
                    ecsn,
                    Iin2 { value: 0 },
                );
                let ghost mid = *self;
                let (sent, len) = self.write_solicited(response, database);
                proof {
                    let application = choose|application: ApplicationIin|
                        sent == #[trigger] spec_sent_solicited(
                            response,
                            mid.state.restart_iin_asserted,
                            database@.events_info(),
                            mid.state.last_broadcast_type,
                            application,
                        );
                    assert(sent == spec_sent_solicited(
                        response,
                        old(self).state.restart_iin_asserted,
                        database@.events_info(),
                        None,
                        application,
                    ));
                    assert(self.sol_tx_buffer@.subrange(0, 4) =~= sent.header.spec_bytes());
                }
                match self.state.last_valid_request {
                    Some(last) => {
                        self.state.last_valid_request = Some(
                            LastValidRequest::new(last.seq, last.request_hash, Some(sent), next),
                        );
                    },
                    None => {},
                }
                match next {
                    None => {
                        self.wait = WaitState::Idle;
                    },
                    Some(next) => {
                        self.wait = WaitState::SolConfirmWait {
                            series: next,
                            response: sent,
                            deadline: self.new_confirm_deadline(now),
                        };
                    },
                }
                Some(Transmit::Solicited(len))
            },
            Confirm::Timeout | Confirm::NewRequest => {
                database.reset();
                self.wait = WaitState::Idle;
                None
            },
        }
    }

    /// What a request other than a read does when it arrives during the
    /// wait for an unsolicited confirmation: it is carried out and answered,
    /// and the record of it is kept. `start` is the session as the request
    /// finds it, with the deferred read dropped and the traffic noted.
    pub open spec fn unsol_non_read_post(
        start: &Self,
        post: &Self,
        db_pre: DatabaseView,
        db_post: DatabaseView,
        now: Moment,
        info: FragmentInfo,
        request: &Request,
        hash: u64,
        transmit: Option<Transmit>,
    ) -> bool {
        let seq = request.header.control.seq;
        exists|mid: Self, response: Option<Response>|
            {
                &&& #[trigger] Self::non_read_post(
                    start,
                    &mid,
                    db_pre,
                    db_post,
                    now,
                    request.header.function,
                    seq,
                    info.id,
                    &request.objects->Ok_0,
                    response,
                )
                &&& post.config == mid.config
                &&& post.wait == mid.wait
                &&& post.next_link_status == mid.next_link_status
                &&& post.unsol_tx_buffer == mid.unsol_tx_buffer
                &&& post.application == mid.application
                &&& post.control_handler == mid.control_handler
                &&& match response {
                    None => {
                        &&& transmit is None
                        &&& post.sol_tx_buffer == mid.sol_tx_buffer
                        &&& post.state@ == (SessionStateView {
                            last_valid_request: Some(
                                LastValidRequest {
                                    seq,
                                    request_hash: hash,
                                    response: None,
                                    series: None,
                                },
                            ),
                            ..mid.state@
                        })
                    },
                    Some(r) => exists|application: ApplicationIin|
                        {
                            let sent = #[trigger] spec_sent_solicited(
                                r,
                                mid.state.restart_iin_asserted,
                                db_post.events_info(),
                                mid.state.last_broadcast_type,
                                application,
                            );
                            &&& transmit == Some(
                                Transmit::Solicited(
                                    sent.spec_length(mid.sol_tx_buffer@.len() as int) as usize,
                                ),
                            )
                            &&& post.sol_tx_buffer@ == sent.header.spec_written(mid.sol_tx_buffer@)
                            &&& post.state@ == (SessionStateView {
                                last_valid_request: Some(
                                    LastValidRequest {
                                        seq,
                                        request_hash: hash,
                                        response: Some(sent),
                                        series: None,
                                    },
                                ),
                                last_broadcast_type: broadcast_after_report(
                                    mid.state.last_broadcast_type,
                                ),
                                ..mid.state@
                            })
                        },
                }
            }
    }

    /// What a request does when it arrives during the wait for the
    /// confirmation of the unsolicited response `uns_ecsn`.
    pub open spec fn unsol_request_post(
        pre: &Self,
        post: &Self,
        db_pre: DatabaseView,
        db_post: DatabaseView,
        now: Moment,
        uns_ecsn: Sequence,
        info: FragmentInfo,
        request: &Request,
        step: UnsolicitedWait,
    ) -> bool {
        let seq = request.header.control.seq;
        &&& post.config == pre.config
        &&& post.wait == pre.wait
        &&& post.unsol_tx_buffer == pre.unsol_tx_buffer
        &&& post.next_link_status == pre.spec_link_deadline(now)
        &&& match spec_classify(pre.state.last_valid_request, info, request) {
            FragmentType::UnsolicitedConfirm(confirmed) => {
                &&& post.application == pre.application
                &&& post.control_handler == pre.control_handler
                &&& step.transmit is None
                &&& db_post == db_pre
                &&& post.sol_tx_buffer == pre.sol_tx_buffer
                &&& if confirmed@ == uns_ecsn@ {
                    &&& step.result == UnsolicitedWaitResult::Complete(
                        UnsolicitedResult::Confirmed,
                    )
                    &&& post.state@ == (SessionStateView {
                        last_broadcast_type: None,
                        ..pre.state@
                    })
                } else {
                    &&& step.result == UnsolicitedWaitResult::ReadNext
                    &&& post.state == pre.state
                }
            },
            FragmentType::SolicitedConfirm(_) => {
                &&& post.application == pre.application
                &&& post.control_handler == pre.control_handler
                &&& step == (UnsolicitedWait {
                    result: UnsolicitedWaitResult::ReadNext,
                    transmit: None,
                })
                &&& db_post == db_pre
                &&& post.sol_tx_buffer == pre.sol_tx_buffer
                &&& post.state@ == (SessionStateView {
                    last_broadcast_type: if pre.state.last_broadcast_type == Some(
                        BroadcastConfirmMode::Mandatory,
                    ) {
                        None
                    } else {
                        pre.state.last_broadcast_type
                    },
                    ..pre.state@
                })
            },
            FragmentType::Broadcast(mode) => {
                &&& step == (UnsolicitedWait {
                    result: UnsolicitedWaitResult::ReadNext,
                    transmit: None,
                })
                &&& post.sol_tx_buffer == pre.sol_tx_buffer
                &&& post.state.last_broadcast_type == Some(mode)
                &&& post.state@.deferred_read.info is None
                &&& exists|start: Self|
                    {
                        &&& start.keeps_all_but_state(pre)
                        &&& start.control_handler == pre.control_handler
                        &&& start.application == pre.application
                        &&& start.state@ == (SessionStateView {
                            deferred_read: pre.state@.deferred_read.clear(),
                            ..pre.state@
                        })
                        &&& #[trigger] Self::broadcast_taken(
                            &start,
                            &Self::with_link_status(post, pre.next_link_status),
                            db_pre,
                            db_post,
                            now,
                            mode,
                            request,
                            spec_broadcast_action(pre.config.broadcast, request),
                        )
                    }
            },
            FragmentType::MalformedRequest(_, err) => if answered_from_record(
                pre.state.last_valid_request,
                info,
                request,
            ) {
                Self::unsol_repeat_post(
                    pre,
                    post,
                    db_pre,
                    db_post,
                    pre.state.last_valid_request->0.response,
                    step,
                )
            } else {
                &&& post.application == pre.application
                &&& post.control_handler == pre.control_handler
                &&& step.result == UnsolicitedWaitResult::ReadNext
                &&& db_post == db_pre
                &&& exists|application: ApplicationIin|
                    {
                        let sent = #[trigger] spec_sent_solicited(
                            empty_reply(seq, spec_iin2_of_error(err)),
                            pre.state.restart_iin_asserted,
                            db_pre.events_info(),
                            pre.state.last_broadcast_type,
                            application,
                        );
                        &&& step.transmit == Some(Transmit::Solicited(4))
                        &&& post.sol_tx_buffer@ == sent.header.spec_written(pre.sol_tx_buffer@)
                        &&& post.state@ == (SessionStateView {
                            last_broadcast_type: broadcast_after_report(
                                pre.state.last_broadcast_type,
                            ),
                            deferred_read: pre.state@.deferred_read.clear(),
                            ..pre.state@
                        })
                    }
            },
            FragmentType::NewNonRead(hash) => {
                &&& step.result == if request.header.function == FunctionCode::DisableUnsolicited {
                    UnsolicitedWaitResult::Complete(UnsolicitedResult::ReturnToIdle)
                } else {
                    UnsolicitedWaitResult::ReadNext
                }
                &&& exists|start: Self|
                    {
                        &&& start.keeps_all_but_state(pre)
                        &&& start.control_handler == pre.control_handler
                        &&& start.application == pre.application
                        &&& start.state@ == (SessionStateView {
                            deferred_read: pre.state@.deferred_read.clear(),
                            ..pre.state@
                        })
                        &&& #[trigger] Self::unsol_non_read_post(
                            &start,
                            &Self::with_link_status(post, pre.next_link_status),
                            db_pre,
                            db_post,
                            now,
                            info,
                            request,
                            hash,
                            step.transmit,
                        )
                    }
            },
            FragmentType::NewRead(hash) | FragmentType::RepeatRead(hash, _) => {
                &&& post.application == pre.application
                &&& post.control_handler == pre.control_handler
                &&& step == (UnsolicitedWait {
                    result: UnsolicitedWaitResult::ReadNext,
                    transmit: None,
                })
                &&& db_post == db_pre
                &&& post.sol_tx_buffer == pre.sol_tx_buffer
                &&& post.state@ == (SessionStateView {
                    deferred_read: pre.state@.deferred_read.set(
                        hash,
                        seq,
                        info,
                        read_headers(request.objects->Ok_0.headers@),
                    ),
                    ..pre.state@
                })
            },
            FragmentType::RepeatNonRead(_, last_response) => Self::unsol_repeat_post(
                pre,
                post,
                db_pre,
                db_post,
                last_response,
                step,
            ),
        }
    }

    /// What a request does that repeats the one answered last and arrives
    /// during the wait for an unsolicited confirmation: the response on
    /// record goes out again as it stands there, and nothing is carried
    /// out. A read that was put aside is dropped.
    pub open spec fn unsol_repeat_post(
        pre: &Self,
        post: &Self,
        db_pre: DatabaseView,
        db_post: DatabaseView,
        last_response: Option<Response>,
        step: UnsolicitedWait,
    ) -> bool {
        &&& post.application == pre.application
        &&& post.control_handler == pre.control_handler
        &&& step.result == UnsolicitedWaitResult::ReadNext
        &&& db_post == db_pre
        &&& post.state@ == (SessionStateView {
            deferred_read: pre.state@.deferred_read.clear(),
            ..pre.state@
        })
        &&& match last_response {
            Some(r) => {
                &&& step.transmit == Some(
                    Transmit::Solicited(r.spec_length(pre.sol_tx_buffer@.len() as int) as usize),
                )
                &&& post.sol_tx_buffer@ == r.header.spec_written(pre.sol_tx_buffer@)
                &&& pre.last_response_in_buffer() ==> post.sol_tx_buffer@ == pre.sol_tx_buffer@
            },
            None => step.transmit is None && post.sol_tx_buffer == pre.sol_tx_buffer,
        }
    }

    /// What one step of the wait for an unsolicited confirmation does. Only
    /// a request that is carried out, new or by broadcast, reaches the
    /// application or the control handler.
    pub open spec fn unsol_wait_post(
        pre: &Self,
        post: &Self,
        db_pre: DatabaseView,
        db_post: DatabaseView,
        now: Moment,
        timeout: Timeout,
        request: Option<&TransportRequest>,
        step: UnsolicitedWait,
    ) -> bool {
        &&& pre.wait matches WaitState::UnsolConfirmWait { response, .. }
        &&& if timeout == Timeout::Yes {
            &&& step == (UnsolicitedWait {
                result: UnsolicitedWaitResult::Timeout,
                transmit: None,
            })
            &&& post.state == pre.state
            &&& post.keeps_all_but_state(pre)
            &&& post.application == pre.application
            &&& post.control_handler == pre.control_handler
            &&& db_post == db_pre
        } else {
            match request {
                None => {
                    &&& step == (UnsolicitedWait {
                        result: UnsolicitedWaitResult::ReadNext,
                        transmit: None,
                    })
                    &&& post.state == pre.state
                    &&& post.keeps_all_but_state(pre)
                    &&& post.application == pre.application
                    &&& post.control_handler == pre.control_handler
                    &&& db_post == db_pre
                },
                Some(TransportRequest::LinkLayerMessage(_)) => {
                    &&& step == (UnsolicitedWait {
                        result: UnsolicitedWaitResult::ReadNext,
                        transmit: None,
                    })
                    &&& post.state == pre.state
                    &&& post.config == pre.config
                    &&& post.wait == pre.wait
                    &&& post.sol_tx_buffer == pre.sol_tx_buffer
                    &&& post.unsol_tx_buffer == pre.unsol_tx_buffer
                    &&& post.next_link_status == pre.spec_link_deadline(now)
                    &&& post.application == pre.application
                    &&& post.control_handler == pre.control_handler
                    &&& db_post == db_pre
                },
                Some(TransportRequest::Error(err)) => {
                    &&& step.result == UnsolicitedWaitResult::ReadNext
                    &&& post.config == pre.config
                    &&& post.wait == pre.wait
                    &&& post.unsol_tx_buffer == pre.unsol_tx_buffer
                    &&& post.next_link_status == pre.next_link_status
                    &&& post.application == pre.application
                    &&& post.control_handler == pre.control_handler
                    &&& db_post == db_pre
                    &&& exists|start: Self, sent: Option<Response>|
                        {
                            &&& start.keeps_all_but_state(pre)
                            &&& start.state@ == (SessionStateView {
                                deferred_read: pre.state@.deferred_read.clear(),
                                ..pre.state@
                            })
                            &&& #[trigger] Self::error_post(&start, post, db_pre, *err, sent)
                            &&& step.transmit == match sent {
                                Some(_) => Some(Transmit::Solicited(4)),
                                None => None,
                            }
                        }
                },
                Some(TransportRequest::Request(info, request)) => Self::unsol_request_post(
                    pre,
                    post,
                    db_pre,
                    db_post,
                    now,
                    response.header.control.seq,
                    *info,
                    request,
                    step,
                ),
            }
        }
    }

    /// True when a request received during the wait for an unsolicited
    /// confirmation clears the restart indication.
    pub open spec fn clears_restart_in_wait(pre: &Self, request: Option<&TransportRequest>) -> bool {
        match request {
            Some(TransportRequest::Request(info, request)) => Self::clears_restart_from_idle(
                pre,
                *info,
                request,
            ),
            _ => false,
        }
    }

    /// Answers a request that repeats the one answered last and that arrived
    /// during the wait for an unsolicited confirmation: with the response on
    /// record, as it was sent. A read that was put aside is dropped.
    fn repeat_in_wait(&mut self, now: Moment, last_response: Option<Response>) -> (transmit: Option<
        Transmit,
    >)
        requires
            old(self).wf(),
        ensures
            final(self).wf(),
            final(self).config == old(self).config,
            final(self).wait == old(self).wait,
            final(self).unsol_tx_buffer == old(self).unsol_tx_buffer,
            final(self).next_link_status == old(self).spec_link_deadline(now),
            final(self).application == old(self).application,
            final(self).control_handler == old(self).control_handler,
            final(self).state@ == (SessionStateView {
                deferred_read: old(self).state@.deferred_read.clear(),
                ..old(self).state@
            }),
            match last_response {
                Some(r) => {
                    &&& transmit == Some(
                        Transmit::Solicited(
                            r.spec_length(old(self).sol_tx_buffer@.len() as int) as usize,
                        ),
                    )
                    &&& final(self).sol_tx_buffer@ == r.header.spec_written(
                        old(self).sol_tx_buffer@,
                    )
                    &&& old(self).sol_tx_buffer@.subrange(0, 4) == r.header.spec_bytes()
                        ==> final(self).sol_tx_buffer@ == old(self).sol_tx_buffer@
                },
                None => transmit is None && final(self).sol_tx_buffer == old(self).sol_tx_buffer,
            },
    {
        self.on_link_activity(now);
        let transmit = match last_response {
            Some(r) => {
                proof {
                    if old(self).sol_tx_buffer@.subrange(0, 4) == r.header.spec_bytes() {
                        r.header.lemma_rewrite_is_identity(old(self).sol_tx_buffer@);
                    }
                }
                let len = self.repeat_solicited(r);
                Some(Transmit::Solicited(len))
            },
            None => None,
        };
        self.state.deferred_read.clear();
        transmit
    }

    /// Answers a request whose objects could not be read and that arrived
    /// during the wait for an unsolicited confirmation: with an empty
    /// response that reports the error. A read that was put aside is dropped.
    fn answer_malformed_in_wait(
        &mut self,
        now: Moment,
        seq: Sequence,
        err: crate::app::parse::ObjectParseError,
        database: &Database,
    ) -> (transmit: Option<Transmit>)
        requires
            old(self).wf(),
        ensures
            final(self).wf(),
            final(self).config == old(self).config,
            final(self).wait == old(self).wait,
            final(self).unsol_tx_buffer == old(self).unsol_tx_buffer,
            final(self).next_link_status == old(self).spec_link_deadline(now),
            final(self).application == old(self).application,
            final(self).control_handler == old(self).control_handler,
            exists|application: ApplicationIin|
                {
                    let sent = #[trigger] spec_sent_solicited(
                        empty_reply(seq, spec_iin2_of_error(err)),
                        old(self).state.restart_iin_asserted,
                        database@.events_info(),
                        old(self).state.last_broadcast_type,
                        application,
                    );
                    &&& transmit == Some(Transmit::Solicited(4))
                    &&& final(self).sol_tx_buffer@ == sent.header.spec_written(
                        old(self).sol_tx_buffer@,
                    )
                    &&& final(self).state@ == (SessionStateView {
                        last_broadcast_type: broadcast_after_report(
                            old(self).state.last_broadcast_type,
                        ),
                        deferred_read: old(self).state@.deferred_read.clear(),
                        ..old(self).state@
                    })
                },
    {
        self.on_link_activity(now);
        self.state.deferred_read.clear();
        let iin = Iin::from_iin2(Iin2::from(err));
        let ghost mid = *self;
        let (sent, len) = self.write_solicited(Response::empty_solicited(seq, iin), database);
        proof {
            let application = choose|application: ApplicationIin|
                sent == #[trigger] spec_sent_solicited(
                    empty_reply(seq, spec_iin2_of_error(err)),
                    mid.state.restart_iin_asserted,
                    database@.events_info(),
                    mid.state.last_broadcast_type,
                    application,
                );
            assert(sent == spec_sent_solicited(
                empty_reply(seq, spec_iin2_of_error(err)),
                old(self).state.restart_iin_asserted,
                database@.events_info(),
                old(self).state.last_broadcast_type,
                application,
            ));
        }
        Some(Transmit::Solicited(len))
    }

    /// Carries out and answers a request other than a read that arrived
    /// during the wait for an unsolicited confirmation, and keeps the record
    /// of it. A read that was put aside is dropped.
    fn answer_non_read_in_wait(
        &mut self,
        now: Moment,
        info: FragmentInfo,
        request: &Request,
        hash: u64,
        database: &mut Database,
    ) -> (transmit: Option<Transmit>)
        requires
            old(self).wf(),
            request.objects is Ok,
        ensures
            final(self).wf(),
            final(self).config == old(self).config,
            final(self).wait == old(self).wait,
            final(self).unsol_tx_buffer == old(self).unsol_tx_buffer,
            final(self).next_link_status == old(self).spec_link_deadline(now),
            final(self).state.restart_iin_asserted == (old(self).state.restart_iin_asserted
                && !request_clears_restart(request.header.function, &request.objects->Ok_0)),
            transmit is Some ==> final(self).last_response_in_buffer(),
            exists|start: Self|
                {
                    &&& start.keeps_all_but_state(old(self))
                    &&& start.control_handler == old(self).control_handler
                    &&& start.application == old(self).application
                    &&& start.state@ == (SessionStateView {
                        deferred_read: old(self).state@.deferred_read.clear(),
                        ..old(self).state@
                    })
                    &&& #[trigger] Self::unsol_non_read_post(
                        &start,
                        &Self::with_link_status(final(self), old(self).next_link_status),
                        old(database)@,
                        final(database)@,
                        now,
                        info,
                        request,
                        hash,
                        transmit,
                    )
                },
    {
        let seq = request.header.control.seq;
        let objects = match &request.objects {
            Ok(objects) => objects,
            Err(_) => {
                return None;
            },
        };
        self.state.deferred_read.clear();
        let ghost start = *self;
        let response = self.handle_non_read(
            now,
            database,
            request.header.function,
            seq,
            info.id,
            objects,
        );
        let ghost mid = *self;
        let mut transmit = None;
        let mut recorded = response;
        match response {
            Some(r) => {
                let (sent, len) = self.write_solicited(r, database);
                proof {
                    let application = choose|application: ApplicationIin|
                        sent == #[trigger] spec_sent_solicited(
                            r,
                            mid.state.restart_iin_asserted,
                            database@.events_info(),
                            mid.state.last_broadcast_type,
                            application,
                        );
                    assert(sent == spec_sent_solicited(
                        r,
                        mid.state.restart_iin_asserted,
                        database@.events_info(),
                        mid.state.last_broadcast_type,
                        application,
                    ));
                }
                proof {
                    assert(self.sol_tx_buffer@.subrange(0, 4) =~= sent.header.spec_bytes());
                }
                recorded = Some(sent);
                transmit = Some(Transmit::Solicited(len));
            },
            None => {},
        }
        self.state.last_valid_request = Some(LastValidRequest::new(seq, hash, recorded, None));
        let ghost end = *self;
        self.on_link_activity(now);
        proof {
            assert(Self::with_link_status(final(self), old(self).next_link_status) == end);
            assert(Self::non_read_post(
                &start,
                &mid,
                old(database)@,
                database@,
                now,
                request.header.function,
                seq,
                info.id,
                objects,
                response,
            ));
            assert(Self::unsol_non_read_post(
                &start,
                &end,
                old(database)@,
                database@,
                now,
                info,
                request,
                hash,
                transmit,
            ));
        }
        transmit
    }

    /// Takes one step of the wait for an unsolicited confirmation: either
    /// the deadline has passed, or the transport layer has something. The
    /// awaited confirmation ends the exchange. A read request is put aside
    /// until the exchange is over. Any other request is carried out and
    /// answered while the wait goes on, except that a disable of unsolicited
    /// responses, once answered, ends the exchange. A repetition of the
    /// request answered last, unless it is a read that can be read, has the
    /// response sent again, octet for octet.
    /// A broadcast is carried out. Everything but a confirmation and a read
    /// drops a read that was put aside.
    pub fn wait_for_unsolicited_confirm(
        &mut self,
        now: Moment,
        timeout: Timeout,
        request: Option<&TransportRequest>,
        database: &mut Database,
    ) -> (step: UnsolicitedWait)
        requires
            old(self).wf(),
            old(self).wait is UnsolConfirmWait,
        ensures
            final(self).wf(),
            final(self).wait == old(self).wait,
            Self::unsol_wait_post(
                old(self),
                final(self),
                old(database)@,
                final(database)@,
                now,
                timeout,
                request,
                step,
            ),
            final(self).state.restart_iin_asserted == (old(self).state.restart_iin_asserted
                && !(timeout == Timeout::No && Self::clears_restart_in_wait(old(self), request))),
            ({
                &&& timeout == Timeout::No
                &&& request matches Some(TransportRequest::Request(info, r))
                &&& spec_classify(old(self).state.last_valid_request, *info, r) is NewNonRead
                &&& step.transmit is Some
            }) ==> final(self).last_response_in_buffer(),
    {
        let uns_ecsn = match self.wait {
            WaitState::UnsolConfirmWait { response, .. } => response.seq(),
            _ => {
                return UnsolicitedWait { result: UnsolicitedWaitResult::ReadNext, transmit: None };
            },
        };
        if let Timeout::Yes = timeout {
            return UnsolicitedWait { result: UnsolicitedWaitResult::Timeout, transmit: None };
        }
        let (info, request) = match request {
            None => {
                return UnsolicitedWait { result: UnsolicitedWaitResult::ReadNext, transmit: None };
            },
            Some(TransportRequest::Request(info, request)) => (info, request),
            Some(TransportRequest::LinkLayerMessage(_)) => {
                self.on_link_activity(now);
                return UnsolicitedWait { result: UnsolicitedWaitResult::ReadNext, transmit: None };
            },
            Some(TransportRequest::Error(err)) => {
                self.state.deferred_read.clear();
                let ghost start = *self;
                let sent = self.write_error_response(*err, database);
                proof {
                    assert(Self::error_post(&start, final(self), old(database)@, *err, sent));
                }
                let transmit = match sent {
                    Some(_) => Some(Transmit::Solicited(4)),
                    None => None,
                };
                return UnsolicitedWait { result: UnsolicitedWaitResult::ReadNext, transmit };
            },
        };
        let seq = request.header.control.seq;
        let kind = self.classify(*info, request);
        match kind {
            FragmentType::UnsolicitedConfirm(confirmed) => {
                self.on_link_activity(now);
                if confirmed.same(&uns_ecsn) {
                    self.state.last_broadcast_type = None;
                    self.info.unsolicited_confirmed(confirmed);
                    UnsolicitedWait {
                        result: UnsolicitedWaitResult::Complete(UnsolicitedResult::Confirmed),
                        transmit: None,
                    }
                } else {
                    UnsolicitedWait { result: UnsolicitedWaitResult::ReadNext, transmit: None }
                }
            },
            FragmentType::SolicitedConfirm(_) => {
                self.on_link_activity(now);
                if let Some(BroadcastConfirmMode::Mandatory) = self.state.last_broadcast_type {
                    self.state.last_broadcast_type = None;
                }
                UnsolicitedWait { result: UnsolicitedWaitResult::ReadNext, transmit: None }
            },
            FragmentType::Broadcast(mode) => {
                self.state.deferred_read.clear();
                let ghost start = *self;
                let action = self.process_broadcast(now, database, mode, request);
                let ghost end = *self;
                self.on_link_activity(now);
                proof {
                    assert(Self::with_link_status(final(self), old(self).next_link_status) == end);
                    assert(Self::broadcast_taken(
                        &start,
                        &end,
                        old(database)@,
                        final(database)@,
                        now,
                        mode,
                        request,
                        action,
                    ));
                }
                UnsolicitedWait { result: UnsolicitedWaitResult::ReadNext, transmit: None }
            },
            FragmentType::MalformedRequest(hash, err) => {
                let repeated = match self.state.last_valid_request {
                    Some(last) => if last.seq.same(&seq) && last.request_hash == hash {
                        Some(last.response)
                    } else {
                        None
                    },
                    None => None,
                };
                let transmit = match repeated {
                    Some(recorded) => self.repeat_in_wait(now, recorded),
                    None => self.answer_malformed_in_wait(now, seq, err, database),
                };
                UnsolicitedWait { result: UnsolicitedWaitResult::ReadNext, transmit }
            },
            FragmentType::NewNonRead(hash) => {
                let transmit = self.answer_non_read_in_wait(now, *info, request, hash, database);
                if request.header.function.same(&FunctionCode::DisableUnsolicited) {
                    UnsolicitedWait {
                        result: UnsolicitedWaitResult::Complete(UnsolicitedResult::ReturnToIdle),
                        transmit,
                    }
                } else {
                    UnsolicitedWait { result: UnsolicitedWaitResult::ReadNext, transmit }
                }
            },
            FragmentType::NewRead(hash) | FragmentType::RepeatRead(hash, _) => {
                self.on_link_activity(now);
                match &request.objects {
                    Ok(objects) => {
                        self.state.deferred_read.set(hash, seq, *info, objects);
                    },
                    Err(_) => {},
                }
                UnsolicitedWait { result: UnsolicitedWaitResult::ReadNext, transmit: None }
            },
            FragmentType::RepeatNonRead(_, last_response) => {
                let transmit = self.repeat_in_wait(now, last_response);
                UnsolicitedWait { result: UnsolicitedWaitResult::ReadNext, transmit }
            },
        }
    }

    /// What one step of an unsolicited exchange decides.
    pub open spec fn unsol_step_post(
        pre: &Self,
        post: &Self,
        db_pre: DatabaseView,
        db_post: DatabaseView,
        now: Moment,
        result: UnsolicitedWaitResult,
        step: UnsolicitedStep,
    ) -> bool {
        &&& post.config == pre.config
        &&& post.next_link_status == pre.next_link_status
        &&& post.sol_tx_buffer == pre.sol_tx_buffer
        &&& post.application == pre.application
        &&& post.control_handler == pre.control_handler
        &&& pre.wait matches WaitState::UnsolConfirmWait { response, is_null, retries, deadline }
        &&& match result {
            UnsolicitedWaitResult::ReadNext => {
                &&& step == (UnsolicitedStep { result: None, transmit: None, retry_at: None })
                &&& post.wait == pre.wait
                &&& post.state == pre.state
                &&& post.unsol_tx_buffer == pre.unsol_tx_buffer
                &&& db_post == db_pre
            },
            UnsolicitedWaitResult::Complete(end) => Self::unsol_end_post(
                pre,
                post,
                db_pre,
                db_post,
                now,
                is_null,
                end,
                step,
            ),
            UnsolicitedWaitResult::Timeout => if retries.spec_may_retry()
                && pre.state@.deferred_read.info is None {
                &&& step == (UnsolicitedStep {
                    result: None,
                    transmit: Some(
                        Transmit::Unsolicited(
                            response.spec_length(pre.unsol_tx_buffer@.len() as int) as usize,
                        ),
                    ),
                    retry_at: None,
                })
                &&& post.wait == (WaitState::UnsolConfirmWait {
                    response,
                    is_null,
                    retries: retries.spec_decrement(),
                    deadline: now.spec_after(pre.config.confirm_timeout),
                })
                &&& post.state == pre.state
                &&& post.unsol_tx_buffer@ == response.header.spec_written(pre.unsol_tx_buffer@)
                &&& db_post == db_pre
            } else {
                Self::unsol_end_post(
                    pre,
                    post,
                    db_pre,
                    db_post,
                    now,
                    is_null,
                    UnsolicitedResult::Timeout,
                    step,
                )
            },
        }
    }

    /// What the end of an unsolicited exchange does.
    pub open spec fn unsol_end_post(
        pre: &Self,
        post: &Self,
        db_pre: DatabaseView,
        db_post: DatabaseView,
        now: Moment,
        is_null: bool,
        end: UnsolicitedResult,
        step: UnsolicitedStep,
    ) -> bool {
        let after = crate::outstation::session::idle::spec_unsolicited_after(
            is_null,
            end,
            now,
            pre.config.unsolicited_retry_delay,
        );
        &&& step == (UnsolicitedStep {
            result: Some(end),
            transmit: None,
            retry_at: match after {
                crate::outstation::session::UnsolicitedState::NullRequired => Some(now),
                crate::outstation::session::UnsolicitedState::Ready(at) => at,
            },
        })
        &&& post.wait == WaitState::Idle
        &&& post.unsol_tx_buffer == pre.unsol_tx_buffer
        &&& post.state@ == (SessionStateView { unsolicited: after, ..pre.state@ })
        &&& db_post == if is_null {
            db_pre
        } else if end == UnsolicitedResult::Confirmed {
            db_pre.clear_written()
        } else {
            db_pre.reset()
        }
    }

    /// Takes one step of an unsolicited exchange, given what the wait for
    /// the confirmation brought. When the deadline has passed, the response
    /// is sent again as it was if a repetition is left and no read request
    /// has been put aside in the meantime; else the exchange has failed. An
    /// exchange that is over, confirmed or not, returns the session to the
    /// idle state.
    pub fn unsolicited_series_step(
        &mut self,
        now: Moment,
        result: UnsolicitedWaitResult,
        database: &mut Database,
    ) -> (step: UnsolicitedStep)
        requires
            old(self).wf(),
            old(self).wait is UnsolConfirmWait,
        ensures
            final(self).wf(),
            Self::unsol_step_post(
                old(self),
                final(self),
                old(database)@,
                final(database)@,
                now,
                result,
                step,
            ),
            final(self).wait is Idle || final(self).wait is UnsolConfirmWait,
            final(self).state.restart_iin_asserted == old(self).state.restart_iin_asserted,
    {
        let (response, is_null, retries) = match self.wait {
            WaitState::UnsolConfirmWait { response, is_null, retries, .. } => (
                response,
                is_null,
                retries,
            ),
            _ => {
                return UnsolicitedStep { result: None, transmit: None, retry_at: None };
            },
        };
        match result {
            UnsolicitedWaitResult::ReadNext => UnsolicitedStep {
                result: None,
                transmit: None,
                retry_at: None,
            },
            UnsolicitedWaitResult::Complete(end) => {
                let retry_at = self.unsolicited_done(now, is_null, end, database);
                UnsolicitedStep { result: Some(end), transmit: None, retry_at }
            },
            UnsolicitedWaitResult::Timeout => {
                let mut retries = retries;
                let mut retry = retries.decrement();
                if self.state.deferred_read.is_set() {
                    retry = false;
                }
                self.info.unsolicited_confirm_timeout(response.seq(), retry);
                if !retry {
                    let retry_at = self.unsolicited_done(
                        now,
                        is_null,
                        UnsolicitedResult::Timeout,
                        database,
                    );
                    return UnsolicitedStep {
                        result: Some(UnsolicitedResult::Timeout),
                        transmit: None,
                        retry_at,
                    };
                }
                let len = self.repeat_unsolicited(response);
                self.wait = WaitState::UnsolConfirmWait {
                    response,
                    is_null,
                    retries,
                    deadline: self.new_confirm_deadline(now),
                };
                UnsolicitedStep {
                    result: None,
                    transmit: Some(Transmit::Unsolicited(len)),
                    retry_at: None,
                }
            },
        }
    }
}

} // verus!
