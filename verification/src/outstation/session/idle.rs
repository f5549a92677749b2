use vstd::prelude::*;
use crate::app::control_field::ControlField;
use crate::app::function_code::FunctionCode;
use crate::app::header::{ResponseFunction, ResponseHeader};
use crate::app::iin::{Iin2, Iin};
use crate::app::parse::{HeaderCollection, Request};
use crate::app::sequence::Sequence;
use crate::outstation::config::{Feature, SessionConfig};
use crate::outstation::database::{
    Database,
    DatabaseView,
    ResponseInfo,
    overwrite,
    read_headers,
};
use crate::outstation::select::SelectState;
use crate::outstation::session::requests::{
    empty_reply,
    request_clears_restart,
    spec_broadcast_action,
    spec_iin2_of_error,
};
use crate::outstation::session::{
    FragmentType,
    LastValidRequest,
    OutstationSession,
    Response,
    ResponseSeries,
    RetryCounter,
    SessionStateView,
    Transmit,
    UnsolicitedResult,
    UnsolicitedState,
    WaitState,
    broadcast_after_report,
    spec_classify,
    spec_sent_solicited,
    spec_sent_unsolicited,
};
use crate::outstation::traits::{
    ApplicationIin,
    BroadcastAction,
    ControlHandler,
    OutstationApplication,
    OutstationInformation,
};
use crate::transport::{FragmentInfo, HeaderParseError, TransportRequest, TransportRequestError};
use crate::util::time::Moment;

verus! {

/// The fragment of a read response that holds `len` octets of objects.
pub open spec fn read_reply(info: ResponseInfo, len: int, fir: bool, seq: Sequence, iin2: u8) -> Response {
    Response {
        header: ResponseHeader {
            control: ControlField {
                fir,
                fin: info.complete,
                con: info.spec_need_confirm(),
                uns: false,
                seq,
            },
            function: ResponseFunction::Response,
            iin: Iin::spec_from_iin2(Iin2 { value: iin2 }),
        },
        size: (4 + len) as usize,
    }
}

/// The sequence number that an unreadable fragment still lets the session
/// answer to, if any.
pub open spec fn spec_error_seq(err: TransportRequestError) -> Option<Sequence> {
    match err {
        TransportRequestError::HeaderParseError(HeaderParseError::UnknownFunction(seq, _)) => Some(
            seq,
        ),
        TransportRequestError::HeaderParseError(HeaderParseError::InsufficientBytes) => None,
        TransportRequestError::RequestValidationError(seq, _) => Some(seq),
    }
}

/// The series that a response as sent opens: the one composed with it, or
/// a series of this one fragment when the response asks for a confirmation
/// that no series accounts for.
pub open spec fn series_of(sent: Response, series: Option<ResponseSeries>) -> Option<
    ResponseSeries,
> {
    if sent.header.control.con && series is None {
        Some(ResponseSeries { ecsn: sent.header.control.seq, fin: true })
    } else {
        series
    }
}

/// True when a request taken in the idle state is answered from the
/// record of the request answered last, because it repeats that request:
/// a request other than a read, or one whose objects cannot be read. A
/// read that can be read is answered afresh.
pub open spec fn answered_from_record(
    last: Option<LastValidRequest>,
    info: FragmentInfo,
    request: &Request,
) -> bool {
    match spec_classify(last, info, request) {
        FragmentType::RepeatNonRead(_, _) => true,
        FragmentType::MalformedRequest(hash, _) => {
            &&& last matches Some(l)
            &&& l.seq@ == request.header.control.seq@
            &&& l.request_hash == hash
        },
        _ => false,
    }
}

/// The unsolicited response with the sequence number `seq` that takes
/// `size` octets of the buffer, before the indications are added.
pub open spec fn unsolicited_reply(seq: Sequence, size: int) -> Response {
    Response {
        header: ResponseHeader {
            control: ControlField { fir: true, fin: true, con: true, uns: true, seq },
            function: ResponseFunction::UnsolicitedResponse,
            iin: Iin::spec_from_iin2(Iin2 { value: 0 }),
        },
        size: size as usize,
    }
}

/// Where the session stands with unsolicited responses after an exchange
/// that ended at `now`: a confirmation opens the way for events at once, a
/// failed opening response is owed again, and failed events wait for the
/// retry delay.
pub open spec fn spec_unsolicited_after(
    is_null: bool,
    result: UnsolicitedResult,
    now: Moment,
    retry_delay: crate::util::time::Millis,
) -> UnsolicitedState {
    if result == UnsolicitedResult::Confirmed {
        UnsolicitedState::Ready(None)
    } else if is_null {
        UnsolicitedState::NullRequired
    } else {
        UnsolicitedState::Ready(Some(now.spec_after(retry_delay)))
    }
}

/// What the session does after an idle pass over unsolicited responses.
#[derive(Copy, Clone, Debug, PartialEq, Eq, Structural)]
pub enum UnsolicitedCheck {
    /// nothing was sent; unsolicited responses are due again at the instant
    /// given, or when the database changes if none is given
    Wait(Option<Moment>),
    /// an unsolicited response is to be sent, and its confirmation awaited
    Started(Transmit),
}

impl<A: OutstationApplication, I: OutstationInformation, C: ControlHandler> OutstationSession<
    A,
    I,
    C,
> {
    /// What composing one fragment of a read response does. Neither the
    /// application nor the control handler is involved.
    pub open spec fn read_response_post(
        pre: &Self,
        post: &Self,
        db_pre: DatabaseView,
        db_post: DatabaseView,
        fir: bool,
        seq: Sequence,
        iin2: u8,
        result: (Response, Option<ResponseSeries>),
    ) -> bool {
        let fill = db_pre.write_fragment(pre.sol_tx_buffer@.len() - 4);
        &&& post.keeps_all_but_state_and_sol(pre)
        &&& post.application == pre.application
        &&& post.control_handler == pre.control_handler
        &&& post.state == pre.state
        &&& db_post == fill.database
        &&& post.sol_tx_buffer@ == overwrite(pre.sol_tx_buffer@, 4, fill.bytes)
        &&& result.0 == read_reply(fill.info, fill.bytes.len() as int, fir, seq, iin2)
        &&& result.1 == fill.info.spec_response_series(seq)
    }

    /// What a request does when it is taken from the idle state, and the
    /// record that is made of it. Only a request that is carried out, new or
    /// by broadcast, reaches the application or the control handler.
    pub open spec fn idle_request_post(
        pre: &Self,
        post: &Self,
        db_pre: DatabaseView,
        db_post: DatabaseView,
        now: Moment,
        info: FragmentInfo,
        request: &Request,
        result: Option<LastValidRequest>,
    ) -> bool {
        let seq = request.header.control.seq;
        match spec_classify(pre.state.last_valid_request, info, request) {
            FragmentType::MalformedRequest(hash, err) => {
                &&& post.keeps_all_but_state(pre)
                &&& post.application == pre.application
                &&& post.control_handler == pre.control_handler
                &&& post.state == pre.state
                &&& db_post == db_pre
                &&& result == Some(
                    LastValidRequest {
                        seq,
                        request_hash: hash,
                        response: if answered_from_record(
                            pre.state.last_valid_request,
                            info,
                            request,
                        ) {
                            pre.state.last_valid_request->0.response
                        } else {
                            Some(empty_reply(seq, spec_iin2_of_error(err)))
                        },
                        series: None,
                    },
                )
            },
            FragmentType::NewRead(hash) | FragmentType::RepeatRead(hash, _) => {
                let (selected, iin2) = db_pre.select(read_headers(request.objects->Ok_0.headers@));
                exists|reply: (Response, Option<ResponseSeries>)|
                    {
                        &&& #[trigger] Self::read_response_post(
                            pre,
                            post,
                            selected,
                            db_post,
                            true,
                            seq,
                            iin2,
                            reply,
                        )
                        &&& result == Some(
                            LastValidRequest {
                                seq,
                                request_hash: hash,
                                response: Some(reply.0),
                                series: reply.1,
                            },
                        )
                    }
            },
            FragmentType::NewNonRead(hash) => exists|response: Option<Response>|
                {
                    &&& #[trigger] Self::non_read_post(
                        pre,
                        post,
                        db_pre,
                        db_post,
                        now,
                        request.header.function,
                        seq,
                        info.id,
                        &request.objects->Ok_0,
                        response,
                    )
                    &&& result == Some(
                        LastValidRequest { seq, request_hash: hash, response, series: None },
                    )
                },
            FragmentType::RepeatNonRead(hash, last_response) => {
                &&& post.keeps_all_but_state(pre)
                &&& post.application == pre.application
                &&& post.control_handler == pre.control_handler
                &&& db_post == db_pre
                &&& post.state@ == (SessionStateView {
                    select: match pre.state.select {
                        Some(s) => Some(SelectState { frame_id: info.id, ..s }),
                        None => None,
                    },
                    ..pre.state@
                })
                &&& result == Some(
                    LastValidRequest {
                        seq,
                        request_hash: hash,
                        response: last_response,
                        series: None,
                    },
                )
            },
            FragmentType::Broadcast(mode) => {
                &&& result is None
                &&& post.state.last_broadcast_type == Some(mode)
                &&& post.keeps_all_but_state(pre)
                &&& Self::broadcast_taken(
                    pre,
                    post,
                    db_pre,
                    db_post,
                    now,
                    mode,
                    request,
                    spec_broadcast_action(pre.config.broadcast, request),
                )
            },
            FragmentType::SolicitedConfirm(_) | FragmentType::UnsolicitedConfirm(_) => {
                &&& result is None
                &&& post.keeps_all_but_state(pre)
                &&& post.application == pre.application
                &&& post.control_handler == pre.control_handler
                &&& post.state == pre.state
                &&& db_post == db_pre
            },
        }
    }

    /// What sending the response to a request taken from idle does: the
    /// record of the request is kept with the response as sent, and the
    /// session waits for the confirmation if the response asks for one.
    pub open spec fn reply_post(
        pre: &Self,
        post: &Self,
        db: DatabaseView,
        now: Moment,
        result: LastValidRequest,
        transmit: Option<Transmit>,
    ) -> bool {
        &&& post.config == pre.config
        &&& post.next_link_status == pre.next_link_status
        &&& post.unsol_tx_buffer == pre.unsol_tx_buffer
        &&& post.application == pre.application
        &&& post.control_handler == pre.control_handler
        &&& match result.response {
            None => {
                &&& transmit is None
                &&& post.sol_tx_buffer == pre.sol_tx_buffer
                &&& post.wait == WaitState::Idle
                &&& post.state@ == (SessionStateView {
                    last_valid_request: Some(result),
                    ..pre.state@
                })
            },
            Some(response) => exists|application: ApplicationIin|
                {
                    let sent = #[trigger] spec_sent_solicited(
                        response,
                        pre.state.restart_iin_asserted,
                        db.events_info(),
                        pre.state.last_broadcast_type,
                        application,
                    );
                    let series = series_of(sent, result.series);
                    &&& transmit == Some(
                        Transmit::Solicited(
                            sent.spec_length(pre.sol_tx_buffer@.len() as int) as usize,
                        ),
                    )
                    &&& post.sol_tx_buffer@ == sent.header.spec_written(pre.sol_tx_buffer@)
                    &&& post.state@ == (SessionStateView {
                        last_valid_request: Some(
                            LastValidRequest { response: Some(sent), series, ..result },
                        ),
                        last_broadcast_type: broadcast_after_report(pre.state.last_broadcast_type),
                        ..pre.state@
                    })
                    &&& post.wait == match series {
                        Some(series) => WaitState::SolConfirmWait {
                            series,
                            response: sent,
                            deadline: now.spec_after(pre.config.confirm_timeout),
                        },
                        None => WaitState::Idle,
                    }
                },
        }
    }

    /// Composes one fragment of a read response in the buffer for solicited
    /// responses: the database writes what it has selected after the room
    /// for the header, as far as it fits. The fragment is the last of its
    /// series when the database has nothing left, and asks for a
    /// confirmation when it holds events or when more is to follow. Returns
    /// the response and the series that it opens or continues, if any.
    pub fn write_read_response(
        &mut self,
        database: &mut Database,
        fir: bool,
        seq: Sequence,
        iin2: Iin2,
    ) -> (result: (Response, Option<ResponseSeries>))
        requires
            old(self).wf(),
        ensures
            final(self).wf(),
            Self::read_response_post(
                old(self),
                final(self),
                old(database)@,
                final(database)@,
                fir,
                seq,
                iin2.value,
                result,
            ),
    {
        let (info, end) = database.write_response_headers(&mut self.sol_tx_buffer, 4);
        let header = ResponseHeader::new(
            ControlField::response(seq, fir, info.complete, info.need_confirm()),
            ResponseFunction::Response,
            Iin::from_iin2(iin2),
        );
        (Response::new(header, end), info.get_response_series(seq))
    }

    /// Composes the first fragment of the response to a read request: the
    /// database selects what the request asks for, then writes the fragment.
    pub fn write_first_read_response(
        &mut self,
        database: &mut Database,
        seq: Sequence,
        object_headers: &HeaderCollection,
    ) -> (result: (Response, Option<ResponseSeries>))
        requires
            old(self).wf(),
        ensures
            final(self).wf(),
            ({
                let (selected, iin2) = old(database)@.select(read_headers(object_headers.headers@));
                Self::read_response_post(
                    old(self),
                    final(self),
                    selected,
                    final(database)@,
                    true,
                    seq,
                    iin2,
                    result,
                )
            }),
    {
        let iin2 = database.select(object_headers);
        self.write_read_response(database, true, seq, iin2)
    }

    /// Takes a request in the idle state and returns the record to keep of
    /// it, with the response composed for it. A read is answered afresh,
    /// also when it repeats the one answered last. Any other request that
    /// repeats the one answered last gets the same response again and is not
    /// carried out a second time. A request whose objects could not be read
    /// is answered with the indication of the error, or with the response on
    /// record when it repeats the request answered last. A broadcast is
    /// carried out and leaves no record; a confirmation that nothing awaits
    /// is ignored.
    pub fn process_request_from_idle(
        &mut self,
        now: Moment,
        info: FragmentInfo,
        request: &Request,
        database: &mut Database,
    ) -> (result: Option<LastValidRequest>)
        requires
            old(self).wf(),
        ensures
            final(self).wf(),
            Self::idle_request_post(
                old(self),
                final(self),
                old(database)@,
                final(database)@,
                now,
                info,
                request,
                result,
            ),
            final(self).wait == old(self).wait,
            final(self).config == old(self).config,
            final(self).next_link_status == old(self).next_link_status,
            final(self).unsol_tx_buffer == old(self).unsol_tx_buffer,
            final(self).state.restart_iin_asserted == (old(self).state.restart_iin_asserted
                && !Self::clears_restart_from_idle(old(self), info, request)),
            result is Some ==> result->0.series_matches(),
    {
        self.info.process_request_from_idle(request.header);
        let seq = request.header.control.seq;
        match self.classify(info, request) {
            FragmentType::MalformedRequest(hash, err) => {
                let repeated = match self.state.last_valid_request {
                    Some(last) => if last.seq.same(&seq) && last.request_hash == hash {
                        Some(last.response)
                    } else {
                        None
                    },
                    None => None,
                };
                let response = match repeated {
                    Some(recorded) => recorded,
                    None => Some(
                        Response::empty_solicited(seq, Iin::from_iin2(Iin2::from(err))),
                    ),
                };
                Some(LastValidRequest::new(seq, hash, response, None))
            },
            FragmentType::NewRead(hash) | FragmentType::RepeatRead(hash, _) => {
                match &request.objects {
                    Ok(objects) => {
                        let (response, series) = self.write_first_read_response(
                            database,
                            seq,
                            objects,
                        );
                        proof {
                            let (selected, iin2) = old(database)@.select(
                                read_headers(objects.headers@),
                            );
                            assert(Self::read_response_post(
                                old(self),
                                final(self),
                                selected,
                                final(database)@,
                                true,
                                seq,
                                iin2,
                                (response, series),
                            ));
                        }
                        Some(LastValidRequest::new(seq, hash, Some(response), series))
                    },
                    Err(_) => None,
                }
            },
            FragmentType::NewNonRead(hash) => {
                match &request.objects {
                    Ok(objects) => {
                        let ghost before = *self;
                        let response = self.handle_non_read(
                            now,
                            database,
                            request.header.function,
                            seq,
                            info.id,
                            objects,
                        );
                        proof {
                            Self::lemma_non_read_ignores_observer(
                                old(self),
                                &before,
                                final(self),
                                old(database)@,
                                final(database)@,
                                now,
                                request.header.function,
                                seq,
                                info.id,
                                objects,
                                response,
                            );
                        }
                        Some(LastValidRequest::new(seq, hash, response, None))
                    },
                    Err(_) => None,
                }
            },
            FragmentType::RepeatNonRead(hash, last_response) => {
                match self.state.select {
                    Some(select) => {
                        let mut select = select;
                        select.update_frame_id(info.id);
                        self.state.select = Some(select);
                    },
                    None => {},
                }
                Some(LastValidRequest::new(seq, hash, last_response, None))
            },
            FragmentType::Broadcast(mode) => {
                let ghost before = *self;
                let action = self.process_broadcast(now, database, mode, request);
                proof {
                    Self::lemma_broadcast_taken_ignores_observer(
                        old(self),
                        &before,
                        final(self),
                        old(database)@,
                        final(database)@,
                        now,
                        mode,
                        request,
                        action,
                    );
                }
                None
            },
            FragmentType::SolicitedConfirm(_) => None,
            FragmentType::UnsolicitedConfirm(_) => None,
        }
    }

    /// True when a request taken from idle clears the restart indication: a
    /// write of the internal indications with bit 7 off, new or by broadcast.
    pub open spec fn clears_restart_from_idle(pre: &Self, info: FragmentInfo, request: &Request) -> bool {
        match spec_classify(pre.state.last_valid_request, info, request) {
            FragmentType::NewNonRead(_) => request_clears_restart(
                request.header.function,
                &request.objects->Ok_0,
            ),
            FragmentType::Broadcast(_) => spec_broadcast_action(pre.config.broadcast, request)
                == BroadcastAction::Processed && request_clears_restart(
                request.header.function,
                &request.objects->Ok_0,
            ),
            _ => false,
        }
    }

    /// Sends the response to a request taken from idle and keeps the record
    /// of the request. The session goes on to wait for a confirmation when
    /// the response as sent asks for one: a series of read fragments does,
    /// and so does any response after a broadcast that wants to be confirmed.
    pub fn send_reply(&mut self, now: Moment, result: LastValidRequest, database: &Database) -> (transmit:
        Option<Transmit>)
        requires
            old(self).wf(),
            old(self).wait is Idle,
        ensures
            final(self).wf(),
            Self::reply_post(old(self), final(self), database@, now, result, transmit),
            transmit is Some ==> final(self).last_response_in_buffer(),
            final(self).wait is SolConfirmWait ==> final(self).awaits_recorded(),
            final(self).state.restart_iin_asserted == old(self).state.restart_iin_asserted,
            result.series_matches() ==> Self::emits_one_confirmable(final(self), transmit),
    {
        let mut result = result;
        let mut transmit = None;
        match result.response {
            Some(response) => {
                let (sent, len) = self.write_solicited(response, database);
                proof {
                    let application = choose|application: ApplicationIin|
                        sent == #[trigger] spec_sent_solicited(
                            response,
                            old(self).state.restart_iin_asserted,
                            database@.events_info(),
                            old(self).state.last_broadcast_type,
                            application,
                        );
                    assert(sent == spec_sent_solicited(
                        response,
                        old(self).state.restart_iin_asserted,
                        database@.events_info(),
                        old(self).state.last_broadcast_type,
                        application,
                    ));
                    assert(self.sol_tx_buffer@.subrange(0, 4) =~= sent.header.spec_bytes());
                }
                result.response = Some(sent);
                if sent.header.control.con && result.series.is_none() {
                    result.series = Some(ResponseSeries::new(sent.header.control.seq, true));
                }
                transmit = Some(Transmit::Solicited(len));
                self.state.last_valid_request = Some(result);
                match result.series {
                    Some(series) => {
                        self.info.enter_solicited_confirm_wait(series.ecsn);
                        self.wait = WaitState::SolConfirmWait {
                            series,
                            response: sent,
                            deadline: self.new_confirm_deadline(now),
                        };
                    },
                    None => {},
                }
            },
            None => {
                self.state.last_valid_request = Some(result);
            },
        }
        transmit
    }

    /// What answering a repeated request from its record does: the response
    /// on record goes out as it stands there, with the indications and the
    /// sequence number that it had, and the session waits for a confirmation
    /// if that response asks for one. Where the record holds no response,
    /// none is sent.
    pub open spec fn replay_post(
        pre: &Self,
        post: &Self,
        now: Moment,
        result: LastValidRequest,
        transmit: Option<Transmit>,
    ) -> bool {
        &&& post.config == pre.config
        &&& post.next_link_status == pre.next_link_status
        &&& post.unsol_tx_buffer == pre.unsol_tx_buffer
        &&& post.application == pre.application
        &&& post.control_handler == pre.control_handler
        &&& match result.response {
            None => {
                &&& transmit is None
                &&& post.sol_tx_buffer == pre.sol_tx_buffer
                &&& post.wait == WaitState::Idle
                &&& post.state@ == (SessionStateView {
                    last_valid_request: Some(result),
                    ..pre.state@
                })
            },
            Some(response) => {
                let series = series_of(response, result.series);
                &&& transmit == Some(
                    Transmit::Solicited(
                        response.spec_length(pre.sol_tx_buffer@.len() as int) as usize,
                    ),
                )
                &&& post.sol_tx_buffer@ == response.header.spec_written(pre.sol_tx_buffer@)
                &&& post.state@ == (SessionStateView {
                    last_valid_request: Some(LastValidRequest { series, ..result }),
                    ..pre.state@
                })
                &&& post.wait == match series {
                    Some(series) => WaitState::SolConfirmWait {
                        series,
                        response,
                        deadline: now.spec_after(pre.config.confirm_timeout),
                    },
                    None => WaitState::Idle,
                }
            },
        }
    }

    /// Answers a repeated request from its record: the response on record is
    /// sent once more as it is, and the record is kept. Neither the
    /// indications of the moment nor a broadcast received since go into it.
    /// The session goes on to wait for a confirmation when the response asks
    /// for one.
    pub fn replay(&mut self, now: Moment, result: LastValidRequest) -> (transmit: Option<Transmit>)
        requires
            old(self).wf(),
            old(self).wait is Idle,
        ensures
            final(self).wf(),
            Self::replay_post(old(self), final(self), now, result, transmit),
            transmit is Some ==> final(self).last_response_in_buffer(),
            final(self).wait is SolConfirmWait ==> final(self).awaits_recorded(),
            final(self).state.restart_iin_asserted == old(self).state.restart_iin_asserted,
            result.series_matches() ==> Self::emits_one_confirmable(final(self), transmit),
    {
        let mut result = result;
        let mut transmit = None;
        match result.response {
            Some(response) => {
                let len = self.repeat_solicited(response);
                proof {
                    assert(self.sol_tx_buffer@.subrange(0, 4) =~= response.header.spec_bytes());
                }
                if response.header.control.con && result.series.is_none() {
                    result.series = Some(ResponseSeries::new(response.header.control.seq, true));
                }
                transmit = Some(Transmit::Solicited(len));
                self.state.last_valid_request = Some(result);
                match result.series {
                    Some(series) => {
                        self.info.enter_solicited_confirm_wait(series.ecsn);
                        self.wait = WaitState::SolConfirmWait {
                            series,
                            response,
                            deadline: self.new_confirm_deadline(now),
                        };
                    },
                    None => {},
                }
            },
            None => {
                self.state.last_valid_request = Some(result);
            },
        }
        transmit
    }

    /// What answering a fragment that is no valid request does, and the
    /// response that is sent, if one is.
    pub open spec fn error_post(
        pre: &Self,
        post: &Self,
        db: DatabaseView,
        err: TransportRequestError,
        sent: Option<Response>,
    ) -> bool {
        &&& post.application == pre.application
        &&& post.control_handler == pre.control_handler
        &&& match spec_error_seq(err) {
            None => {
                &&& sent is None
                &&& post.state == pre.state
                &&& post.sol_tx_buffer == pre.sol_tx_buffer
            },
            Some(seq) => exists|application: ApplicationIin|
                {
                    let response = #[trigger] spec_sent_solicited(
                        empty_reply(seq, Iin2::NO_FUNC_CODE_SUPPORT),
                        pre.state.restart_iin_asserted,
                        db.events_info(),
                        pre.state.last_broadcast_type,
                        application,
                    );
                    &&& sent == Some(response)
                    &&& post.sol_tx_buffer@ == response.header.spec_written(pre.sol_tx_buffer@)
                    &&& post.state@ == (SessionStateView {
                        last_broadcast_type: broadcast_after_report(pre.state.last_broadcast_type),
                        ..pre.state@
                    })
                },
        }
    }

    /// Answers a fragment that is no valid request: with an empty response
    /// that raises `NO_FUNC_CODE_SUPPORT` when the sequence number could be
    /// read, not at all otherwise. Returns the response as sent, which takes
    /// the four octets of its header.
    pub fn write_error_response(&mut self, err: TransportRequestError, database: &Database) -> (sent:
        Option<Response>)
        requires
            old(self).wf(),
        ensures
            final(self).wf(),
            final(self).config == old(self).config,
            final(self).wait == old(self).wait,
            final(self).next_link_status == old(self).next_link_status,
            final(self).unsol_tx_buffer == old(self).unsol_tx_buffer,
            Self::error_post(old(self), final(self), database@, err, sent),
    {
        let seq = match err {
            TransportRequestError::HeaderParseError(err) => match err {
                HeaderParseError::UnknownFunction(seq, _) => Some(seq),
                HeaderParseError::InsufficientBytes => None,
            },
            TransportRequestError::RequestValidationError(seq, _) => Some(seq),
        };
        match seq {
            Some(seq) => {
                let iin = Iin::from_iin2(Iin2 { value: Iin2::NO_FUNC_CODE_SUPPORT });
                let (sent, len) = self.write_solicited(Response::empty_solicited(seq, iin), database);
                proof {
                    let application = choose|application: ApplicationIin|
                        sent == #[trigger] spec_sent_solicited(
                            empty_reply(seq, Iin2::NO_FUNC_CODE_SUPPORT),
                            old(self).state.restart_iin_asserted,
                            database@.events_info(),
                            old(self).state.last_broadcast_type,
                            application,
                        );
                    assert(sent == spec_sent_solicited(
                        empty_reply(seq, Iin2::NO_FUNC_CODE_SUPPORT),
                        old(self).state.restart_iin_asserted,
                        database@.events_info(),
                        old(self).state.last_broadcast_type,
                        application,
                    ));
                }
                Some(sent)
            },
            None => None,
        }
    }

    /// The wait that a response to a fragment that is no valid request
    /// starts: one for the confirmation of the response, if the response
    /// asks for one because a broadcast wants to be confirmed.
    pub open spec fn wait_after_error(sent: Option<Response>, now: Moment, config: SessionConfig) -> WaitState {
        match sent {
            Some(response) => if response.header.control.con {
                WaitState::SolConfirmWait {
                    series: ResponseSeries { ecsn: response.header.control.seq, fin: true },
                    response,
                    deadline: now.spec_after(config.confirm_timeout),
                }
            } else {
                WaitState::Idle
            },
            None => WaitState::Idle,
        }
    }

    /// What a request taken in the idle state does, with its answer: the
    /// request is processed, and the response composed for it goes out with
    /// the indications of the moment. A request that repeats the one
    /// answered last, unless it is a read that can be read, is answered from
    /// its record instead.
    pub open spec fn idle_step_post(
        pre: &Self,
        post: &Self,
        db_pre: DatabaseView,
        db_post: DatabaseView,
        now: Moment,
        info: FragmentInfo,
        request: &Request,
        transmit: Option<Transmit>,
    ) -> bool {
        &&& post.next_link_status == pre.spec_link_deadline(now)
        &&& exists|mid: Self, result: Option<LastValidRequest>|
            {
                let start = Self::with_link_status(&mid, pre.spec_link_deadline(now));
                &&& #[trigger] Self::idle_request_post(
                    pre,
                    &mid,
                    db_pre,
                    db_post,
                    now,
                    info,
                    request,
                    result,
                )
                &&& match result {
                    Some(result) => if answered_from_record(
                        pre.state.last_valid_request,
                        info,
                        request,
                    ) {
                        Self::replay_post(&start, post, now, result, transmit)
                    } else {
                        Self::reply_post(&start, post, db_post, now, result, transmit)
                    },
                    None => {
                        &&& transmit is None
                        &&& post.state == mid.state
                        &&& post.wait == WaitState::Idle
                        &&& post.sol_tx_buffer == mid.sol_tx_buffer
                        &&& post.application == mid.application
                        &&& post.control_handler == mid.control_handler
                    },
                }
            }
    }

    /// Takes what the transport layer has in the idle state. A request is
    /// processed and answered; one that repeats the request answered last,
    /// unless it is a read that can be read, has the response on record sent
    /// again as it was. A link-layer message only counts as traffic.
    /// A fragment that is no valid request is answered with an error where
    /// it can be. Whatever the response, the session goes on to wait for
    /// its confirmation where it asks for one. Returns the fragment to put
    /// on the wire, if any.
    pub fn handle_one_request_from_idle(
        &mut self,
        now: Moment,
        request: Option<&TransportRequest>,
        database: &mut Database,
    ) -> (transmit: Option<Transmit>)
        requires
            old(self).wf(),
            old(self).wait is Idle,
        ensures
            final(self).wf(),
            final(self).config == old(self).config,
            final(self).unsol_tx_buffer == old(self).unsol_tx_buffer,
            final(self).wait is Idle || final(self).wait is SolConfirmWait,
            request matches Some(TransportRequest::Request(_, _)) && transmit is Some
                ==> final(self).last_response_in_buffer(),
            request matches Some(TransportRequest::Request(_, _)) && final(self).wait
                is SolConfirmWait ==> final(self).awaits_recorded(),
            match request {
                None => {
                    &&& transmit is None
                    &&& final(self).state == old(self).state
                    &&& final(self).wait == old(self).wait
                    &&& final(self).sol_tx_buffer == old(self).sol_tx_buffer
                    &&& final(self).next_link_status == old(self).next_link_status
                    &&& final(self).application == old(self).application
                    &&& final(self).control_handler == old(self).control_handler
                    &&& final(database)@ == old(database)@
                },
                Some(TransportRequest::LinkLayerMessage(_)) => {
                    &&& transmit is None
                    &&& final(self).state == old(self).state
                    &&& final(self).wait == old(self).wait
                    &&& final(self).sol_tx_buffer == old(self).sol_tx_buffer
                    &&& final(self).next_link_status == old(self).spec_link_deadline(now)
                    &&& final(self).application == old(self).application
                    &&& final(self).control_handler == old(self).control_handler
                    &&& final(database)@ == old(database)@
                },
                Some(TransportRequest::Error(err)) => {
                    &&& final(self).next_link_status == old(self).spec_link_deadline(now)
                    &&& final(database)@ == old(database)@
                    &&& exists|sent: Option<Response>|
                        {
                            &&& #[trigger] Self::error_post(
                                old(self),
                                final(self),
                                old(database)@,
                                *err,
                                sent,
                            )
                            &&& transmit == match sent {
                                Some(_) => Some(Transmit::Solicited(4)),
                                None => None,
                            }
                            &&& final(self).wait == Self::wait_after_error(
                                sent,
                                now,
                                old(self).config,
                            )
                        }
                    &&& final(self).state.restart_iin_asserted
                        == old(self).state.restart_iin_asserted
                },
                Some(TransportRequest::Request(info, request)) => {
                    &&& Self::idle_step_post(
                        old(self),
                        final(self),
                        old(database)@,
                        final(database)@,
                        now,
                        *info,
                        request,
                        transmit,
                    )
                    &&& final(self).state.restart_iin_asserted == (
                    old(self).state.restart_iin_asserted && !Self::clears_restart_from_idle(
                        old(self),
                        *info,
                        request,
                    ))
                    &&& Self::emits_one_confirmable(final(self), transmit)
                },
            },
    {
        match request {
            Some(TransportRequest::Request(info, request)) => {
                let repeated = match self.classify(*info, request) {
                    FragmentType::RepeatNonRead(_, _) => true,
                    FragmentType::MalformedRequest(hash, _) => match self.state.last_valid_request {
                        Some(last) => last.seq.same(&request.header.control.seq)
                            && last.request_hash == hash,
                        None => false,
                    },
                    _ => false,
                };
                let result = self.process_request_from_idle(now, *info, request, database);
                let ghost mid = *self;
                self.on_link_activity(now);
                proof {
                    assert(*self == Self::with_link_status(&mid, old(self).spec_link_deadline(now)));
                }
                match result {
                    Some(result) => if repeated {
                        self.replay(now, result)
                    } else {
                        self.send_reply(now, result, database)
                    },
                    None => None,
                }
            },
            Some(TransportRequest::LinkLayerMessage(_)) => {
                self.on_link_activity(now);
                None
            },
            Some(TransportRequest::Error(err)) => {
                let sent = self.write_error_response(*err, database);
                self.on_link_activity(now);
                match sent {
                    Some(response) => {
                        if response.header.control.con {
                            self.info.enter_solicited_confirm_wait(response.seq());
                            self.wait = WaitState::SolConfirmWait {
                                series: ResponseSeries::new(response.seq(), true),
                                response,
                                deadline: self.new_confirm_deadline(now),
                            };
                        }
                        proof {
                            assert(Self::error_post(
                                old(self),
                                final(self),
                                old(database)@,
                                *err,
                                sent,
                            ));
                        }
                        Some(Transmit::Solicited(4))
                    },
                    None => {
                        proof {
                            assert(Self::error_post(
                                old(self),
                                final(self),
                                old(database)@,
                                *err,
                                sent,
                            ));
                        }
                        None
                    },
                }
            },
            None => None,
        }
    }

    /// The response to a request, where it asks for a confirmation, leaves
    /// the session waiting for that confirmation, and only then does the
    /// session wait: the wait state holds the one solicited fragment that is
    /// outstanding, so there is never a second.
    pub open spec fn emits_one_confirmable(post: &Self, transmit: Option<Transmit>) -> bool {
        match (transmit, post.state.last_valid_request) {
            (Some(Transmit::Solicited(_)), Some(last)) => match last.response {
                Some(sent) => if sent.header.control.con {
                    post.wait matches WaitState::SolConfirmWait { series, response, .. }
                        && series.ecsn == sent.header.control.seq && response == sent
                } else {
                    post.wait is Idle
                },
                None => true,
            },
            _ => post.wait is Idle,
        }
    }

    /// What answering a deferred read does: the database selects what the
    /// read asked for, the first fragment is composed and sent, and the
    /// record of the request is kept, as for a read taken from idle.
    pub open spec fn deferred_read_post(
        pre: &Self,
        post: &Self,
        db_pre: DatabaseView,
        db_post: DatabaseView,
        now: Moment,
        transmit: Option<Transmit>,
    ) -> bool {
        &&& post.application == pre.application
        &&& post.control_handler == pre.control_handler
        &&& match pre.state@.deferred_read.info {
            None => {
                &&& transmit is None
                &&& post.state@ == (SessionStateView {
                    deferred_read: pre.state@.deferred_read.clear(),
                    ..pre.state@
                })
                &&& post.keeps_all_but_state(pre)
                &&& db_post == db_pre
            },
            Some(x) => {
                let (selected, bits) = db_pre.select(pre.state@.deferred_read.headers);
                exists|start: Self, mid: Self, reply: (Response, Option<ResponseSeries>)|
                    {
                        &&& start.keeps_all_but_state(pre)
                        &&& start.state@ == (SessionStateView {
                            deferred_read: pre.state@.deferred_read.clear(),
                            ..pre.state@
                        })
                        &&& #[trigger] Self::read_response_post(
                            &start,
                            &mid,
                            selected,
                            db_post,
                            true,
                            x.seq,
                            x.iin2.value | bits,
                            reply,
                        )
                        &&& Self::reply_post(
                            &mid,
                            post,
                            db_post,
                            now,
                            LastValidRequest {
                                seq: x.seq,
                                request_hash: x.hash,
                                response: Some(reply.0),
                                series: reply.1,
                            },
                            transmit,
                        )
                    }
            },
        }
    }

    /// Answers the read request that was deferred during an unsolicited
    /// exchange, if there is one, and forgets it. The session goes on to wait
    /// for a confirmation where the response asks for one.
    pub fn handle_deferred_read(&mut self, now: Moment, database: &mut Database) -> (transmit:
        Option<Transmit>)
        requires
            old(self).wf(),
            old(self).wait is Idle,
        ensures
            final(self).wf(),
            Self::deferred_read_post(
                old(self),
                final(self),
                old(database)@,
                final(database)@,
                now,
                transmit,
            ),
            final(self).state@.deferred_read.info is None,
            final(self).state.restart_iin_asserted == old(self).state.restart_iin_asserted,
            final(self).wait is Idle || final(self).wait is SolConfirmWait,
            transmit is Some ==> final(self).last_response_in_buffer(),
            final(self).wait is SolConfirmWait ==> final(self).awaits_recorded(),
            Self::emits_one_confirmable(final(self), transmit) || transmit is None,
    {
        match self.state.deferred_read.select(database) {
            Some(x) => {
                let ghost start = *self;
                let (response, series) = self.write_read_response(database, true, x.seq, x.iin2);
                let ghost mid = *self;
                let result = LastValidRequest::new(x.seq, x.hash, Some(response), series);
                let transmit = self.send_reply(now, result, database);
                proof {
                    let (selected, bits) = old(database)@.select(
                        old(self).state@.deferred_read.headers,
                    );
                    assert(Self::read_response_post(
                        &start,
                        &mid,
                        selected,
                        database@,
                        true,
                        x.seq,
                        x.iin2.value,
                        (response, series),
                    ));
                }
                transmit
            },
            None => None,
        }
    }

    /// Decides whether the link is to be tested now: it is when a keep-alive
    /// time is configured and the instant for the next test has come. The
    /// next test then moves one keep-alive time on. Returns whether the
    /// session's owner is to send a link status request.
    pub fn check_link_status(&mut self, now: Moment) -> (send: bool)
        ensures
            send == match old(self).next_link_status {
                Some(next) => next.millis <= now.millis,
                None => false,
            },
            final(self).next_link_status == if send {
                old(self).spec_link_deadline(now)
            } else {
                old(self).next_link_status
            },
            final(self).state == old(self).state,
            final(self).wait == old(self).wait,
            final(self).config == old(self).config,
            final(self).sol_tx_buffer == old(self).sol_tx_buffer,
            final(self).unsol_tx_buffer == old(self).unsol_tx_buffer,
            final(self).application == old(self).application,
            final(self).control_handler == old(self).control_handler,
    {
        match self.next_link_status {
            Some(next) => {
                if now.is_before(next) {
                    return false;
                }
                self.on_link_activity(now);
                true
            },
            None => false,
        }
    }

    /// The instant at which the idle session is to be woken: the earlier of
    /// the instant at which unsolicited responses are due and the instant of
    /// the next test of the link, where there are such.
    pub fn idle_deadline(&self, unsolicited: Option<Moment>) -> (deadline: Option<Moment>)
        ensures
            deadline == match (unsolicited, self.next_link_status) {
                (Some(a), Some(b)) => Some(Moment::spec_earliest(a, b)),
                (Some(a), None) => Some(a),
                (None, link) => link,
            },
    {
        match unsolicited {
            Some(deadline) => match self.next_link_status {
                Some(link_deadline) => Some(Moment::earliest(deadline, link_deadline)),
                None => Some(deadline),
            },
            None => self.next_link_status,
        }
    }

    /// What composing an unsolicited fragment with events does.
    pub open spec fn unsolicited_data_post(
        pre: &Self,
        post: &Self,
        db_pre: DatabaseView,
        db_post: DatabaseView,
        result: Option<Response>,
    ) -> bool {
        let fill = db_pre.write_unsolicited(
            pre.state.enabled_unsolicited_classes,
            pre.unsol_tx_buffer@.len() - 4,
        );
        &&& post.application == pre.application
        &&& post.control_handler == pre.control_handler
        &&& post.config == pre.config
        &&& post.wait == pre.wait
        &&& post.next_link_status == pre.next_link_status
        &&& post.sol_tx_buffer == pre.sol_tx_buffer
        &&& post.unsol_tx_buffer@ == overwrite(pre.unsol_tx_buffer@, 4, fill.bytes)
        &&& db_post == (DatabaseView { events: fill.events, ..db_pre })
        &&& if fill.count > 0 {
            &&& result == Some(
                unsolicited_reply(pre.state.unsolicited_seq, 4 + fill.bytes.len() as int),
            )
            &&& post.state@ == (SessionStateView {
                unsolicited_seq: Sequence::successor(pre.state@.unsolicited_seq),
                ..pre.state@
            })
        } else {
            &&& result is None
            &&& post.state == pre.state
        }
    }

    /// What sending an unsolicited response does: the session waits for its
    /// confirmation, with as many repetitions in hand as configuration
    /// allows, and none for the empty response that opens a session.
    pub open spec fn unsolicited_begin_post(
        pre: &Self,
        post: &Self,
        db: DatabaseView,
        now: Moment,
        response: Response,
        is_null: bool,
        transmit: Transmit,
    ) -> bool {
        &&& post.application == pre.application
        &&& post.control_handler == pre.control_handler
        &&& post.config == pre.config
        &&& post.next_link_status == pre.next_link_status
        &&& post.sol_tx_buffer == pre.sol_tx_buffer
        &&& exists|application: ApplicationIin|
            {
                let sent = #[trigger] spec_sent_unsolicited(
                    response,
                    pre.state.restart_iin_asserted,
                    db.events_info(),
                    pre.state.last_broadcast_type,
                    application,
                );
                &&& transmit == Transmit::Unsolicited(
                    sent.spec_length(pre.unsol_tx_buffer@.len() as int) as usize,
                )
                &&& post.unsol_tx_buffer@ == sent.header.spec_written(pre.unsol_tx_buffer@)
                &&& post.state@ == (SessionStateView {
                    last_broadcast_type: broadcast_after_report(pre.state.last_broadcast_type),
                    ..pre.state@
                })
                &&& post.wait == WaitState::UnsolConfirmWait {
                    response: sent,
                    is_null,
                    retries: RetryCounter {
                        retries: if is_null {
                            Some(0usize)
                        } else {
                            pre.config.max_unsolicited_retries
                        },
                    },
                    deadline: now.spec_after(pre.config.confirm_timeout),
                }
            }
    }

    /// Composes an unsolicited fragment with the events of the enabled
    /// classes that the database holds, as far as they fit, in the buffer for
    /// unsolicited responses. Without an event to report there is no
    /// fragment, and the sequence number for unsolicited responses stays.
    pub fn write_unsolicited_data(&mut self, database: &mut Database) -> (result: Option<Response>)
        requires
            old(self).wf(),
        ensures
            final(self).wf(),
            Self::unsolicited_data_post(
                old(self),
                final(self),
                old(database)@,
                final(database)@,
                result,
            ),
    {
        let (count, end) = database.write_unsolicited(
            self.state.enabled_unsolicited_classes,
            &mut self.unsol_tx_buffer,
            4,
        );
        if count == 0 {
            return None;
        }
        let seq = self.state.unsolicited_seq.increment();
        let header = ResponseHeader::new(
            ControlField::unsolicited_response(seq),
            ResponseFunction::UnsolicitedResponse,
            Iin::from_iin2(Iin2 { value: 0 }),
        );
        Some(Response::new(header, end))
    }

    /// Sends an unsolicited response and starts the wait for its
    /// confirmation. The empty response that opens a session is never
    /// repeated as it is; any other is repeated as often as configuration
    /// allows.
    pub fn perform_unsolicited_response_series(
        &mut self,
        now: Moment,
        response: Response,
        is_null: bool,
        database: &Database,
    ) -> (transmit: Transmit)
        requires
            old(self).wf(),
            old(self).wait is Idle,
        ensures
            final(self).wf(),
            Self::unsolicited_begin_post(
                old(self),
                final(self),
                database@,
                now,
                response,
                is_null,
                transmit,
            ),
            final(self).wait is UnsolConfirmWait,
            final(self).state.restart_iin_asserted == old(self).state.restart_iin_asserted,
    {
        let (sent, len) = self.write_unsolicited(response, database);
        proof {
            let application = choose|application: ApplicationIin|
                sent == #[trigger] spec_sent_unsolicited(
                    response,
                    old(self).state.restart_iin_asserted,
                    database@.events_info(),
                    old(self).state.last_broadcast_type,
                    application,
                );
            assert(sent == spec_sent_unsolicited(
                response,
                old(self).state.restart_iin_asserted,
                database@.events_info(),
                old(self).state.last_broadcast_type,
                application,
            ));
        }
        self.info.enter_unsolicited_confirm_wait(sent.seq());
        let retries = if is_null {
            RetryCounter::new(Some(0))
        } else {
            RetryCounter::new(self.config.max_unsolicited_retries)
        };
        self.wait = WaitState::UnsolConfirmWait {
            response: sent,
            is_null,
            retries,
            deadline: self.new_confirm_deadline(now),
        };
        Transmit::Unsolicited(len)
    }

    /// What sending the empty unsolicited response that opens a session
    /// does: the response takes the next sequence number for unsolicited
    /// responses and is sent as any unsolicited response is, but without
    /// repetitions in hand.
    pub open spec fn null_unsolicited_post(
        pre: &Self,
        post: &Self,
        db: DatabaseView,
        now: Moment,
        transmit: Transmit,
    ) -> bool {
        &&& post.application == pre.application
        &&& post.control_handler == pre.control_handler
        &&& exists|mid: Self|
            {
                &&& mid.keeps_all_but_state(pre)
                &&& mid.state@ == (SessionStateView {
                    unsolicited_seq: Sequence::successor(pre.state@.unsolicited_seq),
                    ..pre.state@
                })
                &&& #[trigger] Self::unsolicited_begin_post(
                    &mid,
                    post,
                    db,
                    now,
                    unsolicited_reply(pre.state.unsolicited_seq, 0),
                    true,
                    transmit,
                )
            }
    }

    /// Sends the empty unsolicited response that opens a session and starts
    /// the wait for its confirmation.
    pub fn perform_null_unsolicited(&mut self, now: Moment, database: &Database) -> (transmit:
        Transmit)
        requires
            old(self).wf(),
            old(self).wait is Idle,
        ensures
            final(self).wf(),
            final(self).wait is UnsolConfirmWait,
            final(self).state.restart_iin_asserted == old(self).state.restart_iin_asserted,
            Self::null_unsolicited_post(old(self), final(self), database@, now, transmit),
    {
        let header = ResponseHeader::new(
            ControlField::unsolicited_response(self.state.unsolicited_seq.increment()),
            ResponseFunction::UnsolicitedResponse,
            Iin::from_iin2(Iin2 { value: 0 }),
        );
        let ghost mid = *self;
        let transmit = self.perform_unsolicited_response_series(
            now,
            Response::new(header, 0),
            true,
            database,
        );
        proof {
            assert(Self::unsolicited_begin_post(
                &mid,
                final(self),
                database@,
                now,
                unsolicited_reply(old(self).state.unsolicited_seq, 0),
                true,
                transmit,
            ));
        }
        transmit
    }

    /// Reports the events of the enabled classes unsolicited, if any class
    /// is enabled and the database holds an event of one: the response is
    /// sent and the wait for its confirmation starts.
    pub fn maybe_perform_unsolicited(&mut self, now: Moment, database: &mut Database) -> (transmit:
        Option<Transmit>)
        requires
            old(self).wf(),
            old(self).wait is Idle,
        ensures
            final(self).wf(),
            final(self).state.restart_iin_asserted == old(self).state.restart_iin_asserted,
            Self::maybe_unsolicited_post(
                old(self),
                final(self),
                old(database)@,
                final(database)@,
                now,
                transmit,
            ),
    {
        if !self.state.enabled_unsolicited_classes.any() {
            return None;
        }
        match self.write_unsolicited_data(database) {
            None => None,
            Some(response) => {
                let ghost mid = *self;
                let transmit = self.perform_unsolicited_response_series(
                    now,
                    response,
                    false,
                    database,
                );
                proof {
                    assert(Self::unsolicited_data_post(
                        old(self),
                        &mid,
                        old(database)@,
                        database@,
                        Some(response),
                    ));
                    assert(Self::unsolicited_begin_post(
                        &mid,
                        final(self),
                        database@,
                        now,
                        response,
                        false,
                        transmit,
                    ));
                }
                Some(transmit)
            },
        }
    }

    /// What an attempt to report events unsolicited does.
    pub open spec fn maybe_unsolicited_post(
        pre: &Self,
        post: &Self,
        db_pre: DatabaseView,
        db_post: DatabaseView,
        now: Moment,
        transmit: Option<Transmit>,
    ) -> bool {
        let classes = pre.state.enabled_unsolicited_classes;
        &&& post.application == pre.application
        &&& post.control_handler == pre.control_handler
        &&& if !(classes.class1 || classes.class2 || classes.class3) {
            &&& transmit is None
            &&& post.state == pre.state
            &&& post.keeps_all_but_state(pre)
            &&& db_post == db_pre
        } else {
            let fill = db_pre.write_unsolicited(classes, pre.unsol_tx_buffer@.len() - 4);
            if fill.count > 0 {
                &&& transmit is Some
                &&& post.wait is UnsolConfirmWait
                &&& exists|mid: Self, response: Response|
                    {
                        &&& #[trigger] Self::unsolicited_data_post(
                            pre,
                            &mid,
                            db_pre,
                            db_post,
                            Some(response),
                        )
                        &&& Self::unsolicited_begin_post(
                            &mid,
                            post,
                            db_post,
                            now,
                            response,
                            false,
                            transmit->0,
                        )
                    }
            } else {
                &&& transmit is None
                &&& post.wait == pre.wait
                &&& Self::unsolicited_data_post(pre, post, db_pre, db_post, None)
            }
        }
    }

    /// Looks after unsolicited responses in the idle state. Nothing happens
    /// when they are disabled by configuration. The empty response that opens
    /// a session is sent while it is owed. After that, events are reported:
    /// not before the instant that a failed attempt has set, and only when
    /// there is something to report. Returns the fragment to put on the
    /// wire, with the session then waiting for its confirmation, or the
    /// instant at which to look again.
    pub fn check_unsolicited(&mut self, now: Moment, database: &mut Database) -> (check:
        UnsolicitedCheck)
        requires
            old(self).wf(),
            old(self).wait is Idle,
        ensures
            final(self).wf(),
            final(self).state.restart_iin_asserted == old(self).state.restart_iin_asserted,
            check is Started <==> final(self).wait is UnsolConfirmWait,
            check is Wait ==> final(self).wait is Idle,
            if old(self).config.unsolicited == Feature::Disabled {
                &&& check == UnsolicitedCheck::Wait(None)
                &&& final(self).state == old(self).state
                &&& final(self).keeps_all_but_state(old(self))
                &&& final(database)@ == old(database)@
            } else {
                match old(self).state.unsolicited {
                    UnsolicitedState::NullRequired => {
                        &&& check matches UnsolicitedCheck::Started(transmit)
                        &&& Self::null_unsolicited_post(
                            old(self),
                            final(self),
                            old(database)@,
                            now,
                            transmit,
                        )
                        &&& final(database)@ == old(database)@
                    },
                    UnsolicitedState::Ready(deadline) => if deadline is Some && now.millis
                        < deadline->0.millis {
                        &&& check == UnsolicitedCheck::Wait(deadline)
                        &&& final(self).state == old(self).state
                        &&& final(self).keeps_all_but_state(old(self))
                        &&& final(database)@ == old(database)@
                    } else {
                        &&& match check {
                            UnsolicitedCheck::Started(t) => Self::maybe_unsolicited_post(
                                old(self),
                                final(self),
                                old(database)@,
                                final(database)@,
                                now,
                                Some(t),
                            ),
                            UnsolicitedCheck::Wait(d) => d is None && Self::maybe_unsolicited_post(
                                old(self),
                                final(self),
                                old(database)@,
                                final(database)@,
                                now,
                                None,
                            ),
                        }
                    },
                }
            },
    {
        if self.config.unsolicited.is_disabled() {
            return UnsolicitedCheck::Wait(None);
        }
        match self.state.unsolicited {
            UnsolicitedState::NullRequired => {
                let transmit = self.perform_null_unsolicited(now, database);
                UnsolicitedCheck::Started(transmit)
            },
            UnsolicitedState::Ready(deadline) => {
                if let Some(deadline) = deadline {
                    if now.is_before(deadline) {
                        return UnsolicitedCheck::Wait(Some(deadline));
                    }
                }
                match self.maybe_perform_unsolicited(now, database) {
                    None => UnsolicitedCheck::Wait(None),
                    Some(transmit) => UnsolicitedCheck::Started(transmit),
                }
            },
        }
    }

    /// Draws the consequences of an unsolicited exchange that is over, and
    /// returns to the idle state. A confirmed response has reported its
    /// events, which leave the database; the opening response, confirmed,
    /// opens the way for events. An exchange that failed keeps its events
    /// for another attempt: after the retry delay for events, at once for
    /// the opening response. Returns the instant of the next attempt, if one
    /// is set.
    pub fn unsolicited_done(
        &mut self,
        now: Moment,
        is_null: bool,
        result: UnsolicitedResult,
        database: &mut Database,
    ) -> (retry_at: Option<Moment>)
        ensures
            final(self).wait == WaitState::Idle,
            final(self).config == old(self).config,
            final(self).next_link_status == old(self).next_link_status,
            final(self).sol_tx_buffer == old(self).sol_tx_buffer,
            final(self).unsol_tx_buffer == old(self).unsol_tx_buffer,
            final(self).application == old(self).application,
            final(self).control_handler == old(self).control_handler,
            final(self).state@ == (SessionStateView {
                unsolicited: spec_unsolicited_after(
                    is_null,
                    result,
                    now,
                    old(self).config.unsolicited_retry_delay,
                ),
                ..old(self).state@
            }),
            retry_at == match spec_unsolicited_after(
                is_null,
                result,
                now,
                old(self).config.unsolicited_retry_delay,
            ) {
                UnsolicitedState::NullRequired => Some(now),
                UnsolicitedState::Ready(at) => at,
            },
            final(database)@ == if is_null {
                old(database)@
            } else if result == UnsolicitedResult::Confirmed {
                old(database)@.clear_written()
            } else {
                old(database)@.reset()
            },
    {
        self.wait = WaitState::Idle;
        let confirmed = match result {
            UnsolicitedResult::Confirmed => true,
            _ => false,
        };
        if is_null {
            if confirmed {
                self.state.unsolicited = UnsolicitedState::Ready(None);
                None
            } else {
                self.state.unsolicited = UnsolicitedState::NullRequired;
                Some(now)
            }
        } else {
            if confirmed {
                database.clear_written_events();
                self.state.unsolicited = UnsolicitedState::Ready(None);
                None
            } else {
                database.reset();
                let retry_at = self.new_unsolicited_retry_deadline(now);
                self.state.unsolicited = UnsolicitedState::Ready(Some(retry_at));
                Some(retry_at)
            }
        }
    }

    /// What a request other than a read does is the same for two sessions
    /// that differ in their observer alone.
    pub proof fn lemma_non_read_ignores_observer(
        a: &Self,
        b: &Self,
        post: &Self,
        db_pre: DatabaseView,
        db_post: DatabaseView,
        now: Moment,
        function: FunctionCode,
        seq: Sequence,
        frame_id: u32,
        headers: &HeaderCollection,
        result: Option<Response>,
    )
        requires
            Self::non_read_post(
                b,
                post,
                db_pre,
                db_post,
                now,
                function,
                seq,
                frame_id,
                headers,
                result,
            ),
            a.state == b.state,
            a.config == b.config,
            a.wait == b.wait,
            a.next_link_status == b.next_link_status,
            a.sol_tx_buffer == b.sol_tx_buffer,
            a.unsol_tx_buffer == b.unsol_tx_buffer,
            a.control_handler == b.control_handler,
            a.application == b.application,
        ensures
            Self::non_read_post(
                a,
                post,
                db_pre,
                db_post,
                now,
                function,
                seq,
                frame_id,
                headers,
                result,
            ),
    {
        let response = choose|response: Option<Response>|
            {
                &&& #[trigger] Self::handler_post(
                    b,
                    post,
                    db_pre,
                    db_post,
                    now,
                    function,
                    seq,
                    frame_id,
                    headers,
                    response,
                )
                &&& result == match response {
                    Some(r) => Some(
                        crate::outstation::session::requests::with_more_iin2(
                            r,
                            crate::outstation::session::requests::spec_get_iin2(function, headers),
                        ),
                    ),
                    None => None,
                }
            };
        assert(Self::handler_post(
            a,
            post,
            db_pre,
            db_post,
            now,
            function,
            seq,
            frame_id,
            headers,
            response,
        )) by {
            if function == FunctionCode::ColdRestart || function == FunctionCode::WarmRestart {
                let delay = choose|delay: Option<crate::outstation::traits::RestartDelay>| #[trigger]
                    Self::restart_post(b, post, seq, delay, response->0);
                assert(Self::restart_post(a, post, seq, delay, response->0));
            }
        }
    }

    /// `s` with another instant for the next test of the link.
    pub open spec fn with_link_status(s: &Self, next_link_status: Option<Moment>) -> Self {
        OutstationSession {
            sol_tx_buffer: s.sol_tx_buffer,
            unsol_tx_buffer: s.unsol_tx_buffer,
            config: s.config,
            state: s.state,
            wait: s.wait,
            application: s.application,
            info: s.info,
            control_handler: s.control_handler,
            next_link_status,
        }
    }
}

} // verus!
