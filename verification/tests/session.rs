use dnp3::app::function_code::FunctionCode;
use dnp3::app::header::RequestHeader;
use dnp3::app::iin::{Iin1, Iin2};
use dnp3::app::parser::{parse_request, parse_response};
use dnp3::app::sequence::Sequence;
use dnp3::app::timestamp::Timestamp;
use dnp3::link::address::{BroadcastConfirmMode, EndpointAddress};
use dnp3::master::restart::{RestartTask, RestartType};
use dnp3::outstation::config::{
    BufferSize, Feature, OutstationConfig, SessionConfig, SessionParameters,
};
use dnp3::outstation::control::{CommandStatus, Control};
use dnp3::outstation::database::{Database, EventClass, EventClasses};
use dnp3::outstation::session::confirm::{SolicitedWait, UnsolicitedStep, UnsolicitedWait};
use dnp3::outstation::session::idle::UnsolicitedCheck;
use dnp3::outstation::session::{
    Confirm, ConfigurationChange, ConfirmAction, FragmentType, OutstationSession, Timeout,
    Transmit, UnsolicitedResult, UnsolicitedState, UnsolicitedWaitResult, WaitState,
};
use dnp3::outstation::config::DecodeLevel;
use dnp3::outstation::traits::{
    ApplicationIin, BroadcastAction, ControlHandler, FreezeIndices, FreezeResult, FreezeType,
    OperateType, OutstationApplication, OutstationInformation, RestartDelay, WriteTimeResult,
};
use dnp3::transport::{
    FragmentInfo, HeaderParseError, LinkLayerMessage, RequestValidationError, TransportRequest,
    TransportRequestError,
};
use dnp3::util::clock::Clock;
use dnp3::util::time::{Millis, Moment};

struct App {
    restart: Option<RestartDelay>,
    processing_delay: u16,
    iin: ApplicationIin,
    time_answer: WriteTimeResult,
    times: Vec<u64>,
    freezes: Vec<(FreezeIndices, FreezeType)>,
    freeze_answer: FreezeResult,
}

impl App {
    fn new() -> Self {
        App {
            restart: None,
            processing_delay: 0,
            iin: ApplicationIin {
                need_time: false,
                local_control: false,
                device_trouble: false,
                config_corrupt: false,
            },
            time_answer: WriteTimeResult::Accepted,
            times: Vec::new(),
            freezes: Vec::new(),
            freeze_answer: FreezeResult::Success,
        }
    }
}

impl OutstationApplication for App {
    fn get_processing_delay_ms(&self) -> u16 {
        self.processing_delay
    }
    fn write_absolute_time(&mut self, time: Timestamp) -> WriteTimeResult {
        self.times.push(time.raw_value());
        self.time_answer
    }
    fn get_application_iin(&self) -> ApplicationIin {
        self.iin
    }
    fn cold_restart(&mut self) -> Option<RestartDelay> {
        self.restart
    }
    fn warm_restart(&mut self) -> Option<RestartDelay> {
        self.restart
    }
    fn freeze_counter(
        &mut self,
        indices: FreezeIndices,
        freeze_type: FreezeType,
        _database: &mut Database,
    ) -> FreezeResult {
        self.freezes.push((indices, freeze_type));
        self.freeze_answer
    }
}

#[derive(Default)]
struct Info {
    broadcasts: Vec<(FunctionCode, BroadcastAction)>,
    restart_cleared: usize,
    wrong_confirms: usize,
    unsolicited_timeouts: Vec<bool>,
}

impl OutstationInformation for Info {
    fn process_request_from_idle(&mut self, _header: RequestHeader) {}
    fn broadcast_received(&mut self, function: FunctionCode, action: BroadcastAction) {
        self.broadcasts.push((function, action));
    }
    fn enter_solicited_confirm_wait(&mut self, _ecsn: Sequence) {}
    fn solicited_confirm_timeout(&mut self, _ecsn: Sequence) {}
    fn solicited_confirm_received(&mut self, _ecsn: Sequence) {}
    fn solicited_confirm_wait_new_request(&mut self) {}
    fn wrong_solicited_confirm_seq(&mut self, _ecsn: Sequence, _seq: Sequence) {
        self.wrong_confirms += 1;
    }
    fn unexpected_confirm(&mut self, _unsolicited: bool, _seq: Sequence) {}
    fn enter_unsolicited_confirm_wait(&mut self, _ecsn: Sequence) {}
    fn unsolicited_confirm_timeout(&mut self, _ecsn: Sequence, retry: bool) {
        self.unsolicited_timeouts.push(retry);
    }
    fn unsolicited_confirmed(&mut self, _ecsn: Sequence) {}
    fn clear_restart_iin(&mut self) {
        self.restart_cleared += 1;
    }
}

struct Handler {
    begun: usize,
    ended: usize,
    selected: Vec<(Control, u16)>,
    operated: Vec<(Control, u16, OperateType)>,
    select_answer: CommandStatus,
    operate_answer: CommandStatus,
}

impl Handler {
    fn new() -> Self {
        Handler {
            begun: 0,
            ended: 0,
            selected: Vec::new(),
            operated: Vec::new(),
            select_answer: CommandStatus::Success,
            operate_answer: CommandStatus::Success,
        }
    }
}

impl ControlHandler for Handler {
    fn begin_fragment(&mut self) {
        self.begun += 1;
    }
    fn end_fragment(&mut self) {
        self.ended += 1;
    }
    fn select(&mut self, control: Control, index: u16, _database: &mut Database) -> CommandStatus {
        self.selected.push((control, index));
        self.select_answer
    }
    fn operate(
        &mut self,
        control: Control,
        index: u16,
        op_type: OperateType,
        _database: &mut Database,
    ) -> CommandStatus {
        self.operated.push((control, index, op_type));
        self.operate_answer
    }
}

type Session = OutstationSession<App, Info, Handler>;

fn test_config() -> OutstationConfig {
    let mut config = OutstationConfig::new(
        EndpointAddress::from(1024).unwrap(),
        EndpointAddress::from(1).unwrap(),
    );
    config.solicited_buffer_size = BufferSize::min();
    config.unsolicited_buffer_size = BufferSize::min();
    config.confirm_timeout = Millis::from_millis(1000);
    config.select_timeout = Millis::from_millis(2000);
    config.unsolicited_retry_delay = Millis::from_millis(3000);
    config.keep_alive_timeout = Some(Millis::from_millis(60000));
    config
}

fn session_with(config: OutstationConfig, app: App) -> Session {
    OutstationSession::new_at(
        SessionConfig::from(config),
        SessionParameters::from(config),
        app,
        Info::default(),
        Handler::new(),
        Moment::from_millis(0),
    )
}

fn new_session() -> Session {
    session_with(test_config(), App::new())
}

fn at(millis: u64) -> Moment {
    Moment::from_millis(millis)
}

fn request(id: u32, octets: &[u8]) -> TransportRequest {
    TransportRequest::Request(FragmentInfo::new(id, None), parse_request(octets).unwrap())
}

fn broadcast(id: u32, mode: BroadcastConfirmMode, octets: &[u8]) -> TransportRequest {
    TransportRequest::Request(
        FragmentInfo::new(id, Some(mode)),
        parse_request(octets).unwrap(),
    )
}

fn sent(session: &Session, transmit: Option<Transmit>) -> Vec<u8> {
    match transmit {
        Some(Transmit::Solicited(len)) => session.solicited_fragment(len),
        Some(Transmit::Unsolicited(len)) => session.unsolicited_fragment(len),
        None => panic!("nothing was sent"),
    }
}

const CROB: [u8; 11] = [0x03, 1, 0x64, 0, 0, 0, 0xC8, 0, 0, 0, 0];

fn control_request(seq: u8, function: u8, index: u8) -> Vec<u8> {
    let mut octets = vec![0xC0 | seq, function, 12, 1, 0x17, 1, index];
    octets.extend_from_slice(&CROB);
    octets
}

/// Brings a fresh session past the empty unsolicited response that opens it.
fn open(session: &mut Session, db: &mut Database) {
    let check = session.check_unsolicited(at(0), db);
    assert!(matches!(check, UnsolicitedCheck::Started(_)));
    let confirm = request(1000, &[0xD0, 0x00]);
    let step = session.wait_for_unsolicited_confirm(at(1), Timeout::No, Some(&confirm), db);
    assert_eq!(
        step.result,
        UnsolicitedWaitResult::Complete(UnsolicitedResult::Confirmed)
    );
    let step = session.unsolicited_series_step(at(1), step.result, db);
    assert_eq!(step.result, Some(UnsolicitedResult::Confirmed));
    assert!(session.is_idle());
}

#[test]
fn new_session_starts_idle_with_restart_asserted() {
    let session = new_session();
    assert!(session.is_idle());
    assert!(session.state.restart_iin_asserted);
    assert_eq!(session.state.enabled_unsolicited_classes, EventClasses::none());
    assert!(session.state.last_valid_request.is_none());
    assert!(session.state.select.is_none());
    assert_eq!(session.state.unsolicited, UnsolicitedState::NullRequired);
    assert_eq!(session.state.unsolicited_seq, Sequence::new(0));
    assert!(!session.state.deferred_read.is_set());
    assert_eq!(session.sol_tx_buffer.len(), 249);
    assert_eq!(session.unsol_tx_buffer.len(), 249);
    assert_eq!(session.next_link_status, Some(at(60000)));
    assert_eq!(session.wait_deadline(), None);
}

#[test]
fn cold_restart_round_trip() {
    let mut app = App::new();
    app.restart = Some(RestartDelay::Seconds(2));
    let mut session = session_with(test_config(), app);
    let mut db = Database::new(10);

    let transmit =
        session.handle_one_request_from_idle(at(5), Some(&request(0, &[0xC0, 13])), &mut db);
    assert_eq!(transmit, Some(Transmit::Solicited(10)));
    let octets = sent(&session, transmit);
    assert_eq!(octets, vec![0xC0, 129, 0x80, 0x00, 52, 1, 0x07, 1, 2, 0]);
    assert!(session.is_idle());

    let response = parse_response(&octets).unwrap();
    let task = RestartTask::new(RestartType::ColdRestart);
    assert_eq!(task.handle(&response), Ok(Millis::from_secs(2)));
}

#[test]
fn warm_restart_in_milliseconds_and_unsupported_restart() {
    let mut app = App::new();
    app.restart = Some(RestartDelay::Milliseconds(700));
    let mut session = session_with(test_config(), app);
    let mut db = Database::new(10);
    let transmit =
        session.handle_one_request_from_idle(at(5), Some(&request(0, &[0xC2, 14])), &mut db);
    assert_eq!(
        sent(&session, transmit),
        vec![0xC2, 129, 0x80, 0x00, 52, 2, 0x07, 1, 0xBC, 0x02]
    );

    let mut session = new_session();
    let transmit =
        session.handle_one_request_from_idle(at(5), Some(&request(0, &[0xC3, 13])), &mut db);
    assert_eq!(
        sent(&session, transmit),
        vec![0xC3, 129, 0x80, Iin2::NO_FUNC_CODE_SUPPORT]
    );
}

#[test]
fn restart_with_objects_raises_parameter_error() {
    let mut app = App::new();
    app.restart = Some(RestartDelay::Seconds(1));
    let mut session = session_with(test_config(), app);
    let mut db = Database::new(10);
    let transmit = session.handle_one_request_from_idle(
        at(5),
        Some(&request(0, &[0xC0, 13, 60, 1, 0x06])),
        &mut db,
    );
    let octets = sent(&session, transmit);
    assert_eq!(octets[3], Iin2::PARAMETER_ERROR);
    assert_eq!(&octets[4..], &[52, 1, 0x07, 1, 1, 0]);
}

#[test]
fn delay_measure_reports_processing_delay() {
    let mut app = App::new();
    app.processing_delay = 0x0102;
    let mut session = session_with(test_config(), app);
    let mut db = Database::new(10);
    let transmit =
        session.handle_one_request_from_idle(at(5), Some(&request(0, &[0xC7, 23])), &mut db);
    assert_eq!(
        sent(&session, transmit),
        vec![0xC7, 129, 0x80, 0x00, 52, 2, 0x07, 1, 0x02, 0x01]
    );
}

#[test]
fn unsupported_function_is_answered_with_no_func_code_support() {
    let mut session = new_session();
    let mut db = Database::new(10);
    // ASSIGN_CLASS
    let transmit = session.handle_one_request_from_idle(
        at(5),
        Some(&request(0, &[0xC1, 22, 60, 2, 0x06])),
        &mut db,
    );
    assert_eq!(
        sent(&session, transmit),
        vec![0xC1, 129, 0x80, Iin2::NO_FUNC_CODE_SUPPORT]
    );
}

#[test]
fn duplicate_read_in_confirm_wait_echoes_first_fragment() {
    let mut session = new_session();
    let mut db = Database::new(10);
    db.push_static(vec![1; 100]);
    db.push_static(vec![2; 100]);
    db.push_static(vec![3; 100]);

    let read = request(0, &[0xC3, 1, 60, 1, 0x06]);
    let transmit = session.handle_one_request_from_idle(at(10), Some(&read), &mut db);
    assert_eq!(transmit, Some(Transmit::Solicited(204)));
    let first = sent(&session, transmit);
    assert_eq!(&first[..4], &[0xA3, 129, 0x80, 0x00]);
    assert_eq!(&first[4..104], &[1u8; 100][..]);
    assert_eq!(&first[104..], &[2u8; 100][..]);
    assert_eq!(session.wait_deadline(), Some(at(1010)));
    match session.wait {
        WaitState::SolConfirmWait { series, .. } => {
            assert_eq!(series.ecsn, Sequence::new(3));
            assert!(!series.fin);
        }
        _ => panic!("the session does not wait for a confirmation"),
    }

    // the same read again, before the confirmation
    let again = request(1, &[0xC3, 1, 60, 1, 0x06]);
    let step = session.wait_for_sol_confirm(at(500), Timeout::No, Some(&again));
    assert_eq!(
        step,
        SolicitedWait {
            confirm: None,
            transmit: Some(Transmit::Solicited(204))
        }
    );
    assert_eq!(sent(&session, step.transmit), first);
    assert_eq!(session.wait_deadline(), Some(at(1500)));

    // the confirmation brings the rest
    let confirm = request(2, &[0xC3, 0]);
    let step = session.wait_for_sol_confirm(at(600), Timeout::No, Some(&confirm));
    assert_eq!(
        step,
        SolicitedWait {
            confirm: Some(Confirm::Yes),
            transmit: None
        }
    );
    let transmit = session.sol_confirm_wait(at(600), Confirm::Yes, &mut db);
    assert_eq!(transmit, Some(Transmit::Solicited(104)));
    let second = sent(&session, transmit);
    assert_eq!(&second[..4], &[0x44, 129, 0x80, 0x00]);
    assert_eq!(&second[4..], &[3u8; 100][..]);
    assert!(session.is_idle());
}

#[test]
fn repeated_read_from_idle_is_answered_afresh() {
    let mut session = new_session();
    let mut db = Database::new(10);
    db.push_static(vec![9; 10]);
    let read = request(0, &[0xC3, 1, 60, 1, 0x06]);
    let transmit = session.handle_one_request_from_idle(at(10), Some(&read), &mut db);
    let first = sent(&session, transmit);
    assert!(session.is_idle());
    db.push_static(vec![8; 10]);
    let again = request(1, &[0xC3, 1, 60, 1, 0x06]);
    assert_eq!(
        session.classify(FragmentInfo::new(1, None), match &again {
            TransportRequest::Request(_, r) => r,
            _ => unreachable!(),
        }),
        FragmentType::RepeatRead(
            session.state.last_valid_request.unwrap().request_hash,
            session.state.last_valid_request.unwrap().response
        )
    );
    let transmit = session.handle_one_request_from_idle(at(20), Some(&again), &mut db);
    let second = sent(&session, transmit);
    assert_eq!(first.len(), 14);
    assert_eq!(second.len(), 24);
}

#[test]
fn repeated_non_read_from_idle_is_not_carried_out_again() {
    let mut app = App::new();
    app.time_answer = WriteTimeResult::Accepted;
    let mut session = session_with(test_config(), app);
    let mut db = Database::new(10);
    let write = [0xC2, 2, 50, 1, 0x07, 1, 1, 2, 3, 4, 5, 6];
    let transmit = session.handle_one_request_from_idle(at(10), Some(&request(0, &write)), &mut db);
    let first = sent(&session, transmit);
    assert_eq!(session.application.times, vec![0x0605_0403_0201]);
    let transmit = session.handle_one_request_from_idle(at(20), Some(&request(1, &write)), &mut db);
    assert_eq!(sent(&session, transmit), first);
    assert_eq!(session.application.times.len(), 1);
}

#[test]
fn select_operate_mismatch_gives_no_select() {
    let mut session = new_session();
    let mut db = Database::new(10);

    let select = request(0, &control_request(1, 3, 0));
    let transmit = session.handle_one_request_from_idle(at(10), Some(&select), &mut db);
    let octets = sent(&session, transmit);
    assert_eq!(&octets[..4], &[0xC1, 129, 0x80, 0x00]);
    assert_eq!(&octets[4..7], &[12, 1, 0x17]);
    assert_eq!(octets[octets.len() - 1], 0);
    assert_eq!(session.control_handler.selected.len(), 1);
    assert!(session.state.select.is_some());

    // the same control at another index
    let operate = request(1, &control_request(2, 4, 1));
    let transmit = session.handle_one_request_from_idle(at(20), Some(&operate), &mut db);
    let octets = sent(&session, transmit);
    assert_eq!(&octets[..4], &[0xC2, 129, 0x80, 0x00]);
    assert_eq!(&octets[4..9], &[12, 1, 0x17, 1, 1]);
    assert_eq!(&octets[9..19], &CROB[..10]);
    assert_eq!(octets[19], 2);
    assert_eq!(octets.len(), 20);
    assert!(session.control_handler.operated.is_empty());
}

#[test]
fn operate_uses_up_its_select() {
    let mut session = new_session();
    let mut db = Database::new(10);

    let select = request(0, &control_request(1, 3, 0));
    session.handle_one_request_from_idle(at(10), Some(&select), &mut db);
    let operate = request(1, &control_request(2, 4, 0));
    let transmit = session.handle_one_request_from_idle(at(20), Some(&operate), &mut db);
    let octets = sent(&session, transmit);
    assert_eq!(octets[19], 0);
    assert_eq!(session.control_handler.operated.len(), 1);
    assert_eq!(
        session.control_handler.operated[0].2,
        OperateType::SelectBeforeOperate
    );
    assert_eq!(session.control_handler.operated[0].1, 0);
    assert_eq!(session.control_handler.begun, 2);
    assert_eq!(session.control_handler.ended, 2);
    assert!(session.state.select.is_none());

    // a second operate with the following sequence number and fragment
    let operate = request(2, &control_request(3, 4, 0));
    let transmit = session.handle_one_request_from_idle(at(30), Some(&operate), &mut db);
    let octets = sent(&session, transmit);
    assert_eq!(octets[19], 2);
    assert_eq!(session.control_handler.operated.len(), 1);
}

#[test]
fn operate_after_select_timeout_gives_timeout() {
    let mut session = new_session();
    let mut db = Database::new(10);
    let select = request(0, &control_request(1, 3, 0));
    session.handle_one_request_from_idle(at(10), Some(&select), &mut db);
    let operate = request(1, &control_request(2, 4, 0));
    let transmit = session.handle_one_request_from_idle(at(2011), Some(&operate), &mut db);
    assert_eq!(sent(&session, transmit)[19], 1);
    assert!(session.control_handler.operated.is_empty());

    // exactly at the limit the operate still matches
    let mut session = new_session();
    let select = request(0, &control_request(1, 3, 0));
    session.handle_one_request_from_idle(at(10), Some(&select), &mut db);
    let operate = request(1, &control_request(2, 4, 0));
    let transmit = session.handle_one_request_from_idle(at(2010), Some(&operate), &mut db);
    assert_eq!(sent(&session, transmit)[19], 0);
    assert_eq!(session.control_handler.operated.len(), 1);
}

#[test]
fn operate_needs_following_sequence_and_fragment() {
    let mut db = Database::new(10);
    // a gap in the sequence numbers
    let mut session = new_session();
    session.handle_one_request_from_idle(at(10), Some(&request(0, &control_request(1, 3, 0))), &mut db);
    let transmit = session.handle_one_request_from_idle(
        at(20),
        Some(&request(1, &control_request(3, 4, 0))),
        &mut db,
    );
    assert_eq!(sent(&session, transmit)[19], 2);
    // a fragment in between
    let mut session = new_session();
    session.handle_one_request_from_idle(at(10), Some(&request(0, &control_request(1, 3, 0))), &mut db);
    let transmit = session.handle_one_request_from_idle(
        at(20),
        Some(&request(2, &control_request(2, 4, 0))),
        &mut db,
    );
    assert_eq!(sent(&session, transmit)[19], 2);
    // without any select
    let mut session = new_session();
    let transmit = session.handle_one_request_from_idle(
        at(20),
        Some(&request(0, &control_request(2, 4, 0))),
        &mut db,
    );
    assert_eq!(sent(&session, transmit)[19], 2);
    assert!(session.control_handler.operated.is_empty());
}

#[test]
fn direct_operate_and_control_limit() {
    let mut config = test_config();
    config.max_controls_per_request = Some(1);
    let mut session = session_with(config, App::new());
    let mut db = Database::new(10);
    // two controls in one header
    let mut octets = vec![0xC4, 5, 12, 1, 0x17, 2, 0];
    octets.extend_from_slice(&CROB);
    octets.push(1);
    octets.extend_from_slice(&CROB);
    let transmit = session.handle_one_request_from_idle(at(10), Some(&request(0, &octets)), &mut db);
    let reply = sent(&session, transmit);
    assert_eq!(reply.len(), 4 + 4 + 12 + 12);
    assert_eq!(reply[3], Iin2::PARAMETER_ERROR);
    assert_eq!(reply[19], 0);
    assert_eq!(reply[31], 4);
    assert_eq!(session.control_handler.operated.len(), 1);
    assert_eq!(session.control_handler.operated[0].2, OperateType::DirectOperate);
    assert_eq!((session.control_handler.begun, session.control_handler.ended), (1, 1));

    // without a response
    let mut session = new_session();
    let mut octets = vec![0xC4, 6, 12, 1, 0x17, 1, 7];
    octets.extend_from_slice(&CROB);
    let transmit = session.handle_one_request_from_idle(at(10), Some(&request(0, &octets)), &mut db);
    assert_eq!(transmit, None);
    assert_eq!(session.control_handler.operated.len(), 1);
    assert_eq!(session.control_handler.operated[0].1, 7);
    assert_eq!(
        session.control_handler.operated[0].2,
        OperateType::DirectOperateNoAck
    );
    assert!(session.state.last_valid_request.unwrap().response.is_none());
}

#[test]
fn control_request_with_other_objects_raises_parameter_error() {
    let mut session = new_session();
    let mut db = Database::new(10);
    for function in [3u8, 4, 5] {
        let transmit = session.handle_one_request_from_idle(
            at(10),
            Some(&request(function as u32, &[0xC0 | function, function, 60, 1, 0x06])),
            &mut db,
        );
        assert_eq!(
            sent(&session, transmit),
            vec![0xC0 | function, 129, 0x80, Iin2::PARAMETER_ERROR]
        );
    }
    assert!(session.control_handler.selected.is_empty());
    assert!(session.control_handler.operated.is_empty());
    assert_eq!(session.control_handler.begun, 0);
}

#[test]
fn handler_status_not_supported_raises_parameter_error() {
    let mut session = new_session();
    session.control_handler.select_answer = CommandStatus::NotSupported;
    let mut db = Database::new(10);
    let transmit = session.handle_one_request_from_idle(
        at(10),
        Some(&request(0, &control_request(1, 3, 0))),
        &mut db,
    );
    let octets = sent(&session, transmit);
    assert_eq!(octets[3], Iin2::PARAMETER_ERROR);
    assert_eq!(octets[19], 4);
    assert!(session.state.select.is_none());
}

#[test]
fn broadcast_write_clears_restart_and_is_reported_once() {
    let mut session = new_session();
    let mut db = Database::new(10);

    let write = broadcast(
        0,
        BroadcastConfirmMode::Mandatory,
        &[0xC0, 2, 80, 1, 0x00, 7, 7, 0x00],
    );
    let transmit = session.handle_one_request_from_idle(at(10), Some(&write), &mut db);
    assert_eq!(transmit, None);
    assert!(!session.state.restart_iin_asserted);
    assert!(session.state.last_valid_request.is_none());
    assert_eq!(
        session.state.last_broadcast_type,
        Some(BroadcastConfirmMode::Mandatory)
    );
    assert_eq!(
        session.info.broadcasts,
        vec![(FunctionCode::Write, BroadcastAction::Processed)]
    );
    assert_eq!(session.info.restart_cleared, 1);
    assert!(session.is_idle());

    // the next response reports the broadcast and asks to be confirmed
    let transmit =
        session.handle_one_request_from_idle(at(20), Some(&request(1, &[0xC1, 23])), &mut db);
    let octets = sent(&session, transmit);
    assert_eq!(&octets[..4], &[0xE1, 129, Iin1::BROADCAST, 0x00]);
    assert!(!session.is_idle());
    let confirm = request(2, &[0xC1, 0]);
    let step = session.wait_for_sol_confirm(at(30), Timeout::No, Some(&confirm));
    assert_eq!(step.confirm, Some(Confirm::Yes));
    assert_eq!(session.sol_confirm_wait(at(30), Confirm::Yes, &mut db), None);
    assert!(session.is_idle());
    assert_eq!(session.state.last_broadcast_type, None);

    // and the one after that does not
    let transmit =
        session.handle_one_request_from_idle(at(40), Some(&request(3, &[0xC2, 23])), &mut db);
    let octets = sent(&session, transmit);
    assert_eq!(&octets[..4], &[0xC2, 129, 0x00, 0x00]);
}

#[test]
fn optional_broadcast_is_reported_once_without_confirmation() {
    let mut session = new_session();
    let mut db = Database::new(10);
    let record = broadcast(0, BroadcastConfirmMode::Optional, &[0xC0, 24]);
    assert_eq!(
        session.handle_one_request_from_idle(at(10), Some(&record), &mut db),
        None
    );
    assert_eq!(session.state.last_recorded_time, Some(at(10)));
    let transmit =
        session.handle_one_request_from_idle(at(20), Some(&request(1, &[0xC1, 23])), &mut db);
    assert_eq!(
        &sent(&session, transmit)[..4],
        &[0xC1, 129, Iin1::RESTART | Iin1::BROADCAST, 0x00]
    );
    assert!(session.is_idle());
    let transmit =
        session.handle_one_request_from_idle(at(30), Some(&request(2, &[0xC2, 23])), &mut db);
    assert_eq!(&sent(&session, transmit)[..4], &[0xC2, 129, Iin1::RESTART, 0x00]);
}

#[test]
fn broadcast_that_is_not_carried_out() {
    let mut db = Database::new(10);
    // a function that may not be broadcast
    let mut session = new_session();
    let read = broadcast(0, BroadcastConfirmMode::Optional, &[0xC0, 1, 60, 1, 0x06]);
    assert_eq!(
        session.handle_one_request_from_idle(at(10), Some(&read), &mut db),
        None
    );
    assert_eq!(
        session.info.broadcasts,
        vec![(
            FunctionCode::Read,
            BroadcastAction::UnsupportedFunction(FunctionCode::Read)
        )]
    );
    // objects that cannot be read
    let bad = broadcast(1, BroadcastConfirmMode::Optional, &[0xC0, 2, 80, 1, 0x00, 7]);
    session.handle_one_request_from_idle(at(10), Some(&bad), &mut db);
    assert_eq!(
        session.info.broadcasts[1],
        (FunctionCode::Write, BroadcastAction::BadObjectHeaders)
    );
    assert!(session.state.restart_iin_asserted);
    // broadcast disabled
    let mut config = test_config();
    config.features.broadcast = Feature::Disabled;
    let mut session = session_with(config, App::new());
    let write = broadcast(
        0,
        BroadcastConfirmMode::Optional,
        &[0xC0, 2, 80, 1, 0x00, 7, 7, 0x00],
    );
    session.handle_one_request_from_idle(at(10), Some(&write), &mut db);
    assert_eq!(
        session.info.broadcasts,
        vec![(FunctionCode::Write, BroadcastAction::IgnoredByConfiguration)]
    );
    assert!(session.state.restart_iin_asserted);
    assert_eq!(
        session.state.last_broadcast_type,
        Some(BroadcastConfirmMode::Optional)
    );
}

#[test]
fn restart_indication_stays_until_written_off() {
    let mut session = new_session();
    let mut db = Database::new(10);
    let requests: Vec<Vec<u8>> = vec![
        vec![0xC0, 1, 60, 1, 0x06],
        vec![0xC1, 23],
        vec![0xC2, 24],
        vec![0xC3, 20, 60, 2, 0x06],
        // bit 7 on: refused
        vec![0xC4, 2, 80, 1, 0x00, 7, 7, 0x01],
        // bit 4 off: refused
        vec![0xC5, 2, 80, 1, 0x00, 4, 4, 0x00],
        vec![0xC6, 2, 50, 1, 0x07, 1, 0, 0, 0, 0, 0, 0],
    ];
    for (id, octets) in requests.iter().enumerate() {
        let transmit =
            session.handle_one_request_from_idle(at(10), Some(&request(id as u32, octets)), &mut db);
        let reply = sent(&session, transmit);
        assert_eq!(reply[2] & Iin1::RESTART, Iin1::RESTART);
        assert!(session.state.restart_iin_asserted);
        if octets[1] == 2 && octets[2] == 80 {
            assert_eq!(reply[3], Iin2::PARAMETER_ERROR);
        }
    }
    // bits 6 and 7 off: bit 7 is cleared, bit 6 is refused
    let transmit = session.handle_one_request_from_idle(
        at(10),
        Some(&request(20, &[0xC7, 2, 80, 1, 0x00, 6, 7, 0x00])),
        &mut db,
    );
    let reply = sent(&session, transmit);
    assert_eq!(&reply[..], &[0xC7, 129, 0x00, Iin2::PARAMETER_ERROR]);
    assert!(!session.state.restart_iin_asserted);
    assert_eq!(session.info.restart_cleared, 1);
}

#[test]
fn write_requests() {
    let mut db = Database::new(10);
    // without objects
    let mut session = new_session();
    let transmit = session.handle_one_request_from_idle(at(1), Some(&request(0, &[0xC0, 2])), &mut db);
    assert_eq!(sent(&session, transmit), vec![0xC0, 129, 0x80, 0x00]);
    // an object that cannot be written
    let transmit = session.handle_one_request_from_idle(
        at(1),
        Some(&request(1, &[0xC1, 2, 52, 1, 0x07, 1, 0, 0])),
        &mut db,
    );
    assert_eq!(
        sent(&session, transmit),
        vec![0xC1, 129, 0x80, Iin2::NO_FUNC_CODE_SUPPORT]
    );
    // two times in one header
    let transmit = session.handle_one_request_from_idle(
        at(1),
        Some(&request(2, &[0xC2, 2, 50, 1, 0x07, 2, 1, 0, 0, 0, 0, 0, 2, 0, 0, 0, 0, 0])),
        &mut db,
    );
    assert_eq!(sent(&session, transmit)[3], Iin2::PARAMETER_ERROR);
    assert!(session.application.times.is_empty());
    // what the application answers
    for (answer, bits) in [
        (WriteTimeResult::Accepted, 0u8),
        (WriteTimeResult::InvalidValue, Iin2::PARAMETER_ERROR),
        (WriteTimeResult::NotSupported, Iin2::NO_FUNC_CODE_SUPPORT),
    ] {
        let mut app = App::new();
        app.time_answer = answer;
        let mut session = session_with(test_config(), app);
        let transmit = session.handle_one_request_from_idle(
            at(1),
            Some(&request(0, &[0xC3, 2, 50, 1, 0x07, 1, 0x10, 0x27, 0, 0, 0, 0])),
            &mut db,
        );
        assert_eq!(sent(&session, transmit), vec![0xC3, 129, 0x80, bits]);
        assert_eq!(session.application.times, vec![10000]);
    }
}

#[test]
fn write_relative_to_recorded_time() {
    let mut db = Database::new(10);
    let write = [0xC1, 2, 50, 3, 0x07, 1, 0xE8, 0x03, 0, 0, 0, 0];
    // without a recorded time
    let mut session = new_session();
    let transmit = session.handle_one_request_from_idle(at(50), Some(&request(0, &write)), &mut db);
    assert_eq!(sent(&session, transmit)[3], Iin2::PARAMETER_ERROR);
    assert!(session.application.times.is_empty());

    // with one
    let mut session = new_session();
    let transmit =
        session.handle_one_request_from_idle(at(100), Some(&request(0, &[0xC0, 24])), &mut db);
    assert_eq!(sent(&session, transmit), vec![0xC0, 129, 0x80, 0x00]);
    assert_eq!(session.state.last_recorded_time, Some(at(100)));
    let transmit = session.handle_one_request_from_idle(at(130), Some(&request(1, &write)), &mut db);
    assert_eq!(sent(&session, transmit), vec![0xC1, 129, 0x80, 0x00]);
    assert_eq!(session.application.times, vec![1030]);
    assert_eq!(session.state.last_recorded_time, None);

    // the record is used up
    let again = [0xC2, 2, 50, 3, 0x07, 1, 0xE8, 0x03, 0, 0, 0, 0];
    let transmit = session.handle_one_request_from_idle(at(140), Some(&request(2, &again)), &mut db);
    assert_eq!(sent(&session, transmit)[3], Iin2::PARAMETER_ERROR);
    assert_eq!(session.application.times.len(), 1);

    // a sum beyond 48 bits
    let mut session = new_session();
    session.handle_one_request_from_idle(at(100), Some(&request(0, &[0xC0, 24])), &mut db);
    let late = [0xC1, 2, 50, 3, 0x07, 1, 0xFF, 0xFF, 0xFF, 0xFF, 0xFF, 0xFF];
    let transmit = session.handle_one_request_from_idle(at(101), Some(&request(1, &late)), &mut db);
    assert_eq!(sent(&session, transmit)[3], Iin2::PARAMETER_ERROR);
    assert_eq!(session.state.last_recorded_time, Some(at(100)));

    // a clock that ran backwards
    let mut session = new_session();
    session.handle_one_request_from_idle(at(100), Some(&request(0, &[0xC0, 24])), &mut db);
    let transmit = session.handle_one_request_from_idle(at(99), Some(&request(1, &write)), &mut db);
    assert_eq!(sent(&session, transmit)[3], Iin2::PARAMETER_ERROR);
}

#[test]
fn enable_and_disable_unsolicited() {
    let mut session = new_session();
    let mut db = Database::new(10);
    let transmit = session.handle_one_request_from_idle(
        at(1),
        Some(&request(0, &[0xC0, 20, 60, 2, 0x06, 60, 4, 0x06])),
        &mut db,
    );
    assert_eq!(sent(&session, transmit), vec![0xC0, 129, 0x80, 0x00]);
    assert_eq!(
        session.state.enabled_unsolicited_classes,
        EventClasses::new(true, false, true)
    );
    // class 0 cannot be enabled
    let transmit = session.handle_one_request_from_idle(
        at(1),
        Some(&request(1, &[0xC1, 21, 60, 1, 0x06, 60, 2, 0x06])),
        &mut db,
    );
    assert_eq!(
        sent(&session, transmit),
        vec![0xC1, 129, 0x80, Iin2::NO_FUNC_CODE_SUPPORT]
    );
    assert_eq!(
        session.state.enabled_unsolicited_classes,
        EventClasses::new(false, false, true)
    );
    // disabled by configuration
    let mut config = test_config();
    config.features.unsolicited = Feature::Disabled;
    let mut session = session_with(config, App::new());
    let transmit = session.handle_one_request_from_idle(
        at(1),
        Some(&request(0, &[0xC0, 20, 60, 2, 0x06])),
        &mut db,
    );
    assert_eq!(
        sent(&session, transmit),
        vec![0xC0, 129, 0x80, Iin2::NO_FUNC_CODE_SUPPORT]
    );
    assert_eq!(session.state.enabled_unsolicited_classes, EventClasses::none());
    assert_eq!(
        session.check_unsolicited(at(2), &mut db),
        UnsolicitedCheck::Wait(None)
    );
}

#[test]
fn freeze_requests() {
    let mut session = new_session();
    let mut db = Database::new(10);
    let transmit = session.handle_one_request_from_idle(
        at(1),
        Some(&request(
            0,
            &[0xC0, 7, 20, 0, 0x06, 20, 0, 0x00, 2, 5, 20, 0, 0x01, 1, 0, 0, 1],
        )),
        &mut db,
    );
    assert_eq!(sent(&session, transmit), vec![0xC0, 129, 0x80, 0x00]);
    assert_eq!(
        session.application.freezes,
        vec![
            (FreezeIndices::All, FreezeType::ImmediateFreeze),
            (FreezeIndices::Range(2, 5), FreezeType::ImmediateFreeze),
            (FreezeIndices::Range(1, 256), FreezeType::ImmediateFreeze),
        ]
    );
    // freeze and clear, without response
    let transmit = session.handle_one_request_from_idle(
        at(1),
        Some(&request(1, &[0xC1, 10, 20, 0, 0x06])),
        &mut db,
    );
    assert_eq!(transmit, None);
    assert_eq!(
        session.application.freezes[3],
        (FreezeIndices::All, FreezeType::FreezeAndClear)
    );
    // something that is no counter, and an application that refuses
    session.application.freeze_answer = FreezeResult::ParameterError;
    let transmit = session.handle_one_request_from_idle(
        at(1),
        Some(&request(2, &[0xC2, 9, 60, 2, 0x06, 20, 0, 0x06])),
        &mut db,
    );
    assert_eq!(
        sent(&session, transmit),
        vec![
            0xC2,
            129,
            0x80,
            Iin2::NO_FUNC_CODE_SUPPORT | Iin2::PARAMETER_ERROR
        ]
    );
}

#[test]
fn malformed_request_is_answered_with_its_error() {
    let mut db = Database::new(10);
    for (octets, bits) in [
        (vec![0xC0u8, 1, 60], Iin2::PARAMETER_ERROR),
        (vec![0xC0, 1, 99, 1, 0x06], Iin2::OBJECT_UNKNOWN),
        (vec![0xC0, 1, 60, 1, 0x07, 1], Iin2::NO_FUNC_CODE_SUPPORT),
        (vec![0xC0, 1, 80, 1, 0x00, 7, 6], Iin2::PARAMETER_ERROR),
        (vec![0xC0, 1, 60, 1, 0x5B], Iin2::PARAMETER_ERROR),
        (vec![0xC0, 1, 60, 1, 0x99], Iin2::PARAMETER_ERROR),
    ] {
        let mut session = new_session();
        let transmit =
            session.handle_one_request_from_idle(at(1), Some(&request(0, &octets)), &mut db);
        assert_eq!(sent(&session, transmit), vec![0xC0, 129, 0x80, bits]);
        // the record is kept, so the same octets again are a repetition
        assert!(session.state.last_valid_request.is_some());
    }
}

#[test]
fn fragments_that_are_no_requests() {
    let mut session = new_session();
    let mut db = Database::new(10);
    let error = TransportRequest::Error(TransportRequestError::HeaderParseError(
        HeaderParseError::UnknownFunction(Sequence::new(6), 99),
    ));
    let transmit = session.handle_one_request_from_idle(at(7), Some(&error), &mut db);
    assert_eq!(
        sent(&session, transmit),
        vec![0xC6, 129, 0x80, Iin2::NO_FUNC_CODE_SUPPORT]
    );
    assert_eq!(session.next_link_status, Some(at(60007)));
    assert!(session.state.last_valid_request.is_none());

    let error = TransportRequest::Error(TransportRequestError::RequestValidationError(
        Sequence::new(2),
        RequestValidationError::NonFirFin,
    ));
    let transmit = session.handle_one_request_from_idle(at(8), Some(&error), &mut db);
    assert_eq!(
        sent(&session, transmit),
        vec![0xC2, 129, 0x80, Iin2::NO_FUNC_CODE_SUPPORT]
    );

    let error = TransportRequest::Error(TransportRequestError::HeaderParseError(
        HeaderParseError::InsufficientBytes,
    ));
    assert_eq!(
        session.handle_one_request_from_idle(at(9), Some(&error), &mut db),
        None
    );

    let message = TransportRequest::LinkLayerMessage(LinkLayerMessage::LinkStatusResponse);
    assert_eq!(
        session.handle_one_request_from_idle(at(10), Some(&message), &mut db),
        None
    );
    assert_eq!(session.next_link_status, Some(at(60010)));
    assert_eq!(session.handle_one_request_from_idle(at(11), None, &mut db), None);
    assert_eq!(session.next_link_status, Some(at(60010)));

    // confirmations that nothing awaits
    assert_eq!(
        session.handle_one_request_from_idle(at(12), Some(&request(0, &[0xC0, 0])), &mut db),
        None
    );
    assert_eq!(
        session.handle_one_request_from_idle(at(12), Some(&request(1, &[0xD0, 0])), &mut db),
        None
    );
    assert!(session.state.last_valid_request.is_none());
}

#[test]
fn application_indications_are_added() {
    let mut app = App::new();
    app.iin = ApplicationIin {
        need_time: true,
        local_control: true,
        device_trouble: true,
        config_corrupt: true,
    };
    let mut session = session_with(test_config(), app);
    let mut db = Database::new(2);
    db.push_event(EventClass::Class1, vec![1]);
    db.push_event(EventClass::Class3, vec![3]);
    db.push_event(EventClass::Class3, vec![3]);
    let transmit =
        session.handle_one_request_from_idle(at(1), Some(&request(0, &[0xC0, 23])), &mut db);
    let octets = sent(&session, transmit);
    assert_eq!(
        octets[2],
        Iin1::RESTART
            | Iin1::CLASS_3_EVENTS
            | Iin1::NEED_TIME
            | Iin1::LOCAL_CONTROL
            | Iin1::DEVICE_TROUBLE
    );
    assert_eq!(octets[3], Iin2::EVENT_BUFFER_OVERFLOW | Iin2::CONFIG_CORRUPT);
}

#[test]
fn wrong_confirm_leaves_wait_and_deadline() {
    let mut session = new_session();
    let mut db = Database::new(10);
    db.push_event(EventClass::Class1, vec![0xAA, 0xBB]);
    let read = request(0, &[0xC3, 1, 60, 2, 0x06]);
    let transmit = session.handle_one_request_from_idle(at(10), Some(&read), &mut db);
    assert_eq!(sent(&session, transmit), vec![0xE3, 129, 0x80, 0x00, 0xAA, 0xBB]);
    let wait = session.wait;
    assert_eq!(session.wait_deadline(), Some(at(1010)));

    for octets in [[0xC4u8, 0], [0xC2, 0], [0xD3, 0]] {
        let confirm = request(1, &octets);
        let step = session.wait_for_sol_confirm(at(500), Timeout::No, Some(&confirm));
        assert_eq!(
            step,
            SolicitedWait {
                confirm: None,
                transmit: None
            }
        );
        assert_eq!(session.wait, wait);
    }
    assert_eq!(session.info.wrong_confirms, 2);
    let message = TransportRequest::LinkLayerMessage(LinkLayerMessage::LinkStatusRequest);
    let step = session.wait_for_sol_confirm(at(600), Timeout::No, Some(&message));
    assert_eq!(step.confirm, None);
    assert_eq!(session.wait, wait);
    let step = session.wait_for_sol_confirm(at(700), Timeout::No, None);
    assert_eq!(step.confirm, None);
    assert_eq!(session.wait, wait);

    // the right one ends the wait and frees the event
    let confirm = request(2, &[0xC3, 0]);
    let step = session.wait_for_sol_confirm(at(800), Timeout::No, Some(&confirm));
    assert_eq!(step.confirm, Some(Confirm::Yes));
    assert_eq!(db.num_events(), 1);
    assert_eq!(session.sol_confirm_wait(at(800), Confirm::Yes, &mut db), None);
    assert_eq!(db.num_events(), 0);
    assert!(session.is_idle());
}

#[test]
fn confirm_timeout_keeps_events_for_the_next_read() {
    let mut session = new_session();
    let mut db = Database::new(10);
    db.push_event(EventClass::Class2, vec![0x11]);
    let read = request(0, &[0xC3, 1, 60, 3, 0x06]);
    let transmit = session.handle_one_request_from_idle(at(10), Some(&read), &mut db);
    let first = sent(&session, transmit);
    assert_eq!(first, vec![0xE3, 129, 0x80, 0x00, 0x11]);
    let step = session.wait_for_sol_confirm(at(1010), Timeout::Yes, None);
    assert_eq!(
        step,
        SolicitedWait {
            confirm: Some(Confirm::Timeout),
            transmit: None
        }
    );
    assert_eq!(session.sol_confirm_wait(at(1010), Confirm::Timeout, &mut db), None);
    assert!(session.is_idle());
    assert_eq!(db.num_events(), 1);
    assert!(db.get_events_info().unwritten_classes.class2);

    // the event is reported again
    let read = request(1, &[0xC4, 1, 60, 3, 0x06]);
    let transmit = session.handle_one_request_from_idle(at(2000), Some(&read), &mut db);
    assert_eq!(sent(&session, transmit), vec![0xE4, 129, 0x80, 0x00, 0x11]);
}

#[test]
fn new_request_ends_confirm_wait() {
    let mut session = new_session();
    let mut db = Database::new(10);
    db.push_event(EventClass::Class2, vec![0x11]);
    let read = request(0, &[0xC3, 1, 60, 3, 0x06]);
    session.handle_one_request_from_idle(at(10), Some(&read), &mut db);
    let other = request(1, &[0xC4, 23]);
    assert_eq!(
        session.expect_sol_confirm(at(20), Sequence::new(3), Some(&other)),
        ConfirmAction::NewRequest
    );
    let step = session.wait_for_sol_confirm(at(20), Timeout::No, Some(&other));
    assert_eq!(step.confirm, Some(Confirm::NewRequest));
    assert_eq!(session.sol_confirm_wait(at(20), Confirm::NewRequest, &mut db), None);
    assert!(session.is_idle());
    assert!(db.get_events_info().unwritten_classes.class2);
    // the request that ended the wait is then taken from idle
    let transmit = session.handle_one_request_from_idle(at(20), Some(&other), &mut db);
    assert_eq!(
        &sent(&session, transmit)[..4],
        &[0xC4, 129, Iin1::RESTART | Iin1::CLASS_2_EVENTS, 0x00]
    );
}

#[test]
fn null_unsolicited_at_startup() {
    let mut session = new_session();
    let mut db = Database::new(10);
    let check = session.check_unsolicited(at(5), &mut db);
    assert_eq!(check, UnsolicitedCheck::Started(Transmit::Unsolicited(4)));
    assert_eq!(
        session.unsolicited_fragment(4),
        vec![0xF0, 130, Iin1::RESTART, 0x00]
    );
    match session.wait {
        WaitState::UnsolConfirmWait {
            response,
            is_null,
            retries,
            deadline,
        } => {
            assert_eq!(response.seq(), Sequence::new(0));
            assert!(is_null);
            assert_eq!(retries.retries, Some(0));
            assert_eq!(deadline, at(1005));
        }
        _ => panic!("the session does not wait for a confirmation"),
    }
    assert_eq!(session.state.unsolicited_seq, Sequence::new(1));

    // a confirmation with another sequence number is ignored
    let wrong = request(0, &[0xD1, 0]);
    let step = session.wait_for_unsolicited_confirm(at(6), Timeout::No, Some(&wrong), &mut db);
    assert_eq!(
        step,
        UnsolicitedWait {
            result: UnsolicitedWaitResult::ReadNext,
            transmit: None
        }
    );
    let step = session.unsolicited_series_step(at(6), step.result, &mut db);
    assert_eq!(
        step,
        UnsolicitedStep {
            result: None,
            transmit: None,
            retry_at: None
        }
    );
    assert_eq!(session.wait_deadline(), Some(at(1005)));

    let confirm = request(1, &[0xD0, 0]);
    let step = session.wait_for_unsolicited_confirm(at(7), Timeout::No, Some(&confirm), &mut db);
    assert_eq!(
        step.result,
        UnsolicitedWaitResult::Complete(UnsolicitedResult::Confirmed)
    );
    let step = session.unsolicited_series_step(at(7), step.result, &mut db);
    assert_eq!(
        step,
        UnsolicitedStep {
            result: Some(UnsolicitedResult::Confirmed),
            transmit: None,
            retry_at: None
        }
    );
    assert_eq!(session.state.unsolicited, UnsolicitedState::Ready(None));
    assert!(session.is_idle());
    // nothing to report: no class is enabled
    assert_eq!(
        session.check_unsolicited(at(8), &mut db),
        UnsolicitedCheck::Wait(None)
    );
}

#[test]
fn null_unsolicited_is_sent_afresh_after_timeout() {
    let mut session = new_session();
    let mut db = Database::new(10);
    session.check_unsolicited(at(5), &mut db);
    let step = session.wait_for_unsolicited_confirm(at(1005), Timeout::Yes, None, &mut db);
    assert_eq!(step.result, UnsolicitedWaitResult::Timeout);
    let step = session.unsolicited_series_step(at(1005), step.result, &mut db);
    assert_eq!(
        step,
        UnsolicitedStep {
            result: Some(UnsolicitedResult::Timeout),
            transmit: None,
            retry_at: Some(at(1005))
        }
    );
    assert_eq!(session.info.unsolicited_timeouts, vec![false]);
    assert_eq!(session.state.unsolicited, UnsolicitedState::NullRequired);
    assert!(session.is_idle());
    // the next one has the next sequence number
    let check = session.check_unsolicited(at(1006), &mut db);
    assert_eq!(check, UnsolicitedCheck::Started(Transmit::Unsolicited(4)));
    assert_eq!(
        session.unsolicited_fragment(4),
        vec![0xF1, 130, Iin1::RESTART, 0x00]
    );
}

fn enable_class_1(session: &mut Session, db: &mut Database) {
    let transmit = session.handle_one_request_from_idle(
        at(2),
        Some(&request(2000, &[0xCF, 20, 60, 2, 0x06])),
        db,
    );
    assert!(transmit.is_some());
    assert!(session.is_idle());
}

#[test]
fn unsolicited_response_is_repeated_as_often_as_configured() {
    let mut config = test_config();
    config.max_unsolicited_retries = Some(2);
    let mut session = session_with(config, App::new());
    let mut db = Database::new(10);
    open(&mut session, &mut db);
    enable_class_1(&mut session, &mut db);
    db.push_event(EventClass::Class1, vec![0x51, 0x52]);
    db.push_event(EventClass::Class2, vec![0x61]);

    let check = session.check_unsolicited(at(100), &mut db);
    assert_eq!(check, UnsolicitedCheck::Started(Transmit::Unsolicited(6)));
    let first = session.unsolicited_fragment(6);
    assert_eq!(
        first,
        vec![0xF1, 130, Iin1::RESTART | Iin1::CLASS_2_EVENTS, 0x00, 0x51, 0x52]
    );

    let mut transmissions = 1;
    let mut now = 100;
    loop {
        now += 1000;
        let step = session.wait_for_unsolicited_confirm(at(now), Timeout::Yes, None, &mut db);
        let step = session.unsolicited_series_step(at(now), step.result, &mut db);
        match step.transmit {
            Some(transmit) => {
                assert_eq!(transmit, Transmit::Unsolicited(6));
                assert_eq!(session.unsolicited_fragment(6), first);
                assert_eq!(session.wait_deadline(), Some(at(now + 1000)));
                transmissions += 1;
            }
            None => {
                assert_eq!(step.result, Some(UnsolicitedResult::Timeout));
                assert_eq!(step.retry_at, Some(at(now + 3000)));
                break;
            }
        }
    }
    assert_eq!(transmissions, 3);
    assert_eq!(session.info.unsolicited_timeouts, vec![true, true, false]);
    assert!(session.is_idle());
    assert_eq!(
        session.state.unsolicited,
        UnsolicitedState::Ready(Some(at(now + 3000)))
    );
    // the event is kept, and reported again only after the retry delay
    assert!(db.get_events_info().unwritten_classes.class1);
    assert_eq!(
        session.check_unsolicited(at(now + 2999), &mut db),
        UnsolicitedCheck::Wait(Some(at(now + 3000)))
    );
    let check = session.check_unsolicited(at(now + 3000), &mut db);
    assert_eq!(check, UnsolicitedCheck::Started(Transmit::Unsolicited(6)));
    assert_eq!(&session.unsolicited_fragment(6)[4..], &[0x51, 0x52]);
    assert_eq!(session.unsolicited_fragment(6)[0], 0xF2);

    // confirmed, the event leaves the database
    let confirm = request(7, &[0xD2, 0]);
    let step = session.wait_for_unsolicited_confirm(at(now + 3001), Timeout::No, Some(&confirm), &mut db);
    let step = session.unsolicited_series_step(at(now + 3001), step.result, &mut db);
    assert_eq!(step.result, Some(UnsolicitedResult::Confirmed));
    assert_eq!(db.num_events(), 1);
    assert!(!db.get_events_info().unwritten_classes.class1);
    assert!(db.get_events_info().unwritten_classes.class2);
}

#[test]
fn unsolicited_without_limit_is_repeated_on_and_on() {
    let mut session = new_session();
    let mut db = Database::new(10);
    open(&mut session, &mut db);
    enable_class_1(&mut session, &mut db);
    db.push_event(EventClass::Class1, vec![0x51]);
    session.check_unsolicited(at(100), &mut db);
    for i in 0..50u64 {
        let now = 1100 + i * 1000;
        let step = session.wait_for_unsolicited_confirm(at(now), Timeout::Yes, None, &mut db);
        let step = session.unsolicited_series_step(at(now), step.result, &mut db);
        assert_eq!(step.transmit, Some(Transmit::Unsolicited(5)));
        assert_eq!(step.result, None);
    }
}

#[test]
fn read_during_unsolicited_wait_is_deferred() {
    let mut config = test_config();
    config.max_unsolicited_retries = Some(5);
    let mut session = session_with(config, App::new());
    let mut db = Database::new(10);
    db.push_static(vec![0x77; 3]);
    open(&mut session, &mut db);
    enable_class_1(&mut session, &mut db);
    db.push_event(EventClass::Class1, vec![0x51]);
    let check = session.check_unsolicited(at(100), &mut db);
    assert_eq!(check, UnsolicitedCheck::Started(Transmit::Unsolicited(5)));

    let read = request(10, &[0xC5, 1, 60, 1, 0x06]);
    let step = session.wait_for_unsolicited_confirm(at(200), Timeout::No, Some(&read), &mut db);
    assert_eq!(
        step,
        UnsolicitedWait {
            result: UnsolicitedWaitResult::ReadNext,
            transmit: None
        }
    );
    let step = session.unsolicited_series_step(at(200), step.result, &mut db);
    assert_eq!(step.result, None);
    assert!(session.state.deferred_read.is_set());
    assert_eq!(session.wait_deadline(), Some(at(1100)));

    // at the deadline the response is not repeated, though repetitions are left
    let step = session.wait_for_unsolicited_confirm(at(1100), Timeout::Yes, None, &mut db);
    let step = session.unsolicited_series_step(at(1100), step.result, &mut db);
    assert_eq!(
        step,
        UnsolicitedStep {
            result: Some(UnsolicitedResult::Timeout),
            transmit: None,
            retry_at: Some(at(4100))
        }
    );
    assert_eq!(session.info.unsolicited_timeouts, vec![false]);
    assert!(session.is_idle());

    // back in the idle state the read is answered
    let transmit = session.handle_deferred_read(at(1101), &mut db);
    assert_eq!(
        sent(&session, transmit),
        vec![
            0xC5,
            129,
            Iin1::RESTART | Iin1::CLASS_1_EVENTS,
            0x00,
            0x77,
            0x77,
            0x77
        ]
    );
    assert!(!session.state.deferred_read.is_set());
    assert_eq!(session.state.last_valid_request.unwrap().seq, Sequence::new(5));
    assert_eq!(session.handle_deferred_read(at(1102), &mut db), None);
}

#[test]
fn requests_during_unsolicited_wait() {
    let mut app = App::new();
    app.processing_delay = 3;
    let mut session = session_with(test_config(), app);
    let mut db = Database::new(10);
    open(&mut session, &mut db);
    enable_class_1(&mut session, &mut db);
    db.push_event(EventClass::Class1, vec![0x51]);
    session.check_unsolicited(at(100), &mut db);
    let wait = session.wait;

    // a read, then another request: the read is dropped
    let read = request(10, &[0xC5, 1, 60, 1, 0x06]);
    session.wait_for_unsolicited_confirm(at(200), Timeout::No, Some(&read), &mut db);
    assert!(session.state.deferred_read.is_set());
    let delay = request(11, &[0xC6, 23]);
    let step = session.wait_for_unsolicited_confirm(at(210), Timeout::No, Some(&delay), &mut db);
    assert_eq!(step.result, UnsolicitedWaitResult::ReadNext);
    let reply = sent(&session, step.transmit);
    assert_eq!(reply, vec![0xC6, 129, 0x80, 0x00, 52, 2, 0x07, 1, 3, 0]);
    assert!(!session.state.deferred_read.is_set());
    assert_eq!(session.wait, wait);
    assert_eq!(session.state.last_valid_request.unwrap().seq, Sequence::new(6));

    // the same request again: the same octets
    let again = request(12, &[0xC6, 23]);
    session.application.processing_delay = 9;
    let step = session.wait_for_unsolicited_confirm(at(220), Timeout::No, Some(&again), &mut db);
    assert_eq!(sent(&session, step.transmit), reply);

    // a request whose objects cannot be read
    let bad = request(13, &[0xC7, 2, 80]);
    let step = session.wait_for_unsolicited_confirm(at(230), Timeout::No, Some(&bad), &mut db);
    assert_eq!(
        sent(&session, step.transmit),
        vec![0xC7, 129, 0x80, Iin2::PARAMETER_ERROR]
    );
    assert_eq!(step.result, UnsolicitedWaitResult::ReadNext);

    // a solicited confirmation is ignored
    let confirm = request(14, &[0xC7, 0]);
    let step = session.wait_for_unsolicited_confirm(at(240), Timeout::No, Some(&confirm), &mut db);
    assert_eq!(
        step,
        UnsolicitedWait {
            result: UnsolicitedWaitResult::ReadNext,
            transmit: None
        }
    );

    // a fragment that is no request
    let error = TransportRequest::Error(TransportRequestError::HeaderParseError(
        HeaderParseError::UnknownFunction(Sequence::new(1), 77),
    ));
    let step = session.wait_for_unsolicited_confirm(at(250), Timeout::No, Some(&error), &mut db);
    assert_eq!(
        sent(&session, step.transmit),
        vec![0xC1, 129, 0x80, Iin2::NO_FUNC_CODE_SUPPORT]
    );

    // a disable ends the exchange once it is answered
    let disable = request(15, &[0xC8, 21, 60, 2, 0x06]);
    let step = session.wait_for_unsolicited_confirm(at(260), Timeout::No, Some(&disable), &mut db);
    assert_eq!(
        step.result,
        UnsolicitedWaitResult::Complete(UnsolicitedResult::ReturnToIdle)
    );
    assert_eq!(sent(&session, step.transmit), vec![0xC8, 129, 0x80, 0x00]);
    let step = session.unsolicited_series_step(at(260), step.result, &mut db);
    assert_eq!(step.result, Some(UnsolicitedResult::ReturnToIdle));
    assert_eq!(step.retry_at, Some(at(3260)));
    assert!(session.is_idle());
    assert_eq!(session.state.enabled_unsolicited_classes, EventClasses::none());
    assert!(db.get_events_info().unwritten_classes.class1);
}

#[test]
fn broadcast_during_unsolicited_wait() {
    let mut session = new_session();
    let mut db = Database::new(10);
    session.check_unsolicited(at(5), &mut db);
    let write = broadcast(
        3,
        BroadcastConfirmMode::Mandatory,
        &[0xC0, 2, 80, 1, 0x00, 7, 7, 0x00],
    );
    let step = session.wait_for_unsolicited_confirm(at(6), Timeout::No, Some(&write), &mut db);
    assert_eq!(
        step,
        UnsolicitedWait {
            result: UnsolicitedWaitResult::ReadNext,
            transmit: None
        }
    );
    assert!(!session.state.restart_iin_asserted);
    assert_eq!(
        session.state.last_broadcast_type,
        Some(BroadcastConfirmMode::Mandatory)
    );
    // a solicited confirmation acknowledges the broadcast
    let confirm = request(4, &[0xC0, 0]);
    session.wait_for_unsolicited_confirm(at(7), Timeout::No, Some(&confirm), &mut db);
    assert_eq!(session.state.last_broadcast_type, None);
}

#[test]
fn link_status_and_deadlines() {
    let mut session = new_session();
    assert!(!session.check_link_status(at(59999)));
    assert_eq!(session.next_link_status, Some(at(60000)));
    assert!(session.check_link_status(at(60000)));
    assert_eq!(session.next_link_status, Some(at(120000)));
    session.on_link_activity(at(70000));
    assert_eq!(session.next_link_status, Some(at(130000)));
    assert_eq!(session.idle_deadline(None), Some(at(130000)));
    assert_eq!(session.idle_deadline(Some(at(5))), Some(at(5)));
    assert_eq!(session.idle_deadline(Some(at(140000))), Some(at(130000)));
    assert_eq!(session.new_confirm_deadline(at(7)), at(1007));
    assert_eq!(session.new_unsolicited_retry_deadline(at(7)), at(3007));
    assert_eq!(
        session.new_confirm_deadline(at(u64::MAX - 5)),
        at(u64::MAX)
    );

    let mut config = test_config();
    config.keep_alive_timeout = None;
    let mut session = session_with(config, App::new());
    assert_eq!(session.next_link_status, None);
    assert!(!session.check_link_status(at(u64::MAX)));
    assert_eq!(session.idle_deadline(None), None);
    assert_eq!(session.idle_deadline(Some(at(9))), Some(at(9)));
}

#[test]
fn reset_and_configuration_change() {
    let mut session = new_session();
    let mut db = Database::new(10);
    session.handle_one_request_from_idle(at(10), Some(&request(0, &control_request(1, 3, 0))), &mut db);
    assert!(session.state.select.is_some());
    assert!(session.state.last_valid_request.is_some());
    session.reset();
    assert!(session.state.select.is_none());
    assert!(session.state.last_valid_request.is_none());
    assert!(session.state.restart_iin_asserted);
    assert!(session.is_idle());

    session.handle_config_change(ConfigurationChange::SetDecodeLevel(DecodeLevel::ObjectValues));
    assert_eq!(session.config.decode_level, DecodeLevel::ObjectValues);
}

#[test]
fn classification_uses_the_digest_of_the_fragment() {
    let mut session = new_session();
    let mut db = Database::new(10);
    let info = FragmentInfo::new(0, None);
    let mut read = parse_request(&[0xC0, 1]).unwrap();
    // the digest is taken over the raw octets, whatever they are
    read.raw_fragment = Vec::new();
    assert_eq!(
        session.classify(info, &read),
        FragmentType::NewRead(0xEF46_DB37_51D8_E999)
    );
    let mut other = parse_request(&[0xC0, 23]).unwrap();
    other.raw_fragment = b"abc".to_vec();
    assert_eq!(
        session.classify(info, &other),
        FragmentType::NewNonRead(0x44BC_2CF5_AD77_0999)
    );
    assert_eq!(other.objects.as_ref().unwrap().hash(), 0xEF46_DB37_51D8_E999);

    assert_eq!(
        session.classify(info, &parse_request(&[0xC5, 0]).unwrap()),
        FragmentType::SolicitedConfirm(Sequence::new(5))
    );
    assert_eq!(
        session.classify(info, &parse_request(&[0xD5, 0]).unwrap()),
        FragmentType::UnsolicitedConfirm(Sequence::new(5))
    );
    assert_eq!(
        session.classify(
            FragmentInfo::new(0, Some(BroadcastConfirmMode::Optional)),
            &parse_request(&[0xC5, 2]).unwrap()
        ),
        FragmentType::Broadcast(BroadcastConfirmMode::Optional)
    );
    assert!(matches!(
        session.classify(info, &parse_request(&[0xC5, 2, 1]).unwrap()),
        FragmentType::MalformedRequest(_, _)
    ));

    // same sequence number, other octets: a new request
    let transmit =
        session.handle_one_request_from_idle(at(1), Some(&request(0, &[0xC1, 23])), &mut db);
    assert!(transmit.is_some());
    let last = session.state.last_valid_request.unwrap();
    assert_eq!(
        session.classify(info, &parse_request(&[0xC1, 24]).unwrap()),
        FragmentType::NewNonRead(
            match session.classify(info, &parse_request(&[0xC1, 24]).unwrap()) {
                FragmentType::NewNonRead(h) => h,
                _ => 0,
            }
        )
    );
    assert!(matches!(
        session.classify(info, &parse_request(&[0xC1, 24]).unwrap()),
        FragmentType::NewNonRead(h) if h != last.request_hash
    ));
    // same octets, other sequence number: a new request too
    assert!(matches!(
        session.classify(info, &parse_request(&[0xC2, 23]).unwrap()),
        FragmentType::NewNonRead(_)
    ));
    assert_eq!(
        session.classify(info, &parse_request(&[0xC1, 23]).unwrap()),
        FragmentType::RepeatNonRead(last.request_hash, last.response)
    );
}

#[test]
fn session_made_now_reads_the_clock() {
    let clock = Clock::new();
    let first = clock.now();
    let config = test_config();
    let session = OutstationSession::new(
        SessionConfig::from(config),
        SessionParameters::from(config),
        App::new(),
        Info::default(),
        Handler::new(),
        &clock,
    );
    let later = clock.now();
    assert!(first.millis <= later.millis);
    assert!(later.millis < 60_000);
    let deadline = session.next_link_status.unwrap();
    assert!(first.millis + 60_000 <= deadline.millis);
    assert!(deadline.millis <= later.millis + 60_000);
    assert!(session.is_idle());
    assert!(session.state.restart_iin_asserted);
    assert!(clock.origin() <= tokio::time::Instant::now());
}

#[test]
fn error_response_after_mandatory_broadcast_asks_for_confirmation() {
    let mut session = new_session();
    let mut db = Database::new(10);
    let record = broadcast(0, BroadcastConfirmMode::Mandatory, &[0xC0, 24]);
    assert_eq!(
        session.handle_one_request_from_idle(at(10), Some(&record), &mut db),
        None
    );
    let error = TransportRequest::Error(TransportRequestError::HeaderParseError(
        HeaderParseError::UnknownFunction(Sequence::new(6), 99),
    ));
    let transmit = session.handle_one_request_from_idle(at(20), Some(&error), &mut db);
    assert_eq!(
        sent(&session, transmit),
        vec![
            0xE6,
            129,
            Iin1::RESTART | Iin1::BROADCAST,
            Iin2::NO_FUNC_CODE_SUPPORT
        ]
    );
    match session.wait {
        WaitState::SolConfirmWait { series, response, deadline } => {
            assert_eq!(response.header.control.seq, Sequence::new(6));
            assert!(response.header.control.con);
            assert_eq!(series.ecsn, Sequence::new(6));
            assert!(series.fin);
            assert_eq!(deadline, at(1020));
        }
        _ => panic!("the session does not wait for a confirmation"),
    }
    let confirm = request(1, &[0xC6, 0]);
    let step = session.wait_for_sol_confirm(at(30), Timeout::No, Some(&confirm));
    assert_eq!(step.confirm, Some(Confirm::Yes));
    assert_eq!(session.sol_confirm_wait(at(30), Confirm::Yes, &mut db), None);
    assert!(session.is_idle());
    assert_eq!(session.state.last_broadcast_type, None);
}

#[test]
fn direct_operate_without_response_that_reaches_no_handler() {
    let mut db = Database::new(10);
    db.push_event(EventClass::Class1, vec![1]);
    let mut octets = vec![0xC4, 6, 12, 1, 0x17, 1, 7];
    octets.extend_from_slice(&CROB);

    // a limit of zero: the handler hears nothing
    let mut config = test_config();
    config.max_controls_per_request = Some(0);
    let mut session = session_with(config, App::new());
    assert_eq!(
        session.handle_one_request_from_idle(at(10), Some(&request(0, &octets)), &mut db),
        None
    );
    assert!(session.control_handler.operated.is_empty());
    assert_eq!((session.control_handler.begun, session.control_handler.ended), (0, 0));
    assert_eq!(db.num_events(), 1);

    // a header that counts no control
    let mut session = new_session();
    assert_eq!(
        session.handle_one_request_from_idle(
            at(10),
            Some(&request(0, &[0xC4, 6, 12, 1, 0x17, 0])),
            &mut db
        ),
        None
    );
    assert_eq!((session.control_handler.begun, session.control_handler.ended), (0, 0));

    // a header that holds no controls: the request is ignored
    assert_eq!(
        session.handle_one_request_from_idle(
            at(10),
            Some(&request(1, &[0xC5, 6, 60, 1, 0x06])),
            &mut db
        ),
        None
    );
    assert_eq!((session.control_handler.begun, session.control_handler.ended), (0, 0));
    assert_eq!(db.num_events(), 1);

    // one control: the handler is told of the fragment, the control and its end
    assert_eq!(
        session.handle_one_request_from_idle(at(10), Some(&request(2, &octets)), &mut db),
        None
    );
    assert_eq!(session.control_handler.operated.len(), 1);
    assert_eq!((session.control_handler.begun, session.control_handler.ended), (1, 1));
}

#[test]
fn duplicate_read_during_later_fragment_echoes_that_fragment() {
    let mut session = new_session();
    let mut db = Database::new(10);
    for value in 1u8..=5 {
        db.push_static(vec![value; 100]);
    }

    let read = [0xC3, 1, 60, 1, 0x06];
    let transmit = session.handle_one_request_from_idle(at(10), Some(&request(0, &read)), &mut db);
    let first = sent(&session, transmit);
    assert_eq!(&first[..4], &[0xA3, 129, 0x80, 0x00]);

    // the confirmation of the first fragment brings the second
    let confirm = request(1, &[0xC3, 0]);
    let step = session.wait_for_sol_confirm(at(100), Timeout::No, Some(&confirm));
    assert_eq!(step.confirm, Some(Confirm::Yes));
    let transmit = session.sol_confirm_wait(at(100), Confirm::Yes, &mut db);
    assert_eq!(transmit, Some(Transmit::Solicited(204)));
    let second = sent(&session, transmit);
    assert_eq!(&second[..4], &[0x24, 129, 0x80, 0x00]);
    assert_eq!(&second[4..104], &[3u8; 100][..]);
    assert_eq!(&second[104..], &[4u8; 100][..]);
    assert_eq!(session.wait_deadline(), Some(at(1100)));

    // the record of the read now holds the second fragment
    let record = session.state.last_valid_request.unwrap();
    assert_eq!(record.seq, Sequence::new(3));
    assert_eq!(record.response.unwrap().header.control.seq, Sequence::new(4));
    assert!(!record.response.unwrap().header.control.fir);
    assert_eq!(record.series.unwrap().ecsn, Sequence::new(4));
    match session.wait {
        WaitState::SolConfirmWait { series, response, .. } => {
            assert_eq!(Some(response), record.response);
            assert_eq!(Some(series), record.series);
        }
        _ => panic!("the session does not wait for a confirmation"),
    }

    // the read once more: the second fragment goes out again, octet for octet
    let step = session.wait_for_sol_confirm(at(600), Timeout::No, Some(&request(2, &read)));
    assert_eq!(
        step,
        SolicitedWait {
            confirm: None,
            transmit: Some(Transmit::Solicited(204))
        }
    );
    assert_eq!(sent(&session, step.transmit), second);
    assert_eq!(session.wait_deadline(), Some(at(1600)));
    assert_eq!(session.state.last_valid_request, Some(record));

    // the confirmation of the second fragment brings the last
    let confirm = request(3, &[0xC4, 0]);
    let step = session.wait_for_sol_confirm(at(700), Timeout::No, Some(&confirm));
    assert_eq!(step.confirm, Some(Confirm::Yes));
    let transmit = session.sol_confirm_wait(at(700), Confirm::Yes, &mut db);
    let third = sent(&session, transmit);
    assert_eq!(&third[..4], &[0x45, 129, 0x80, 0x00]);
    assert_eq!(&third[4..], &[5u8; 100][..]);
    assert!(session.is_idle());
}

fn controls_request(seq: u8, function: u8, count: u8) -> Vec<u8> {
    let mut octets = vec![0xC0 | seq, function, 12, 1, 0x17, count];
    for index in 0..count {
        octets.push(index);
        octets.extend_from_slice(&CROB);
    }
    octets
}

#[test]
fn control_request_whose_echo_does_not_fit_is_refused() {
    let mut db = Database::new(10);
    db.push_event(EventClass::Class1, vec![1]);

    // twenty controls are echoed in 244 octets, which fit behind the header
    let mut session = new_session();
    let transmit = session.handle_one_request_from_idle(
        at(10),
        Some(&request(0, &controls_request(1, 5, 20))),
        &mut db,
    );
    let reply = sent(&session, transmit);
    assert_eq!(reply.len(), 248);
    assert_eq!(reply[3], 0);
    assert_eq!(&reply[4..], &controls_request(1, 5, 20)[2..]);
    assert_eq!(session.control_handler.operated.len(), 20);

    // twenty-one are not: select, operate and direct operate are refused
    for function in [3u8, 4, 5] {
        let mut session = new_session();
        let transmit = session.handle_one_request_from_idle(
            at(10),
            Some(&request(0, &controls_request(2, function, 21))),
            &mut db,
        );
        assert_eq!(
            sent(&session, transmit),
            vec![0xC2, 129, Iin1::RESTART | Iin1::CLASS_1_EVENTS, Iin2::PARAMETER_ERROR]
        );
        assert!(session.control_handler.selected.is_empty());
        assert!(session.control_handler.operated.is_empty());
        assert_eq!((session.control_handler.begun, session.control_handler.ended), (0, 0));
        assert!(session.state.select.is_none());
        assert!(session.is_idle());
    }
    assert_eq!(db.num_events(), 1);
}

#[test]
fn refused_operate_keeps_the_select() {
    let mut session = new_session();
    let mut db = Database::new(10);
    let transmit = session.handle_one_request_from_idle(
        at(10),
        Some(&request(0, &control_request(1, 3, 0))),
        &mut db,
    );
    assert_eq!(sent(&session, transmit)[19], 0);
    let select = session.state.select;
    assert!(select.is_some());

    // an operate too large to be echoed is refused before the select is looked at
    let transmit = session.handle_one_request_from_idle(
        at(20),
        Some(&request(1, &controls_request(2, 4, 21))),
        &mut db,
    );
    assert_eq!(sent(&session, transmit), vec![0xC2, 129, 0x80, Iin2::PARAMETER_ERROR]);
    assert_eq!(session.state.select, select);
    assert!(session.control_handler.operated.is_empty());
}

#[test]
fn repeated_non_read_from_idle_is_sent_as_it_was() {
    let mut session = new_session();
    let mut db = Database::new(10);
    let record = [0xC5, 24];
    let transmit = session.handle_one_request_from_idle(at(10), Some(&request(0, &record)), &mut db);
    let first = sent(&session, transmit);
    assert_eq!(first, vec![0xC5, 129, Iin1::RESTART, 0]);
    assert_eq!(session.state.last_recorded_time, Some(at(10)));

    // the indications change, and a broadcast comes in between
    session.application.iin.need_time = true;
    db.push_event(EventClass::Class1, vec![1]);
    let write = broadcast(1, BroadcastConfirmMode::Optional, &[0xC0, 2]);
    assert_eq!(
        session.handle_one_request_from_idle(at(15), Some(&write), &mut db),
        None
    );

    // the record answers the repetition
    let transmit = session.handle_one_request_from_idle(at(20), Some(&request(2, &record)), &mut db);
    assert_eq!(sent(&session, transmit), first);
    assert_eq!(session.state.last_recorded_time, Some(at(10)));
    assert!(session.is_idle());
    assert_eq!(
        session.state.last_broadcast_type,
        Some(BroadcastConfirmMode::Optional)
    );

    // a new request is answered with the indications of the moment
    let transmit =
        session.handle_one_request_from_idle(at(30), Some(&request(3, &[0xC6, 24])), &mut db);
    assert_eq!(
        sent(&session, transmit),
        vec![
            0xC6,
            129,
            Iin1::RESTART | Iin1::BROADCAST | Iin1::CLASS_1_EVENTS | Iin1::NEED_TIME,
            0
        ]
    );
}

#[test]
fn repeated_request_whose_answer_asked_for_confirmation() {
    let mut session = new_session();
    let mut db = Database::new(10);
    let write = broadcast(0, BroadcastConfirmMode::Mandatory, &[0xC0, 2]);
    assert_eq!(
        session.handle_one_request_from_idle(at(5), Some(&write), &mut db),
        None
    );
    let record = [0xC5, 24];
    let transmit = session.handle_one_request_from_idle(at(10), Some(&request(1, &record)), &mut db);
    let first = sent(&session, transmit);
    assert_eq!(first, vec![0xE5, 129, Iin1::RESTART | Iin1::BROADCAST, 0]);
    assert_eq!(session.wait_deadline(), Some(at(1010)));

    // no confirmation comes
    let step = session.wait_for_sol_confirm(at(1010), Timeout::Yes, None);
    assert_eq!(step.confirm, Some(Confirm::Timeout));
    assert_eq!(session.sol_confirm_wait(at(1010), Confirm::Timeout, &mut db), None);
    assert!(session.is_idle());

    // the request again: the same octets, and the confirmation is awaited again
    let transmit =
        session.handle_one_request_from_idle(at(2000), Some(&request(2, &record)), &mut db);
    assert_eq!(sent(&session, transmit), first);
    match session.wait {
        WaitState::SolConfirmWait { series, response, deadline } => {
            assert_eq!(series.ecsn, Sequence::new(5));
            assert!(series.fin);
            assert_eq!(response.header.control.seq, Sequence::new(5));
            assert_eq!(deadline, at(3000));
        }
        _ => panic!("the session does not wait for a confirmation"),
    }
    assert_eq!(session.state.last_recorded_time, Some(at(10)));
}

#[test]
fn repeated_read_while_another_fragment_awaits_confirmation() {
    let mut session = new_session();
    let mut db = Database::new(10);
    db.push_static(vec![9; 10]);
    let read = [0xC3, 1, 60, 1, 0x06];
    let transmit = session.handle_one_request_from_idle(at(10), Some(&request(0, &read)), &mut db);
    let first = sent(&session, transmit);
    assert_eq!(first.len(), 14);
    assert!(session.is_idle());

    // a broadcast that wants to be confirmed, then a fragment that is no request
    let record = broadcast(1, BroadcastConfirmMode::Mandatory, &[0xC0, 24]);
    assert_eq!(
        session.handle_one_request_from_idle(at(20), Some(&record), &mut db),
        None
    );
    let error = TransportRequest::Error(TransportRequestError::HeaderParseError(
        HeaderParseError::UnknownFunction(Sequence::new(6), 99),
    ));
    let transmit = session.handle_one_request_from_idle(at(30), Some(&error), &mut db);
    assert_eq!(sent(&session, transmit).len(), 4);
    let wait = session.wait;
    assert_eq!(session.wait_deadline(), Some(at(1030)));

    // the read on record once more: its response goes out again as it was,
    // although another fragment awaits confirmation
    db.push_static(vec![8; 10]);
    let step = session.wait_for_sol_confirm(at(40), Timeout::No, Some(&request(2, &read)));
    assert_eq!(
        step,
        SolicitedWait {
            confirm: None,
            transmit: Some(Transmit::Solicited(14))
        }
    );
    assert_eq!(sent(&session, step.transmit), first);
    assert_eq!(session.wait_deadline(), Some(at(1040)));
    match (wait, session.wait) {
        (
            WaitState::SolConfirmWait { series, response, .. },
            WaitState::SolConfirmWait { series: same, response: again, .. },
        ) => {
            assert_eq!(series, same);
            assert_eq!(response, again);
        }
        _ => panic!("the session does not wait for a confirmation"),
    }

    // the confirmation that was awaited ends the wait
    let confirm = request(3, &[0xC6, 0]);
    let step = session.wait_for_sol_confirm(at(50), Timeout::No, Some(&confirm));
    assert_eq!(step.confirm, Some(Confirm::Yes));
    assert_eq!(session.sol_confirm_wait(at(50), Confirm::Yes, &mut db), None);
    assert!(session.is_idle());
}

#[test]
fn repeated_unreadable_request_is_answered_from_its_record() {
    let mut session = new_session();
    let mut db = Database::new(10);
    let unknown = [0xC7, 1, 99, 1, 0x06];
    let transmit =
        session.handle_one_request_from_idle(at(10), Some(&request(0, &unknown)), &mut db);
    let first = sent(&session, transmit);
    assert_eq!(first, vec![0xC7, 129, Iin1::RESTART, Iin2::OBJECT_UNKNOWN]);

    // the indications change; the same octets again get the same answer
    session.application.iin.device_trouble = true;
    db.push_event(EventClass::Class2, vec![1]);
    let transmit =
        session.handle_one_request_from_idle(at(20), Some(&request(1, &unknown)), &mut db);
    assert_eq!(sent(&session, transmit), first);
    assert!(session.is_idle());

    // under another sequence number the request is new, and so is its answer
    let other = [0xC8, 1, 99, 1, 0x06];
    let transmit = session.handle_one_request_from_idle(at(30), Some(&request(2, &other)), &mut db);
    assert_eq!(
        sent(&session, transmit),
        vec![
            0xC8,
            129,
            Iin1::RESTART | Iin1::CLASS_2_EVENTS | Iin1::DEVICE_TROUBLE,
            Iin2::OBJECT_UNKNOWN
        ]
    );
}

#[test]
fn repeated_unreadable_request_during_unsolicited_wait() {
    let mut session = new_session();
    let mut db = Database::new(10);
    open(&mut session, &mut db);
    enable_class_1(&mut session, &mut db);
    let bad = [0xC7, 2, 80];
    let transmit = session.handle_one_request_from_idle(at(50), Some(&request(5, &bad)), &mut db);
    let first = sent(&session, transmit);
    assert_eq!(first, vec![0xC7, 129, Iin1::RESTART, Iin2::PARAMETER_ERROR]);

    db.push_event(EventClass::Class1, vec![0x51]);
    db.push_event(EventClass::Class2, vec![0x52]);
    session.check_unsolicited(at(100), &mut db);
    let wait = session.wait;
    assert!(matches!(wait, WaitState::UnsolConfirmWait { .. }));

    // the same octets again: the answer on record, not one of the moment
    session.application.iin.need_time = true;
    let step =
        session.wait_for_unsolicited_confirm(at(200), Timeout::No, Some(&request(6, &bad)), &mut db);
    assert_eq!(step.result, UnsolicitedWaitResult::ReadNext);
    assert_eq!(sent(&session, step.transmit), first);
    assert_eq!(session.wait, wait);

    // under another sequence number it is answered afresh
    let other = [0xC8, 2, 80];
    let step =
        session.wait_for_unsolicited_confirm(at(210), Timeout::No, Some(&request(7, &other)), &mut db);
    assert_eq!(
        sent(&session, step.transmit),
        vec![
            0xC8,
            129,
            Iin1::RESTART | Iin1::CLASS_2_EVENTS | Iin1::NEED_TIME,
            Iin2::PARAMETER_ERROR
        ]
    );
}
