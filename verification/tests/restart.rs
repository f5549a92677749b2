use dnp3::app::control_field::ControlField;
use dnp3::app::format::{start_request, start_response};
use dnp3::app::function_code::FunctionCode;
use dnp3::app::header::ResponseFunction;
use dnp3::app::iin::Iin;
use dnp3::app::parse::ObjectParseError;
use dnp3::app::parser::{parse_request, parse_response};
use dnp3::app::sequence::Sequence;
use dnp3::app::variations::{Group50Var1, Group52Var1, Group52Var2, Variation};
use dnp3::app::timestamp::Timestamp;
use dnp3::master::error::TaskError;
use dnp3::master::restart::{NonReadTask, RestartTask, RestartType};
use dnp3::util::time::Millis as Duration;

#[test]
fn cold_restart() {
    let task = NonReadTask::Restart(RestartTask::new(RestartType::ColdRestart));

    // Cold restart request
    let task = task.start().unwrap();
    let mut writer = start_request(
        ControlField::request(Sequence::default()),
        task.function(),
        20,
    )
    .unwrap();
    task.write(&mut writer).unwrap();
    let request = parse_request(writer.bytes()).unwrap();

    assert_eq!(request.header.function, FunctionCode::ColdRestart);
    assert!(request.objects.unwrap().is_empty());

    // Response with delay (in seconds)
    let mut writer = start_response(
        ControlField::response(Sequence::default(), true, true, false),
        ResponseFunction::Response,
        Iin::default(),
        20,
    )
    .unwrap();
    writer.write_count_of_one(Group52Var1 { time: 2 }).unwrap();
    let response = parse_response(writer.bytes()).unwrap();

    let (next, outcome) = task.handle(&response);
    assert!(next.is_none());
    assert_eq!(outcome, Ok(Duration::from_secs(2)));
}

#[test]
fn warm_restart() {
    let task = NonReadTask::Restart(RestartTask::new(RestartType::WarmRestart));

    // Warm restart request
    let task = task.start().unwrap();
    let mut writer = start_request(
        ControlField::request(Sequence::default()),
        task.function(),
        20,
    )
    .unwrap();
    task.write(&mut writer).unwrap();
    let request = parse_request(writer.bytes()).unwrap();

    assert_eq!(request.header.function, FunctionCode::WarmRestart);
    assert!(request.objects.unwrap().is_empty());

    // Response with delay (in milliseconds)
    let mut writer = start_response(
        ControlField::response(Sequence::default(), true, true, false),
        ResponseFunction::Response,
        Iin::default(),
        20,
    )
    .unwrap();
    writer.write_count_of_one(Group52Var2 { time: 2 }).unwrap();
    let response = parse_response(writer.bytes()).unwrap();

    let (next, outcome) = task.handle(&response);
    assert!(next.is_none());
    assert_eq!(outcome, Ok(Duration::from_millis(2)));
}

#[test]
fn restart_request_octets() {
    let task = RestartTask::new(RestartType::ColdRestart);
    assert_eq!(task.function(), FunctionCode::ColdRestart);
    assert_eq!(task.wrap(), NonReadTask::Restart(task));
    let writer = start_request(ControlField::request(Sequence::new(5)), task.function(), 20).unwrap();
    assert_eq!(writer.bytes(), &[0xC5, 13]);
    let warm = RestartTask::new(RestartType::WarmRestart);
    let writer = start_request(ControlField::request(Sequence::new(0)), warm.function(), 2).unwrap();
    assert_eq!(writer.bytes(), &[0xC0, 14]);
    assert!(start_request(ControlField::request(Sequence::new(0)), warm.function(), 1).is_err());
}

#[test]
fn restart_response_shapes() {
    let task = RestartTask::new(RestartType::ColdRestart);
    let start = || {
        start_response(
            ControlField::response(Sequence::default(), true, true, false),
            ResponseFunction::Response,
            Iin::default(),
            64,
        )
        .unwrap()
    };

    // no header at all
    let writer = start();
    let response = parse_response(writer.bytes()).unwrap();
    assert_eq!(task.handle(&response), Err(TaskError::UnexpectedResponseHeaders));

    // two headers
    let mut writer = start();
    writer.write_count_of_one(Group52Var1 { time: 2 }).unwrap();
    writer.write_count_of_one(Group52Var1 { time: 3 }).unwrap();
    let response = parse_response(writer.bytes()).unwrap();
    assert_eq!(task.handle(&response), Err(TaskError::UnexpectedResponseHeaders));

    // a header that counts nothing
    let response = parse_response(&[0xC0, 129, 0, 0, 52, 1, 0x07, 0]).unwrap();
    assert_eq!(task.handle(&response), Err(TaskError::UnexpectedResponseHeaders));

    // a header that counts two delays
    let response = parse_response(&[0xC0, 129, 0, 0, 52, 2, 0x07, 2, 1, 0, 2, 0]).unwrap();
    assert_eq!(task.handle(&response), Err(TaskError::UnexpectedResponseHeaders));

    // another counted object
    let mut writer = start();
    writer
        .write_count_of_one(Group50Var1 { time: Timestamp::new(1) })
        .unwrap();
    let response = parse_response(writer.bytes()).unwrap();
    assert_eq!(task.handle(&response), Err(TaskError::UnexpectedResponseHeaders));

    // a header without a count
    let mut writer = start();
    writer
        .write_all_objects_header(Variation { group: 60, var: 2 })
        .unwrap();
    let response = parse_response(writer.bytes()).unwrap();
    assert_eq!(task.handle(&response), Err(TaskError::UnexpectedResponseHeaders));

    // objects that cannot be read
    let response = parse_response(&[0xC0, 129, 0, 0, 52, 1, 0x07, 1, 2]).unwrap();
    assert_eq!(
        task.handle(&response),
        Err(TaskError::MalformedResponse(ObjectParseError::InsufficientBytes))
    );

    // largest delays
    let response = parse_response(&[0xC0, 129, 0, 0, 52, 1, 0x07, 1, 0xFF, 0xFF]).unwrap();
    assert_eq!(task.handle(&response), Ok(Duration::from_millis(65_535_000)));
    let response = parse_response(&[0xC0, 129, 0, 0, 52, 2, 0x07, 1, 0x34, 0x12]).unwrap();
    assert_eq!(task.handle(&response), Ok(Duration::from_millis(0x1234)));

    assert_eq!(
        task.on_task_error(TaskError::ResponseTimeout),
        Err(TaskError::ResponseTimeout)
    );
}
