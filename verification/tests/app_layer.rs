use dnp3::app::control_field::ControlField;
use dnp3::app::format::{start_request, start_response};
use dnp3::app::function_code::FunctionCode;
use dnp3::app::header::{RequestHeader, ResponseFunction, ResponseHeader, WriteError};
use dnp3::app::iin::{Iin, Iin1, Iin2};
use dnp3::app::parse::{
    AllObjectsVariation, CountVariation, HeaderDetails, ObjectParseError, PrefixedVariation,
    RangedVariation,
};
use dnp3::app::parser::{parse_headers, parse_request, parse_response};
use dnp3::app::sequence::Sequence;
use dnp3::app::timestamp::Timestamp;
use dnp3::app::variations::{
    Group12Var1, Group41Var1, Group41Var2, Group41Var3, Group41Var4, Group50Var1, Group50Var3,
    Group52Var2, Variation,
};
use dnp3::outstation::config::{BufferSize, BufferSizeError, OutstationConfig, SessionParameters};
use dnp3::outstation::control::{CommandStatus, ControlCollection, NonControlHeader};
use dnp3::outstation::select::SelectState;
use dnp3::outstation::session::{Response, ResponseSeries, RetryCounter};
use dnp3::outstation::database::ResponseInfo;
use dnp3::transport::HeaderParseError;
use dnp3::util::time::{Millis, Moment};
use dnp3::link::address::EndpointAddress;

#[test]
fn sequence_wraps_after_15() {
    let mut s = Sequence::new(14);
    assert_eq!(s.increment(), Sequence::new(14));
    assert_eq!(s, Sequence::new(15));
    assert_eq!(s.value(), 15);
    assert_eq!(s.next(), 0);
    assert_eq!(s.increment(), Sequence::new(15));
    assert_eq!(s, Sequence::new(0));
    assert_eq!(s, Sequence::default());
    assert!(s.same(&Sequence::new(16)));
    assert_eq!(Sequence::new(16), Sequence::new(0));
    assert_eq!(Sequence::new(0x2F), Sequence::new(15));
    assert!(!Sequence::new(1).same(&Sequence::new(2)));
    let mut t = Sequence::new(3);
    for _ in 0..16 {
        t.increment();
    }
    assert_eq!(t, Sequence::new(3));
}

#[test]
fn control_field_octet() {
    let seq = Sequence::new(5);
    assert_eq!(ControlField::request(seq).to_u8(), 0xC5);
    assert_eq!(ControlField::single_response(seq).to_u8(), 0xC5);
    assert_eq!(ControlField::unsolicited_response(seq).to_u8(), 0xF5);
    assert_eq!(ControlField::response(seq, true, false, true).to_u8(), 0xA5);
    assert_eq!(ControlField::response(seq, false, true, false).to_u8(), 0x45);
    assert_eq!(
        ControlField::from(0xB7),
        ControlField {
            fir: true,
            fin: false,
            con: true,
            uns: true,
            seq: Sequence::new(7)
        }
    );
    for x in 0..=255u8 {
        assert_eq!(ControlField::from(x).to_u8(), x);
    }
}

#[test]
fn function_codes() {
    for x in 0..=255u8 {
        match FunctionCode::from(x) {
            Some(f) => assert_eq!(f.as_u8(), x),
            None => assert!((25..129).contains(&x) || x > 130),
        }
    }
    assert_eq!(FunctionCode::from(13), Some(FunctionCode::ColdRestart));
    assert_eq!(FunctionCode::from(129), Some(FunctionCode::Response));
    assert!(FunctionCode::Read.get_function_info().objects_allowed);
    for f in [
        FunctionCode::Confirm,
        FunctionCode::ColdRestart,
        FunctionCode::WarmRestart,
        FunctionCode::DelayMeasure,
        FunctionCode::RecordCurrentTime,
    ] {
        assert!(!f.get_function_info().objects_allowed);
    }
    assert!(FunctionCode::Write.same(&FunctionCode::Write));
    assert!(!FunctionCode::Write.same(&FunctionCode::Read));
    assert_eq!(ResponseFunction::Response.as_u8(), 129);
    assert_eq!(ResponseFunction::UnsolicitedResponse.as_u8(), 130);
    assert_eq!(ResponseFunction::Response.function(), FunctionCode::Response);
}

#[test]
fn response_header_is_written_over_four_octets() {
    let header = ResponseHeader::new(
        ControlField::response(Sequence::new(2), true, true, true),
        ResponseFunction::UnsolicitedResponse,
        Iin::new(Iin1::new(0x12), Iin2::new(0x34)),
    );
    let mut buffer = vec![9u8; 6];
    assert_eq!(header.write(&mut buffer), Ok(()));
    assert_eq!(buffer, vec![0xE2, 130, 0x12, 0x34, 9, 9]);
    let mut short = vec![9u8; 3];
    assert_eq!(header.write(&mut short), Err(WriteError));
    assert_eq!(short, vec![9u8; 3]);
    let _ = RequestHeader::new(ControlField::request(Sequence::new(0)), FunctionCode::Read);
}

#[test]
fn indications() {
    assert_eq!(Iin::default(), Iin::new(Iin1::new(0), Iin2::new(0)));
    assert_eq!(Iin1::default(), Iin1::new(0));
    assert_eq!(Iin2::default(), Iin2::new(0));
    let iin = Iin::from_iin2(Iin2::new(Iin2::PARAMETER_ERROR))
        .with_iin1(Iin1::RESTART)
        .with_iin2(Iin2::OBJECT_UNKNOWN)
        .or(Iin::new(Iin1::new(Iin1::BROADCAST), Iin2::new(0)));
    assert_eq!(iin.iin1.value, 0x81);
    assert_eq!(iin.iin2.value, 0x06);
    assert!(iin.iin1.is_set(Iin1::RESTART | Iin1::BROADCAST));
    assert!(!iin.iin1.is_set(Iin1::NEED_TIME));
    assert!(iin.iin2.is_set(Iin2::PARAMETER_ERROR));
    assert_eq!(
        Iin2::new(1).or(Iin2::new(4)),
        Iin2::new(5)
    );
    for (err, bits) in [
        (ObjectParseError::InsufficientBytes, Iin2::PARAMETER_ERROR),
        (
            ObjectParseError::InvalidQualifierForVariation(Variation { group: 1, var: 2 }, 6),
            Iin2::NO_FUNC_CODE_SUPPORT,
        ),
        (ObjectParseError::InvalidRange(2, 1), Iin2::PARAMETER_ERROR),
        (ObjectParseError::UnknownGroupVariation(1, 2), Iin2::OBJECT_UNKNOWN),
        (ObjectParseError::UnsupportedQualifierCode(0x5B), Iin2::PARAMETER_ERROR),
        (ObjectParseError::UnknownQualifier(0x99), Iin2::PARAMETER_ERROR),
        (ObjectParseError::ZeroLengthOctetData, Iin2::PARAMETER_ERROR),
    ] {
        assert_eq!(Iin2::from(err), Iin2::new(bits));
    }
}

#[test]
fn request_header_errors() {
    assert!(matches!(
        parse_request(&[]),
        Err(HeaderParseError::InsufficientBytes)
    ));
    assert!(matches!(
        parse_request(&[0xC0]),
        Err(HeaderParseError::InsufficientBytes)
    ));
    match parse_request(&[0xC9, 25]) {
        Err(HeaderParseError::UnknownFunction(seq, 25)) => assert_eq!(seq, Sequence::new(9)),
        other => panic!("unexpected {:?}", other),
    }
    assert!(matches!(
        parse_response(&[0xC0, 129, 0]),
        Err(HeaderParseError::InsufficientBytes)
    ));
    assert!(matches!(
        parse_response(&[0xC0, 1, 0, 0]),
        Err(HeaderParseError::UnknownFunction(_, 1))
    ));
    let response = parse_response(&[0xF3, 130, 0x90, 0x01]).unwrap();
    assert_eq!(
        response.header,
        ResponseHeader::new(
            ControlField::unsolicited_response(Sequence::new(3)),
            ResponseFunction::UnsolicitedResponse,
            Iin::new(Iin1::new(0x90), Iin2::new(0x01))
        )
    );
    assert_eq!(response.raw_fragment, vec![0xF3, 130, 0x90, 0x01]);
    assert!(response.objects.unwrap().is_empty());
}

#[test]
fn object_header_errors() {
    let cases: Vec<(Vec<u8>, ObjectParseError)> = vec![
        (vec![60], ObjectParseError::InsufficientBytes),
        (vec![60, 1], ObjectParseError::InsufficientBytes),
        (vec![61, 1], ObjectParseError::UnknownGroupVariation(61, 1)),
        (vec![60, 5, 0x06], ObjectParseError::UnknownGroupVariation(60, 5)),
        (vec![41, 0, 0x17, 0], ObjectParseError::UnknownGroupVariation(41, 0)),
        (vec![60, 1, 0x5B], ObjectParseError::UnsupportedQualifierCode(0x5B)),
        (vec![60, 1, 0x02], ObjectParseError::UnknownQualifier(0x02)),
        (vec![80, 1, 0x00, 7], ObjectParseError::InsufficientBytes),
        (vec![80, 1, 0x01, 7, 0, 8], ObjectParseError::InsufficientBytes),
        (vec![50, 1, 0x07], ObjectParseError::InsufficientBytes),
        (vec![50, 1, 0x08, 1], ObjectParseError::InsufficientBytes),
        (vec![80, 1, 0x00, 8, 7], ObjectParseError::InvalidRange(8, 7)),
        (vec![20, 0, 0x01, 1, 1, 0, 1], ObjectParseError::InvalidRange(257, 256)),
        (
            vec![60, 1, 0x07, 1],
            ObjectParseError::InvalidQualifierForVariation(Variation { group: 60, var: 1 }, 0x07),
        ),
        (
            vec![50, 1, 0x06],
            ObjectParseError::InvalidQualifierForVariation(Variation { group: 50, var: 1 }, 0x06),
        ),
        (
            vec![12, 1, 0x00, 1, 2],
            ObjectParseError::InvalidQualifierForVariation(Variation { group: 12, var: 1 }, 0x00),
        ),
        (
            vec![80, 1, 0x17, 1],
            ObjectParseError::InvalidQualifierForVariation(Variation { group: 80, var: 1 }, 0x17),
        ),
        (vec![50, 1, 0x07, 1, 1, 2, 3, 4, 5], ObjectParseError::InsufficientBytes),
        (vec![80, 1, 0x00, 0, 8, 0xFF], ObjectParseError::InsufficientBytes),
        (vec![12, 1, 0x17, 1, 0, 1, 2, 3, 4, 5, 6, 7, 8, 9, 10], ObjectParseError::InsufficientBytes),
        (vec![60, 1, 0x06, 60], ObjectParseError::InsufficientBytes),
    ];
    for (octets, err) in cases {
        assert_eq!(parse_headers(&octets).unwrap_err(), err, "{:?}", octets);
    }
    assert!(parse_headers(&[]).unwrap().is_empty());
}

#[test]
fn object_headers_of_every_kind() {
    let headers = parse_headers(&[
        60, 1, 0x06, 60, 2, 0x06, 60, 3, 0x06, 60, 4, 0x06, 20, 0, 0x06,
    ])
    .unwrap();
    let kinds: Vec<AllObjectsVariation> = headers
        .iter()
        .map(|h| match &h.details {
            HeaderDetails::AllObjects(v) => *v,
            other => panic!("unexpected {:?}", other),
        })
        .collect();
    assert_eq!(
        kinds,
        vec![
            AllObjectsVariation::Group60Var1,
            AllObjectsVariation::Group60Var2,
            AllObjectsVariation::Group60Var3,
            AllObjectsVariation::Group60Var4,
            AllObjectsVariation::Group20Var0
        ]
    );
    assert_eq!(headers[4].variation, Variation { group: 20, var: 0 });

    // bits, packed eight to the octet
    let headers = parse_headers(&[80, 1, 0x00, 4, 13, 0b1000_0101, 0b0000_0010]).unwrap();
    match &headers[0].details {
        HeaderDetails::OneByteStartStop(4, 13, RangedVariation::Group80Var1(bits)) => {
            assert_eq!(
                bits,
                &vec![
                    (true, 4),
                    (false, 5),
                    (true, 6),
                    (false, 7),
                    (false, 8),
                    (false, 9),
                    (false, 10),
                    (true, 11),
                    (false, 12),
                    (true, 13)
                ]
            );
        }
        other => panic!("unexpected {:?}", other),
    }
    let headers = parse_headers(&[80, 1, 0x01, 0xFF, 0xFF, 0xFF, 0xFF, 1]).unwrap();
    assert!(matches!(
        &headers[0].details,
        HeaderDetails::TwoByteStartStop(0xFFFF, 0xFFFF, RangedVariation::Group80Var1(bits))
            if bits == &vec![(true, 0xFFFF)]
    ));
    let headers = parse_headers(&[20, 0, 0x00, 2, 5, 20, 0, 0x01, 0, 1, 2, 1]).unwrap();
    assert!(matches!(
        &headers[0].details,
        HeaderDetails::OneByteStartStop(2, 5, RangedVariation::Group20Var0)
    ));
    assert!(matches!(
        &headers[1].details,
        HeaderDetails::TwoByteStartStop(256, 258, RangedVariation::Group20Var0)
    ));

    // counted objects
    let headers = parse_headers(&[
        50, 1, 0x07, 2, 1, 2, 3, 4, 5, 6, 0xFF, 0xFF, 0xFF, 0xFF, 0xFF, 0xFF, 50, 3, 0x08, 1, 0,
        9, 0, 0, 0, 0, 0, 52, 2, 0x07, 0,
    ])
    .unwrap();
    match &headers[0].details {
        HeaderDetails::OneByteCount(2, CountVariation::Group50Var1(v)) => {
            assert_eq!(
                v,
                &vec![
                    Group50Var1 {
                        time: Timestamp::new(0x0605_0403_0201)
                    },
                    Group50Var1 {
                        time: Timestamp::max()
                    }
                ]
            );
        }
        other => panic!("unexpected {:?}", other),
    }
    assert!(matches!(
        &headers[1].details,
        HeaderDetails::TwoByteCount(1, CountVariation::Group50Var3(v))
            if v == &vec![Group50Var3 { time: Timestamp::new(9) }]
    ));
    assert!(matches!(
        &headers[2].details,
        HeaderDetails::OneByteCount(0, CountVariation::Group52Var2(v)) if v.is_empty()
    ));

    // objects with indices
    let headers = parse_headers(&[
        12, 1, 0x17, 1, 9, 0x41, 2, 0x10, 0x27, 0, 0, 0x20, 0x4E, 0, 0, 4, 41, 1, 0x28, 2, 0,
        0x34, 0x12, 0xFE, 0xFF, 0xFF, 0xFF, 0, 1, 0, 2, 0, 0, 0, 127, 41, 2, 0x17, 1, 3, 0xFF,
        0xFF, 5, 41, 3, 0x17, 1, 4, 0, 0, 0x80, 0x3F, 6, 41, 4, 0x17, 1, 5, 0, 0, 0, 0, 0, 0,
        0xF0, 0x3F, 126,
    ])
    .unwrap();
    assert_eq!(headers.len(), 5);
    match &headers[0].details {
        HeaderDetails::OneByteCountAndPrefix(1, PrefixedVariation::Group12Var1(v)) => {
            assert_eq!(
                v,
                &vec![(
                    Group12Var1 {
                        code: 0x41,
                        count: 2,
                        on_time: 10000,
                        off_time: 20000,
                        status: CommandStatus::NotSupported
                    },
                    9
                )]
            );
        }
        other => panic!("unexpected {:?}", other),
    }
    match &headers[1].details {
        HeaderDetails::TwoByteCountAndPrefix(2, PrefixedVariation::Group41Var1(v)) => {
            assert_eq!(
                v,
                &vec![
                    (
                        Group41Var1 {
                            value: -2,
                            status: CommandStatus::Success
                        },
                        0x1234
                    ),
                    (
                        Group41Var1 {
                            value: 2,
                            status: CommandStatus::Unknown(127)
                        },
                        1
                    )
                ]
            );
        }
        other => panic!("unexpected {:?}", other),
    }
    assert!(matches!(
        &headers[2].details,
        HeaderDetails::OneByteCountAndPrefix(1, PrefixedVariation::Group41Var2(v))
            if v == &vec![(Group41Var2 { value: -1, status: CommandStatus::AlreadyActive }, 3)]
    ));
    assert!(matches!(
        &headers[3].details,
        HeaderDetails::OneByteCountAndPrefix(1, PrefixedVariation::Group41Var3(v))
            if v == &vec![(Group41Var3 { bits: 1.0f32.to_bits(), status: CommandStatus::HardwareError }, 4)]
    ));
    assert!(matches!(
        &headers[4].details,
        HeaderDetails::OneByteCountAndPrefix(1, PrefixedVariation::Group41Var4(v))
            if v == &vec![(Group41Var4 { bits: 1.0f64.to_bits(), status: CommandStatus::NonParticipating }, 5)]
    ));
}

#[test]
fn writer_respects_its_capacity() {
    let mut writer = start_response(
        ControlField::single_response(Sequence::new(1)),
        ResponseFunction::Response,
        Iin::default(),
        9,
    )
    .unwrap();
    assert_eq!(
        writer.write_count_of_one(Group50Var1 {
            time: Timestamp::new(1)
        }),
        Err(WriteError)
    );
    assert_eq!(writer.bytes(), &[0xC1, 129, 0, 0]);
    assert_eq!(writer.write_count_of_one(Group52Var2 { time: 0x0102 }), Err(WriteError));
    assert_eq!(
        writer.write_all_objects_header(Variation { group: 60, var: 1 }),
        Ok(())
    );
    assert_eq!(
        writer.write_all_objects_header(Variation { group: 60, var: 2 }),
        Err(WriteError)
    );
    assert_eq!(writer.bytes(), &[0xC1, 129, 0, 0, 60, 1, 0x06]);
    assert!(start_response(
        ControlField::single_response(Sequence::new(1)),
        ResponseFunction::Response,
        Iin::default(),
        3
    )
    .is_err());

    let mut writer = start_request(
        ControlField::request(Sequence::new(1)),
        FunctionCode::DirectOperate,
        64,
    )
    .unwrap();
    let crob = Group12Var1 {
        code: 3,
        count: 1,
        on_time: 100,
        off_time: 200,
        status: CommandStatus::Success,
    };
    assert_eq!(writer.write_prefixed_items(&vec![(crob, 7), (crob, 300)]), Err(WriteError));
    assert_eq!(writer.write_prefixed_items(&vec![(crob, 7)]), Ok(()));
    assert_eq!(
        writer.bytes(),
        &[0xC1, 5, 12, 1, 0x17, 1, 7, 3, 1, 100, 0, 0, 0, 200, 0, 0, 0, 0]
    );
    let request = parse_request(writer.bytes()).unwrap();
    let objects = request.objects.unwrap();
    let controls = ControlCollection::from(&objects).ok().unwrap();
    assert_eq!(
        controls.respond_with_status(CommandStatus::Timeout),
        vec![12, 1, 0x17, 1, 7, 3, 1, 100, 0, 0, 0, 200, 0, 0, 0, 1]
    );
    assert_eq!(controls.hash(), objects.hash());
    let other = parse_request(&[0xC1, 5, 60, 1, 0x06]).unwrap().objects.unwrap();
    assert_eq!(
        ControlCollection::from(&other).err(),
        Some(NonControlHeader {
            variation: Variation { group: 60, var: 1 }
        })
    );
}

#[test]
fn command_status_octets() {
    for x in 0..=255u8 {
        assert_eq!(CommandStatus::from(x).as_u8(), x);
    }
    assert_eq!(CommandStatus::from(2), CommandStatus::NoSelect);
    assert_eq!(CommandStatus::from(126), CommandStatus::NonParticipating);
    assert_eq!(CommandStatus::from(19), CommandStatus::Unknown(19));
    assert!(CommandStatus::Success.is_success());
    assert!(!CommandStatus::Timeout.is_success());
    assert!(CommandStatus::NotSupported.is_not_supported());
    assert_eq!(
        CommandStatus::Success.first_error(CommandStatus::Local),
        CommandStatus::Local
    );
    assert_eq!(
        CommandStatus::Timeout.first_error(CommandStatus::Local),
        CommandStatus::Timeout
    );
    assert_eq!(
        CommandStatus::Timeout.first_error(CommandStatus::Success),
        CommandStatus::Timeout
    );
}

#[test]
fn select_state_matching() {
    let select = SelectState::new(Sequence::new(15), u32::MAX, Moment::from_millis(100), 7);
    let timeout = Millis::from_millis(50);
    let ok = |now: u64, seq: u8, frame: u32, hash: u64| {
        select.match_operate(Moment::from_millis(now), timeout, Sequence::new(seq), frame, hash)
    };
    assert_eq!(ok(100, 0, 0, 7), Ok(()));
    assert_eq!(ok(150, 0, 0, 7), Ok(()));
    assert_eq!(ok(151, 0, 0, 7), Err(CommandStatus::Timeout));
    assert_eq!(ok(99, 0, 0, 7), Err(CommandStatus::Timeout));
    assert_eq!(ok(100, 15, 0, 7), Err(CommandStatus::NoSelect));
    assert_eq!(ok(100, 1, 0, 7), Err(CommandStatus::NoSelect));
    assert_eq!(ok(100, 0, 1, 7), Err(CommandStatus::NoSelect));
    assert_eq!(ok(100, 0, 0, 8), Err(CommandStatus::NoSelect));
    // a mismatch is told before a timeout
    assert_eq!(ok(500, 0, 0, 8), Err(CommandStatus::NoSelect));
    let mut select = select;
    select.update_frame_id(4);
    assert_eq!(
        select.match_operate(Moment::from_millis(100), timeout, Sequence::new(0), 5, 7),
        Ok(())
    );
}

#[test]
fn configuration_limits() {
    assert_eq!(BufferSize::new(248), Err(BufferSizeError::TooSmall(248)));
    assert_eq!(BufferSize::new(2049), Err(BufferSizeError::TooBig(2049)));
    assert_eq!(BufferSize::new(249).unwrap().value(), 249);
    assert_eq!(BufferSize::new(2048).unwrap().value(), 2048);
    assert_eq!(BufferSize::min().value(), 249);
    assert_eq!(BufferSize::max().value(), 2048);
    assert_eq!(BufferSize::new(300).unwrap().create_buffer(), vec![0u8; 300]);
    let mut config = OutstationConfig::new(
        EndpointAddress::from(1).unwrap(),
        EndpointAddress::from(2).unwrap(),
    );
    assert_eq!(
        SessionParameters::from(config).max_read_headers_per_request,
        64
    );
    config.max_read_request_headers = Some(3);
    assert_eq!(
        SessionParameters::from(config).max_read_headers_per_request,
        3
    );
}

#[test]
fn time_arithmetic() {
    assert_eq!(Millis::from_secs(2), Millis::from_millis(2000));
    assert_eq!(Millis::from_secs(u64::MAX), Millis::from_millis(u64::MAX));
    assert_eq!(Millis::from_millis(5).as_millis(), 5);
    let t = Moment::from_millis(10);
    assert_eq!(t.after(Millis::from_millis(5)), Moment::from_millis(15));
    assert_eq!(
        Moment::from_millis(u64::MAX).after(Millis::from_millis(5)),
        Moment::from_millis(u64::MAX)
    );
    assert_eq!(
        t.checked_duration_since(Moment::from_millis(4)),
        Some(Millis::from_millis(6))
    );
    assert_eq!(t.checked_duration_since(Moment::from_millis(11)), None);
    assert!(t.is_before(Moment::from_millis(11)));
    assert!(!t.is_before(t));
    assert_eq!(Moment::earliest(t, Moment::from_millis(3)), Moment::from_millis(3));
    assert_eq!(Timestamp::new(1 << 48).raw_value(), 0);
    assert_eq!(Timestamp::min().raw_value(), 0);
    assert_eq!(
        Timestamp::new(5).checked_add(Millis::from_millis(6)),
        Some(Timestamp::new(11))
    );
    assert_eq!(Timestamp::max().checked_add(Millis::from_millis(1)), None);
    assert_eq!(
        Timestamp::new(0).checked_add(Millis::from_millis(u64::MAX)),
        None
    );
}

#[test]
fn small_session_types() {
    let mut counter = RetryCounter::new(Some(2));
    assert!(counter.decrement());
    assert!(counter.decrement());
    assert!(!counter.decrement());
    assert!(!counter.decrement());
    assert_eq!(counter.retries, Some(0));
    let mut unbounded = RetryCounter::new(None);
    for _ in 0..100 {
        assert!(unbounded.decrement());
    }
    let seq = Sequence::new(4);
    assert_eq!(
        ResponseInfo {
            has_events: false,
            complete: true
        }
        .get_response_series(seq),
        None
    );
    assert_eq!(
        ResponseInfo {
            has_events: true,
            complete: true
        }
        .get_response_series(seq),
        Some(ResponseSeries::new(seq, true))
    );
    assert_eq!(
        ResponseInfo {
            has_events: false,
            complete: false
        }
        .get_response_series(seq),
        Some(ResponseSeries::new(seq, false))
    );
    let r = Response::empty_solicited(seq, Iin::default());
    assert_eq!(r.size, 0);
    assert_eq!(r.seq(), seq);
    assert_eq!(r.header.control, ControlField::single_response(seq));
    assert_eq!(Response::new(r.header, 9).size, 9);
}
