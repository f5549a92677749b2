use dnp3::app::function_code::FunctionCode;
use dnp3::app::sequence::Sequence;
use dnp3::link::address::{BroadcastConfirmMode, EndpointAddress};
use dnp3::link::header::{ControlField, Header};
use dnp3::link::parser::{FramePayload, Parser};
use dnp3::transport::assembler::{Assembler, TransportHeader};
use dnp3::transport::writer::TransportWriter;
use dnp3::transport::reader::{validate, TransportReader};
use dnp3::transport::{
    FragmentInfo, HeaderParseError, LinkLayerMessage, RequestValidationError, TransportRequest,
    TransportRequestError,
};
use dnp3::app::control_field::ControlField as AppControl;
use dnp3::app::header::RequestHeader;

fn header(fin: bool, fir: bool, seq: u8) -> TransportHeader {
    TransportHeader { fin, fir, seq }
}

#[test]
fn transport_header_octet() {
    assert_eq!(TransportHeader::from(0xC0), header(true, true, 0));
    assert_eq!(TransportHeader::from(0x41), header(false, true, 1));
    assert_eq!(TransportHeader::from(0xBF), header(true, false, 63));
    assert_eq!(header(true, true, 5).to_u8(), 0xC5);
    for x in 0..=255u8 {
        assert_eq!(TransportHeader::from(x).to_u8(), x);
    }
}

#[test]
fn assembles_one_segment() {
    let mut assembler = Assembler::new(2048);
    assert!(!assembler.is_complete());
    assert_eq!(assembler.take(), None);
    assembler.assemble(header(true, true, 9), &[1, 2, 3], None);
    assert!(assembler.is_complete());
    assert_eq!(assembler.take(), Some((vec![1, 2, 3], None)));
    assert!(!assembler.is_complete());
    assert_eq!(assembler.take(), None);
}

#[test]
fn assembles_several_segments() {
    let mut assembler = Assembler::new(2048);
    assembler.assemble(
        header(false, true, 62),
        &[1, 2],
        Some(BroadcastConfirmMode::Optional),
    );
    assert!(!assembler.is_complete());
    assembler.assemble(header(false, false, 63), &[3], None);
    // a segment out of sequence is dropped, the assembly goes on
    assembler.assemble(header(false, false, 5), &[9, 9], None);
    assembler.assemble(header(false, false, 63), &[9], None);
    assembler.assemble(header(true, false, 0), &[4, 5], None);
    assert_eq!(
        assembler.take(),
        Some((vec![1, 2, 3, 4, 5], Some(BroadcastConfirmMode::Optional)))
    );
}

#[test]
fn first_segment_starts_over() {
    let mut assembler = Assembler::new(2048);
    assembler.assemble(header(false, true, 1), &[1, 2], None);
    assembler.assemble(header(false, true, 7), &[7], None);
    assembler.assemble(header(true, false, 8), &[8], None);
    assert_eq!(assembler.take(), Some((vec![7, 8], None)));
    // segments without a first one are dropped
    assembler.assemble(header(false, false, 9), &[1], None);
    assembler.assemble(header(true, false, 10), &[2], None);
    assert_eq!(assembler.take(), None);
    // a complete fragment that was not taken gives way to the next
    assembler.assemble(header(true, true, 1), &[1], None);
    assembler.assemble(header(true, false, 2), &[2], None);
    assembler.assemble(header(true, true, 3), &[3], None);
    assert_eq!(assembler.take(), Some((vec![3], None)));
    assembler.assemble(header(false, true, 3), &[3], None);
    assembler.reset();
    assembler.assemble(header(true, false, 4), &[4], None);
    assert_eq!(assembler.take(), None);
}

#[test]
fn fragment_that_grows_too_large_is_given_up() {
    let mut assembler = Assembler::new(4);
    assembler.assemble(header(false, true, 1), &[1, 2, 3], None);
    assembler.assemble(header(true, false, 2), &[4, 5], None);
    assert_eq!(assembler.take(), None);
    assembler.assemble(header(true, false, 3), &[6], None);
    assert_eq!(assembler.take(), None);
    assembler.assemble(header(true, true, 1), &[1, 2, 3, 4, 5], None);
    assert_eq!(assembler.take(), None);
    assembler.assemble(header(false, true, 1), &[1, 2, 3], None);
    assembler.assemble(header(true, false, 2), &[4], None);
    assert_eq!(assembler.take(), Some((vec![1, 2, 3, 4], None)));
}

fn user_data(destination: u16) -> Header {
    Header::new(ControlField::from(0xC4), destination, 1)
}

#[test]
fn reader_hands_out_requests_with_running_numbers() {
    let mut reader = TransportReader::new(EndpointAddress::from(1024).unwrap(), 2048);
    assert!(reader.pop_request().is_none());
    reader.on_frame(user_data(1024), &[0xC0, 0xC3, 0x01, 60, 1, 0x06]);
    match reader.pop_request() {
        Some(TransportRequest::Request(info, request)) => {
            assert_eq!(info, FragmentInfo::new(0, None));
            assert_eq!(request.header.function, FunctionCode::Read);
            assert_eq!(request.header.control.seq, Sequence::new(3));
            assert_eq!(request.raw_fragment, vec![0xC3, 0x01, 60, 1, 0x06]);
            assert_eq!(request.objects.unwrap().headers.len(), 1);
        }
        other => panic!("unexpected {:?}", other),
    }
    assert!(reader.pop_request().is_none());

    // by broadcast, in two segments
    reader.on_frame(user_data(0xFFFF), &[0x41, 0xC4, 0x02]);
    assert!(reader.pop_request().is_none());
    reader.on_frame(user_data(0xFFFF), &[0x82, 80, 1, 0x00, 7, 7, 0]);
    match reader.pop_request() {
        Some(TransportRequest::Request(info, request)) => {
            assert_eq!(
                info,
                FragmentInfo::new(1, Some(BroadcastConfirmMode::Mandatory))
            );
            assert_eq!(request.header.function, FunctionCode::Write);
        }
        other => panic!("unexpected {:?}", other),
    }
}

#[test]
fn reader_hands_out_errors() {
    let mut reader = TransportReader::new(EndpointAddress::from(1024).unwrap(), 2048);
    reader.on_frame(user_data(1024), &[0xC0, 0xC3]);
    assert!(matches!(
        reader.pop_request(),
        Some(TransportRequest::Error(TransportRequestError::HeaderParseError(
            HeaderParseError::InsufficientBytes
        )))
    ));
    reader.on_frame(user_data(1024), &[0xC0, 0xC3, 99]);
    match reader.pop_request() {
        Some(TransportRequest::Error(TransportRequestError::HeaderParseError(
            HeaderParseError::UnknownFunction(seq, 99),
        ))) => assert_eq!(seq, Sequence::new(3)),
        other => panic!("unexpected {:?}", other),
    }
    // not complete in one fragment
    reader.on_frame(user_data(1024), &[0xC0, 0x83, 1]);
    match reader.pop_request() {
        Some(TransportRequest::Error(TransportRequestError::RequestValidationError(
            seq,
            RequestValidationError::NonFirFin,
        ))) => assert_eq!(seq, Sequence::new(3)),
        other => panic!("unexpected {:?}", other),
    }
    // unsolicited bit outside a confirmation
    reader.on_frame(user_data(1024), &[0xC0, 0xD3, 1]);
    assert!(matches!(
        reader.pop_request(),
        Some(TransportRequest::Error(
            TransportRequestError::RequestValidationError(
                _,
                RequestValidationError::UnexpectedUnsBit
            )
        ))
    ));
    // the function code of a response
    reader.on_frame(user_data(1024), &[0xC0, 0xC3, 129]);
    assert!(matches!(
        reader.pop_request(),
        Some(TransportRequest::Error(
            TransportRequestError::RequestValidationError(
                _,
                RequestValidationError::UnexpectedFunction
            )
        ))
    ));
    // an unsolicited confirmation is a valid request
    reader.on_frame(user_data(1024), &[0xC0, 0xD3, 0]);
    match reader.pop_request() {
        Some(TransportRequest::Request(info, _)) => assert_eq!(info.id, 5),
        other => panic!("unexpected {:?}", other),
    }
    assert_eq!(
        validate(RequestHeader::new(
            AppControl::request(Sequence::new(1)),
            FunctionCode::Read
        )),
        None
    );
}

#[test]
fn reader_ignores_frames_for_others() {
    let mut reader = TransportReader::new(EndpointAddress::from(1024).unwrap(), 2048);
    // another destination
    reader.on_frame(user_data(1025), &[0xC0, 0xC3, 1]);
    assert!(reader.pop_request().is_none());
    // not from a master
    reader.on_frame(
        Header::new(ControlField::from(0x44), 1024, 1),
        &[0xC0, 0xC3, 1],
    );
    assert!(reader.pop_request().is_none());
    // no octet of user data
    reader.on_frame(user_data(1024), &[]);
    assert!(reader.pop_request().is_none());
    // a function that carries no user data
    reader.on_frame(Header::new(ControlField::from(0xC0), 1024, 1), &[]);
    assert!(reader.pop_request().is_none());
}

#[test]
fn reader_hands_out_link_layer_messages_first() {
    let mut reader = TransportReader::new(EndpointAddress::from(1024).unwrap(), 2048);
    reader.on_frame(user_data(1024), &[0xC0, 0xC3, 1]);
    reader.on_frame(Header::new(ControlField::from(0x8B), 1024, 1), &[]);
    assert!(matches!(
        reader.pop_request(),
        Some(TransportRequest::LinkLayerMessage(
            LinkLayerMessage::LinkStatusResponse
        ))
    ));
    assert!(matches!(
        reader.pop_request(),
        Some(TransportRequest::Request(_, _))
    ));
    reader.on_frame(Header::new(ControlField::from(0xC9), 1024, 1), &[]);
    assert!(matches!(
        reader.pop_request(),
        Some(TransportRequest::LinkLayerMessage(
            LinkLayerMessage::LinkStatusRequest
        ))
    ));
    reader.on_frame(Header::new(ControlField::from(0xC9), 1024, 1), &[]);
    reader.on_frame(user_data(1024), &[0x40, 0xC3, 1]);
    reader.reset();
    assert!(reader.pop_request().is_none());
    reader.on_frame(user_data(1024), &[0x81, 1]);
    assert!(reader.pop_request().is_none());
}

#[test]
fn writer_cuts_fragments_into_framed_segments() {
    let mut writer = TransportWriter::new(EndpointAddress::from(1024).unwrap());
    assert!(writer.write(1, &[]).is_empty());

    let fragment: Vec<u8> = (0..600).map(|i| (i % 251) as u8).collect();
    let frames = writer.write(1, &fragment);
    assert_eq!(frames.len(), 3);

    // what the link parser and the assembler make of the frames
    let mut parser = Parser::new();
    let mut payload = FramePayload::new();
    let mut assembler = Assembler::new(2048);
    let mut headers = Vec::new();
    for frame in &frames {
        let step = parser.parse(frame, &mut payload);
        assert_eq!(step.consumed, frame.len());
        let header = step.outcome.unwrap().unwrap();
        assert_eq!(header, Header::new(ControlField::from(0x44), 1, 1024));
        let transport = TransportHeader::from(payload.get()[0]);
        headers.push(transport);
        assembler.assemble(transport, &payload.get()[1..], None);
    }
    assert_eq!(
        headers,
        vec![header(false, true, 0), header(false, false, 1), header(true, false, 2)]
    );
    assert_eq!(assembler.take(), Some((fragment.clone(), None)));

    // the sequence numbers go on, and wrap after 63
    let frames = writer.write(1, &fragment[..249]);
    assert_eq!(frames.len(), 1);
    parser.parse(&frames[0], &mut payload);
    assert_eq!(TransportHeader::from(payload.get()[0]), header(true, true, 3));
    assert_eq!(payload.get().len(), 250);
    for _ in 0..59 {
        writer.write(1, &[1]);
    }
    let frames = writer.write(1, &fragment[..250]);
    assert_eq!(frames.len(), 2);
    parser.parse(&frames[0], &mut payload);
    assert_eq!(TransportHeader::from(payload.get()[0]), header(false, true, 63));
    parser.parse(&frames[1], &mut payload);
    assert_eq!(TransportHeader::from(payload.get()[0]), header(true, false, 0));
    assert_eq!(payload.get(), &[0x80, 249]);
    writer.reset();
    let frames = writer.write(7, &[5]);
    parser.parse(&frames[0], &mut payload);
    assert_eq!(payload.get(), &[0xC0, 5]);

    let status = writer.write_link_status_request(1);
    let step = parser.parse(&status, &mut payload);
    assert_eq!(
        step.outcome,
        Ok(Some(Header::new(ControlField::from(0x49), 1, 1024)))
    );
    assert!(payload.get().is_empty());
}
