use dnp3::app::iin::Iin2;
use dnp3::app::parse::{AllObjectsVariation, HeaderCollection, HeaderDetails, ObjectHeader};
use dnp3::app::parser::parse_request;
use dnp3::app::sequence::Sequence;
use dnp3::app::variations::Variation;
use dnp3::outstation::database::{
    Database, EventClass, EventClasses, EventsInfo, ReadHeader, ResponseInfo,
};
use dnp3::outstation::deferred::DeferredRead;
use dnp3::transport::FragmentInfo;

fn headers(octets: &[u8]) -> HeaderCollection {
    let mut fragment = vec![0xC0, 1];
    fragment.extend_from_slice(octets);
    parse_request(&fragment).unwrap().objects.unwrap()
}

fn events() -> Database {
    let mut db = Database::new(10);
    db.push_event(EventClass::Class1, vec![0x11; 3]);
    db.push_event(EventClass::Class2, vec![0x22; 4]);
    db.push_event(EventClass::Class1, vec![0x13; 5]);
    db.push_event(EventClass::Class3, vec![0x33; 6]);
    db
}

#[test]
fn read_followed_by_confirm_drains_events_once() {
    let mut db = events();
    let iin2 = db.select(&headers(&[60, 2, 0x06, 60, 4, 0x06]));
    assert_eq!(iin2, Iin2::new(0));
    let mut buffer = vec![0u8; 32];
    let (info, end) = db.write_response_headers(&mut buffer, 4);
    assert_eq!(
        info,
        ResponseInfo {
            has_events: true,
            complete: true
        }
    );
    assert!(info.need_confirm());
    assert_eq!(end, 4 + 3 + 5 + 6);
    assert_eq!(&buffer[..4], &[0; 4]);
    assert_eq!(&buffer[4..7], &[0x11; 3]);
    assert_eq!(&buffer[7..12], &[0x13; 5]);
    assert_eq!(&buffer[12..18], &[0x33; 6]);
    assert_eq!(&buffer[18..], &[0; 14]);
    assert_eq!(db.num_events(), 4);
    assert_eq!(
        db.get_events_info().unwritten_classes,
        EventClasses::new(false, true, false)
    );

    db.clear_written_events();
    assert_eq!(db.num_events(), 1);
    assert_eq!(
        db.get_events_info().unwritten_classes,
        EventClasses::new(false, true, false)
    );
    // a second confirmation finds nothing more
    db.clear_written_events();
    assert_eq!(db.num_events(), 1);
    // nothing of what was drained is reported again
    db.select(&headers(&[60, 2, 0x06, 60, 3, 0x06, 60, 4, 0x06]));
    let (info, end) = db.write_response_headers(&mut buffer, 4);
    assert_eq!(end, 8);
    assert_eq!(&buffer[4..8], &[0x22; 4]);
    assert!(info.complete && info.has_events);
}

#[test]
fn read_followed_by_timeout_restores_events() {
    let mut db = events();
    db.select(&headers(&[60, 2, 0x06, 60, 3, 0x06, 60, 4, 0x06]));
    let mut buffer = vec![0u8; 32];
    let (_, end) = db.write_response_headers(&mut buffer, 4);
    assert_eq!(end, 4 + 18);
    assert_eq!(db.get_events_info().unwritten_classes, EventClasses::none());
    db.reset();
    assert_eq!(db.num_events(), 4);
    assert_eq!(db.get_events_info().unwritten_classes, EventClasses::all());
    // the same events are reported by the next read
    let mut again = vec![0u8; 32];
    db.select(&headers(&[60, 2, 0x06, 60, 3, 0x06, 60, 4, 0x06]));
    let (_, end) = db.write_response_headers(&mut again, 4);
    assert_eq!(end, 4 + 18);
    assert_eq!(again, buffer);
}

#[test]
fn response_in_several_fragments() {
    let mut db = events();
    db.push_static(vec![0xA0; 7]);
    db.push_static(vec![0xA1; 8]);
    db.select(&headers(&[60, 1, 0x06, 60, 2, 0x06, 60, 3, 0x06, 60, 4, 0x06]));
    let mut buffer = vec![0u8; 4 + 10];
    // events come first, as far as they fit
    let (info, end) = db.write_response_headers(&mut buffer, 4);
    assert_eq!((info.has_events, info.complete, end), (true, false, 4 + 7));
    assert_eq!(&buffer[4..11], &[0x11, 0x11, 0x11, 0x22, 0x22, 0x22, 0x22]);
    db.clear_written_events();
    let (info, end) = db.write_response_headers(&mut buffer, 4);
    assert_eq!((info.has_events, info.complete, end), (true, false, 4 + 5));
    db.clear_written_events();
    // the last event, and no room for the first static object
    let (info, end) = db.write_response_headers(&mut buffer, 4);
    assert_eq!((info.has_events, info.complete, end), (true, false, 4 + 6));
    db.clear_written_events();
    assert_eq!(db.num_events(), 0);
    let (info, end) = db.write_response_headers(&mut buffer, 4);
    assert_eq!((info.has_events, info.complete, end), (false, false, 4 + 7));
    assert!(info.need_confirm());
    let (info, end) = db.write_response_headers(&mut buffer, 4);
    assert_eq!((info.has_events, info.complete, end), (false, true, 4 + 8));
    assert!(!info.need_confirm());
    assert_eq!(&buffer[4..12], &[0xA1; 8]);
    // nothing is left
    let (info, end) = db.write_response_headers(&mut buffer, 4);
    assert_eq!((info.has_events, info.complete, end), (false, true, 4));
}

#[test]
fn start_beyond_the_buffer_writes_nothing() {
    let mut db = events();
    db.select(&headers(&[60, 2, 0x06]));
    let mut buffer = vec![7u8; 3];
    let (info, end) = db.write_response_headers(&mut buffer, 4);
    assert_eq!((info.has_events, info.complete, end), (false, false, 4));
    assert_eq!(buffer, vec![7u8; 3]);
    let (count, end) = db.write_unsolicited(EventClasses::all(), &mut buffer, 9);
    assert_eq!((count, end), (0, 9));
}

#[test]
fn select_of_other_objects_raises_no_func_code_support() {
    let mut db = events();
    assert_eq!(
        db.select(&headers(&[20, 0, 0x06])),
        Iin2::new(Iin2::NO_FUNC_CODE_SUPPORT)
    );
    assert_eq!(
        db.select(&headers(&[60, 2, 0x06, 20, 0, 0x00, 1, 2])),
        Iin2::new(Iin2::NO_FUNC_CODE_SUPPORT)
    );
    assert_eq!(
        db.select_read_headers(&vec![
            ReadHeader::AllObjects(AllObjectsVariation::Group60Var2),
            ReadHeader::Unsupported
        ]),
        Iin2::new(Iin2::NO_FUNC_CODE_SUPPORT)
    );
    assert_eq!(db.select_read_headers(&vec![]), Iin2::new(0));
    assert_eq!(
        ReadHeader::get(&HeaderDetails::AllObjects(AllObjectsVariation::Group60Var1)),
        ReadHeader::AllObjects(AllObjectsVariation::Group60Var1)
    );
}

#[test]
fn unsolicited_fragment_takes_enabled_classes() {
    let mut db = events();
    let mut buffer = vec![0u8; 16];
    assert_eq!(
        db.write_unsolicited(EventClasses::none(), &mut buffer, 4),
        (0, 4)
    );
    let (count, end) = db.write_unsolicited(EventClasses::new(false, true, true), &mut buffer, 4);
    assert_eq!((count, end), (2, 14));
    assert_eq!(&buffer[4..8], &[0x22; 4]);
    assert_eq!(&buffer[8..14], &[0x33; 6]);
    assert_eq!(
        db.get_events_info().unwritten_classes,
        EventClasses::new(true, false, false)
    );
    db.reset();
    assert_eq!(db.get_events_info().unwritten_classes, EventClasses::all());
}

#[test]
fn full_event_buffer_loses_oldest_event() {
    let mut db = Database::new(2);
    assert_eq!(
        db.get_events_info(),
        EventsInfo {
            unwritten_classes: EventClasses::none(),
            is_overflown: false
        }
    );
    db.push_event(EventClass::Class1, vec![1]);
    db.push_event(EventClass::Class2, vec![2]);
    assert!(!db.get_events_info().is_overflown);
    db.push_event(EventClass::Class3, vec![3]);
    assert_eq!(db.num_events(), 2);
    assert_eq!(
        db.get_events_info(),
        EventsInfo {
            unwritten_classes: EventClasses::new(false, true, true),
            is_overflown: true
        }
    );
    // the mark goes when a confirmation has made room
    db.select(&headers(&[60, 3, 0x06]));
    let mut buffer = vec![0u8; 8];
    db.write_response_headers(&mut buffer, 4);
    db.clear_written_events();
    assert_eq!(db.num_events(), 1);
    assert!(!db.get_events_info().is_overflown);

    let mut none = Database::new(0);
    none.push_event(EventClass::Class1, vec![1]);
    assert_eq!(none.num_events(), 0);
    assert!(none.get_events_info().is_overflown);
}

#[test]
fn event_classes() {
    assert!(!EventClasses::none().any());
    assert!(EventClasses::all().any());
    let c = EventClasses::new(false, true, false);
    assert!(c.any());
    assert!(!c.contains(EventClass::Class1));
    assert!(c.contains(EventClass::Class2));
    assert!(!c.contains(EventClass::Class3));
}

#[test]
fn deferred_read_keeps_one_request() {
    let mut db = events();
    db.push_static(vec![0xA0; 2]);
    let mut deferred = DeferredRead::new(2);
    assert!(!deferred.is_set());
    assert_eq!(deferred.select(&mut db), None);

    deferred.set(
        1,
        Sequence::new(4),
        FragmentInfo::new(9, None),
        &headers(&[60, 2, 0x06]),
    );
    deferred.set(
        2,
        Sequence::new(5),
        FragmentInfo::new(10, None),
        &headers(&[60, 1, 0x06, 20, 0, 0x06]),
    );
    assert!(deferred.is_set());
    let info = deferred.select(&mut db).unwrap();
    assert_eq!(info.hash, 2);
    assert_eq!(info.seq, Sequence::new(5));
    assert_eq!(info.info, FragmentInfo::new(10, None));
    assert_eq!(info.iin2, Iin2::new(Iin2::NO_FUNC_CODE_SUPPORT));
    assert!(!deferred.is_set());
    let mut buffer = vec![0u8; 8];
    let (info, end) = db.write_response_headers(&mut buffer, 4);
    assert_eq!((info.has_events, info.complete, end), (false, true, 6));

    // more headers than can be kept
    deferred.set(
        3,
        Sequence::new(6),
        FragmentInfo::new(11, None),
        &headers(&[60, 2, 0x06, 60, 3, 0x06, 60, 4, 0x06]),
    );
    let info = deferred.select(&mut db).unwrap();
    assert_eq!(info.iin2, Iin2::new(Iin2::PARAMETER_ERROR));
    let (_, end) = db.write_response_headers(&mut buffer, 0);
    assert_eq!(end, 7);
    deferred.set(
        3,
        Sequence::new(6),
        FragmentInfo::new(11, None),
        &headers(&[60, 2, 0x06]),
    );
    deferred.clear();
    assert!(!deferred.is_set());
    let _ = ObjectHeader {
        variation: Variation { group: 60, var: 1 },
        details: HeaderDetails::AllObjects(AllObjectsVariation::Group60Var1),
    };
}
