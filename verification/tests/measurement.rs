use dnp3::app::measurement::{
    AnalogFlagFormatter, Binary, BinaryFlagFormatter, BinaryOutputStatus,
    BinaryOutputStatusFlagFormatter, Counter, CounterFlagFormatter, DoubleBit, DoubleBitBinary,
    DoubleBitBinaryFlagFormatter, Flags, FrozenCounter, OctetString, OctetStringError, Time,
};
use dnp3::util::bit::BitMask;

#[test]
fn octet_string_methods() {
    let octet_string = OctetString::new(&[0, 1, 2, 3, 4]).unwrap();
    assert_eq!(5, octet_string.len());
    assert_eq!(&[0, 1, 2, 3, 4], octet_string.value());
    assert_eq!(&[0, 1, 2, 3, 4], &*octet_string.as_boxed_slice());
}

#[test]
fn new_octet_string_zero_length() {
    assert_eq!(Err(OctetStringError::ZeroLength), OctetString::new(&[]));
}

#[test]
fn new_octet_string_greater_size() {
    assert_eq!(
        Err(OctetStringError::MoreThan255Octets),
        OctetString::new(&[0; 500])
    );
}

#[test]
fn octet_string_default_value() {
    assert_eq!(&[0x00], OctetString::default().value());
}

#[test]
fn flag_bit_or_works() {
    let flags = Flags::new(Flags::ONLINE) | Flags::new(Flags::LOCAL_FORCED);
    assert_eq!(flags.value, 0b0001_0001);
}

#[test]
fn flag_bit_or_assign_works() {
    let mut flags = Flags::new(Flags::ONLINE);
    flags |= Flags::new(Flags::LOCAL_FORCED);
    assert_eq!(flags.value, 0b0001_0001);
}

#[test]
fn formats_binary_flags() {
    assert_eq!(format!("{}", BinaryFlagFormatter::new(0).fmt()), "0x00 []");
    assert_eq!(
        format!("{}", BinaryFlagFormatter::new(0b1100_0001).fmt()),
        "0xC1 [ONLINE, RESERVED(6), STATE]"
    );
}

#[test]
fn formats_double_flags() {
    assert_eq!(
        format!("{}", DoubleBitBinaryFlagFormatter::new(0).fmt()),
        "0x00 [state = Intermediate]"
    );
    assert_eq!(
        format!("{}", DoubleBitBinaryFlagFormatter::new(0b1100_0001).fmt()),
        "0xC1 [ONLINE, state = Indeterminate]"
    );
}

#[test]
fn octet_string_length_limits() {
    assert!(OctetString::new(&[7]).is_ok());
    assert_eq!(OctetString::new(&[7]).unwrap().len(), 1);
    let longest = [1u8; 255];
    let s = OctetString::new(&longest).unwrap();
    assert_eq!(s.len(), 255);
    assert_eq!(s.value(), &longest[..]);
    assert_eq!(
        OctetString::new(&[1u8; 256]),
        Err(OctetStringError::MoreThan255Octets)
    );
}

#[test]
fn formats_other_flags() {
    assert_eq!(
        BinaryOutputStatusFlagFormatter::new(0b1110_0000).fmt(),
        "0xE0 [RESERVED(5), RESERVED(6), STATE]"
    );
    assert_eq!(
        CounterFlagFormatter::new(0b0110_0010).fmt(),
        "0x62 [RESTART, ROLLOVER, DISCONTINUITY]"
    );
    assert_eq!(
        AnalogFlagFormatter::new(0b1111_1111).fmt(),
        "0xFF [ONLINE, RESTART, COMM_LOST, REMOTE_FORCED, LOCAL_FORCED, OVER_RANGE, REFERENCE_ERR, RESERVED(7)]"
    );
    assert_eq!(BinaryFlagFormatter::new(0x2A).fmt(), "0x2A [RESTART, REMOTE_FORCED, CHATTER_FILTER]");
}

#[test]
fn flags_bit_helpers() {
    let flags = Flags::new(0b1000_0001);
    assert!(flags.is_set(Flags::new(Flags::ONLINE)));
    assert!(!flags.is_set(Flags::new(Flags::RESTART)));
    assert!(flags.state());
    assert_eq!(flags.double_bit_state(), DoubleBit::DeterminedOn);
    assert_eq!(Flags::new(0x40).double_bit_state(), DoubleBit::DeterminedOff);
    let mask = BitMask { value: 0x20 };
    assert_eq!(flags.with_bits_set(mask).value, 0b1010_0001);
    assert_eq!(flags.with_bits_set_to(mask, true).value, 0b1010_0001);
    assert_eq!(Flags::new(0xFF).with_bits_set_to(mask, false).value, 0b1101_1111);
    assert_eq!(Flags::new(0xFF).with_bits_cleared(mask).value, 0b1101_1111);
    assert_eq!(Flags::new(0xFF).without(mask).value, 0b1101_1111);
}

#[test]
fn time_and_measurements() {
    let t = Time::synchronized(1000);
    assert!(t.is_synchronized());
    assert_eq!(t.timestamp().raw_value(), 1000);
    let u = Time::not_synchronized(5);
    assert!(!u.is_synchronized());
    assert_eq!(u.checked_add(10).unwrap().timestamp().raw_value(), 15);
    assert!(!u.checked_add(10).unwrap().is_synchronized());
    assert_eq!(Time::synchronized(0x0000_FFFF_FFFF_FFFF).checked_add(1), None);
    assert_eq!(
        Time::synchronized(0x0000_FFFF_FFFF_FFFE).checked_add(1),
        Some(Time::synchronized(0x0000_FFFF_FFFF_FFFF))
    );
    assert_eq!(Time::from(None).timestamp().raw_value(), 0);
    assert!(!Time::from(None).is_synchronized());
    assert_eq!(Time::from(Some(t)), t);

    let flags = Flags::new(Flags::ONLINE);
    let b = Binary::new(true, flags, t);
    assert_eq!((b.value, b.flags, b.time), (true, flags, Some(t)));
    let d = DoubleBitBinary::new(DoubleBit::DeterminedOn, flags, t);
    assert_eq!((d.value, d.flags, d.time), (DoubleBit::DeterminedOn, flags, Some(t)));
    let o = BinaryOutputStatus::new(false, flags, t);
    assert_eq!((o.value, o.flags, o.time), (false, flags, Some(t)));
    let c = Counter::new(42, flags, t);
    assert_eq!((c.value, c.flags, c.time), (42, flags, Some(t)));
    let f = FrozenCounter::new(43, flags, t);
    assert_eq!((f.value, f.flags, f.time), (43, flags, Some(t)));
}
