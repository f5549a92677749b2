use vstd::prelude::*;
use vstd::string::StringExecFns;
use crate::app::timestamp::Timestamp;
use crate::util::bit::BitMask;
use crate::util::time::Millis;

verus! {

/// Two stable states and the states in between.
#[derive(Copy, Clone, Debug, PartialEq, Eq, Structural)]
pub enum DoubleBit {
    /// moving between the end conditions
    Intermediate,
    /// determined to be off
    DeterminedOff,
    /// determined to be on
    DeterminedOn,
    /// abnormal or custom condition
    Indeterminate,
}

impl DoubleBit {
    /// The state that two bits encode.
    pub open spec fn spec_from(high: bool, low: bool) -> DoubleBit {
        if high {
            if low {
                DoubleBit::Indeterminate
            } else {
                DoubleBit::DeterminedOn
            }
        } else {
            if low {
                DoubleBit::DeterminedOff
            } else {
                DoubleBit::Intermediate
            }
        }
    }

    /// The state that two bits encode.
    pub fn from(high: bool, low: bool) -> (d: DoubleBit)
        ensures
            d == Self::spec_from(high, low),
    {
        if high {
            if low {
                DoubleBit::Indeterminate
            } else {
                DoubleBit::DeterminedOn
            }
        } else {
            if low {
                DoubleBit::DeterminedOff
            } else {
                DoubleBit::Intermediate
            }
        }
    }

    /// The name of the state.
    pub fn name(self) -> (s: &'static str)
        ensures
            s@ == spec_double_bit_name(self),
    {
        match self {
            DoubleBit::Intermediate => "Intermediate",
            DoubleBit::DeterminedOff => "DeterminedOff",
            DoubleBit::DeterminedOn => "DeterminedOn",
            DoubleBit::Indeterminate => "Indeterminate",
        }
    }
}

/// The name of a double-bit state.
pub open spec fn spec_double_bit_name(d: DoubleBit) -> Seq<char> {
    match d {
        DoubleBit::Intermediate => "Intermediate"@,
        DoubleBit::DeterminedOff => "DeterminedOff"@,
        DoubleBit::DeterminedOn => "DeterminedOn"@,
        DoubleBit::Indeterminate => "Indeterminate"@,
    }
}

/// A time that is marked as synchronized or not.
#[derive(Copy, Clone, Debug, PartialEq, Eq, Structural)]
pub enum Time {
    /// the time is synchronized to UTC at the device
    Synchronized(Timestamp),
    /// the device says that the time may not be synchronized
    NotSynchronized(Timestamp),
}

impl Time {
    /// The timestamp without the mark.
    pub open spec fn spec_timestamp(&self) -> Timestamp {
        match self {
            Time::Synchronized(ts) => *ts,
            Time::NotSynchronized(ts) => *ts,
        }
    }

    /// True for a synchronized time.
    pub fn is_synchronized(&self) -> (b: bool)
        ensures
            b == (*self is Synchronized),
    {
        match self {
            Time::Synchronized(_) => true,
            Time::NotSynchronized(_) => false,
        }
    }

    /// The synchronized time of `ts` milliseconds since the epoch.
    pub fn synchronized(ts: u64) -> (t: Time)
        ensures
            t is Synchronized,
            t.spec_timestamp()@ == ts % 0x1_0000_0000_0000,
    {
        Time::Synchronized(Timestamp::new(ts))
    }

    /// The time of `ts` milliseconds since the epoch, not known to be
    /// synchronized.
    pub fn not_synchronized(ts: u64) -> (t: Time)
        ensures
            t is NotSynchronized,
            t.spec_timestamp()@ == ts % 0x1_0000_0000_0000,
    {
        Time::NotSynchronized(Timestamp::new(ts))
    }

    /// The time given, or the epoch, not synchronized, when none is given.
    pub fn from(x: Option<Time>) -> (t: Time)
        ensures
            match x {
                Some(time) => t == time,
                None => t is NotSynchronized && t.spec_timestamp()@ == 0,
            },
    {
        match x {
            Some(time) => time,
            None => Time::NotSynchronized(Timestamp::new(0)),
        }
    }

    /// The time `x` milliseconds later, with the same mark, unless it does
    /// not fit in 48 bits.
    pub fn checked_add(self, x: u16) -> (r: Option<Time>)
        ensures
            self.spec_timestamp()@ + x <= Timestamp::MAX_VALUE ==> r is Some && r->0.spec_timestamp()@
                == self.spec_timestamp()@ + x && (r->0 is Synchronized) == (self is Synchronized),
            self.spec_timestamp()@ + x > Timestamp::MAX_VALUE ==> r is None,
    {
        let millis: u64 = x as u64;
        match self {
            Time::Synchronized(ts) => match ts.checked_add(Millis::from_millis(millis)) {
                Some(t) => Some(Time::Synchronized(t)),
                None => None,
            },
            Time::NotSynchronized(ts) => match ts.checked_add(Millis::from_millis(millis)) {
                Some(t) => Some(Time::NotSynchronized(t)),
                None => None,
            },
        }
    }

    /// The timestamp without the mark.
    pub fn timestamp(&self) -> (ts: Timestamp)
        ensures
            ts == self.spec_timestamp(),
    {
        match self {
            Time::Synchronized(ts) => *ts,
            Time::NotSynchronized(ts) => *ts,
        }
    }
}

/// The quality flags of a measurement. What each bit means depends on the
/// type of the measurement.
#[derive(Copy, Clone, Debug, PartialEq, Eq, Structural)]
pub struct Flags {
    /// underlying bit field
    pub value: u8,
}

impl Flags {
    /// the value is good
    pub const ONLINE: u8 = 0x01;

    /// the value has not been updated since the device restarted
    pub const RESTART: u8 = 0x02;

    /// the value is the last one before communication was lost
    pub const COMM_LOST: u8 = 0x04;

    /// the value is overridden in a downstream device
    pub const REMOTE_FORCED: u8 = 0x08;

    /// the value is overridden by the device that reports it
    pub const LOCAL_FORCED: u8 = 0x10;

    /// the value changes state rapidly
    pub const CHATTER_FILTER: u8 = 0x20;

    /// the value exceeds the range of the reported variation
    pub const OVER_RANGE: u8 = 0x20;

    /// the counter cannot be compared with an earlier value
    pub const DISCONTINUITY: u8 = 0x40;

    /// the value may lack the expected accuracy
    pub const REFERENCE_ERR: u8 = 0x40;

    /// The flags with exactly the bits of `value`.
    pub fn new(value: u8) -> (f: Flags)
        ensures
            f.value == value,
    {
        Flags { value }
    }

    /// True when every flag of `other` is set in `self`.
    pub fn is_set(&self, other: Flags) -> (b: bool)
        ensures
            b == (self.value & other.value == other.value),
    {
        (self.value & other.value) == other.value
    }

    /// True when the state bit, bit 7, is set.
    pub fn state(self) -> (b: bool)
        ensures
            b == (self.value & 0x80 != 0),
    {
        (self.value & 0x80) != 0
    }

    /// The double-bit state that bits 7 and 6 encode.
    pub fn double_bit_state(self) -> (d: DoubleBit)
        ensures
            d == DoubleBit::spec_from(self.value & 0x80 != 0, self.value & 0x40 != 0),
    {
        DoubleBit::from((self.value & 0x80) != 0, (self.value & 0x40) != 0)
    }

    /// The flags with the bits of `mask` set or cleared as `value` says.
    pub fn with_bits_set_to(&self, mask: BitMask, value: bool) -> (f: Flags)
        ensures
            f.value == if value {
                self.value | mask.value
            } else {
                self.value & !mask.value
            },
    {
        if value {
            self.with_bits_set(mask)
        } else {
            self.with_bits_cleared(mask)
        }
    }

    /// The flags with the bits of `mask` cleared.
    pub fn with_bits_cleared(&self, mask: BitMask) -> (f: Flags)
        ensures
            f.value == self.value & !mask.value,
    {
        Flags::new(self.value & !mask.value)
    }

    /// The flags with the bits of `mask` set.
    pub fn with_bits_set(&self, mask: BitMask) -> (f: Flags)
        ensures
            f.value == self.value | mask.value,
    {
        Flags::new(self.value | mask.value)
    }

    /// The flags without the bits of `mask`.
    pub fn without(&self, mask: BitMask) -> (f: Flags)
        ensures
            f.value == self.value & !mask.value,
    {
        Flags::new(self.value & !mask.value)
    }
}

impl core::ops::BitOr<Flags> for Flags {
    type Output = Flags;

    fn bitor(self, rhs: Flags) -> (r: Flags) {
        Flags::new(self.value | rhs.value)
    }
}

impl vstd::std_specs::ops::BitOrSpecImpl<Flags> for Flags {
    open spec fn obeys_bitor_spec() -> bool {
        true
    }

    open spec fn bitor_req(self, rhs: Flags) -> bool {
        true
    }

    open spec fn bitor_spec(self, rhs: Flags) -> Flags {
        Flags { value: self.value | rhs.value }
    }
}

impl core::ops::BitOrAssign<Flags> for Flags {
    fn bitor_assign(&mut self, rhs: Flags)
        ensures
            final(self).value == old(self).value | rhs.value,
    {
        self.value = self.value | rhs.value;
    }
}

/// A binary input: groups 1 and 2.
#[derive(Copy, Clone, Debug, PartialEq, Eq, Structural)]
pub struct Binary {
    /// value of the point
    pub value: bool,
    /// quality flags
    pub flags: Flags,
    /// time of the measurement
    pub time: Option<Time>,
}

impl Binary {
    /// A binary input made of its fields.
    pub fn new(value: bool, flags: Flags, time: Time) -> (r: Binary)
        ensures
            r == (Binary { value, flags, time: Some(time) }),
    {
        Binary { value, flags, time: Some(time) }
    }
}

/// A double-bit binary input: groups 3 and 4.
#[derive(Copy, Clone, Debug, PartialEq, Eq, Structural)]
pub struct DoubleBitBinary {
    /// value of the point
    pub value: DoubleBit,
    /// quality flags
    pub flags: Flags,
    /// time of the measurement
    pub time: Option<Time>,
}

impl DoubleBitBinary {
    /// A double-bit binary input made of its fields.
    pub fn new(value: DoubleBit, flags: Flags, time: Time) -> (r: DoubleBitBinary)
        ensures
            r == (DoubleBitBinary { value, flags, time: Some(time) }),
    {
        DoubleBitBinary { value, flags, time: Some(time) }
    }
}

/// The status of a binary output: groups 10 and 11.
#[derive(Copy, Clone, Debug, PartialEq, Eq, Structural)]
pub struct BinaryOutputStatus {
    /// value of the point
    pub value: bool,
    /// quality flags
    pub flags: Flags,
    /// time of the measurement
    pub time: Option<Time>,
}

impl BinaryOutputStatus {
    /// A binary output status made of its fields.
    pub fn new(value: bool, flags: Flags, time: Time) -> (r: BinaryOutputStatus)
        ensures
            r == (BinaryOutputStatus { value, flags, time: Some(time) }),
    {
        BinaryOutputStatus { value, flags, time: Some(time) }
    }
}

/// A counter: groups 20 and 22.
#[derive(Copy, Clone, Debug, PartialEq, Eq, Structural)]
pub struct Counter {
    /// value of the point
    pub value: u32,
    /// quality flags
    pub flags: Flags,
    /// time of the measurement
    pub time: Option<Time>,
}

impl Counter {
    /// A counter made of its fields.
    pub fn new(value: u32, flags: Flags, time: Time) -> (r: Counter)
        ensures
            r == (Counter { value, flags, time: Some(time) }),
    {
        Counter { value, flags, time: Some(time) }
    }
}

/// A frozen counter: groups 21 and 23.
#[derive(Copy, Clone, Debug, PartialEq, Eq, Structural)]
pub struct FrozenCounter {
    /// value of the point
    pub value: u32,
    /// quality flags
    pub flags: Flags,
    /// time of the measurement
    pub time: Option<Time>,
}

impl FrozenCounter {
    /// A frozen counter made of its fields.
    pub fn new(value: u32, flags: Flags, time: Time) -> (r: FrozenCounter)
        ensures
            r == (FrozenCounter { value, flags, time: Some(time) }),
    {
        FrozenCounter { value, flags, time: Some(time) }
    }
}

/// The text so far and whether an item has been written: the state of
/// writing a list of flags.
pub struct FlagText {
    /// the text written
    pub text: Seq<char>,
    /// an item has been written, so the next needs a separator
    pub prev: bool,
}

impl FlagText {
    /// The text with the item `name` added if `is_set`, after a separator
    /// if an item stands before it.
    pub open spec fn push(self, is_set: bool, name: Seq<char>) -> FlagText {
        if is_set {
            FlagText {
                text: if self.prev {
                    self.text + ", "@ + name
                } else {
                    self.text + name
                },
                prev: true,
            }
        } else {
            self
        }
    }

    /// The text with the item `name = value` added, after a separator if an
    /// item stands before it.
    pub open spec fn push_item(self, name: Seq<char>, value: Seq<char>) -> FlagText {
        FlagText {
            text: if self.prev {
                self.text + ", "@ + name + " = "@ + value
            } else {
                self.text + name + " = "@ + value
            },
            prev: true,
        }
    }

    /// The text with the flags of bits 0 to 4 added.
    pub open spec fn push_0_to_4(self, value: u8) -> FlagText {
        self.push(value & 0x01 == 0x01, "ONLINE"@).push(value & 0x02 == 0x02, "RESTART"@).push(
            value & 0x04 == 0x04,
            "COMM_LOST"@,
        ).push(value & 0x08 == 0x08, "REMOTE_FORCED"@).push(value & 0x10 == 0x10, "LOCAL_FORCED"@)
    }

    /// The text with the flags of bits 0 to 5 of a binary point added.
    pub open spec fn push_0_to_5(self, value: u8) -> FlagText {
        self.push_0_to_4(value).push(value & 0x20 == 0x20, "CHATTER_FILTER"@)
    }
}

/// The hexadecimal digit of a number below 16.
pub open spec fn spec_hex_digit(n: u8) -> Seq<char> {
    if n == 0 {
        "0"@
    } else if n == 1 {
        "1"@
    } else if n == 2 {
        "2"@
    } else if n == 3 {
        "3"@
    } else if n == 4 {
        "4"@
    } else if n == 5 {
        "5"@
    } else if n == 6 {
        "6"@
    } else if n == 7 {
        "7"@
    } else if n == 8 {
        "8"@
    } else if n == 9 {
        "9"@
    } else if n == 10 {
        "A"@
    } else if n == 11 {
        "B"@
    } else if n == 12 {
        "C"@
    } else if n == 13 {
        "D"@
    } else if n == 14 {
        "E"@
    } else {
        "F"@
    }
}

/// The hexadecimal digit of a number below 16.
pub fn hex_digit(n: u8) -> (s: &'static str)
    ensures
        s@ == spec_hex_digit(n),
{
    match n {
        0 => "0",
        1 => "1",
        2 => "2",
        3 => "3",
        4 => "4",
        5 => "5",
        6 => "6",
        7 => "7",
        8 => "8",
        9 => "9",
        10 => "A",
        11 => "B",
        12 => "C",
        13 => "D",
        14 => "E",
        _ => "F",
    }
}

/// The text that opens a list of flags: the octet in two hexadecimal
/// digits after `0x`, a blank and an opening bracket.
pub open spec fn spec_begin(value: u8) -> Seq<char> {
    "0x"@ + spec_hex_digit(value / 16) + spec_hex_digit(value % 16) + " ["@
}

/// Writes a list of flags, item by item, with separators between them.
pub struct FlagFormatter {
    prev: bool,
}

impl FlagFormatter {
    /// True once an item has been written.
    pub closed spec fn prev(&self) -> bool {
        self.prev
    }

    /// A formatter that has written nothing yet.
    pub fn new() -> (f: FlagFormatter)
        ensures
            !f.prev(),
    {
        FlagFormatter { prev: false }
    }

    /// Writes the item `text` if `is_set`, after a separator if an item
    /// stands before it.
    pub fn push(&mut self, is_set: bool, text: &str, f: &mut String)
        ensures
            (FlagText { text: final(f)@, prev: final(self).prev() }) == (FlagText {
                text: old(f)@,
                prev: old(self).prev(),
            }).push(is_set, text@),
    {
        if is_set {
            if self.prev {
                f.append(", ");
            }
            self.prev = true;
            f.append(text);
        }
    }

    /// Writes what opens a list of flags.
    pub fn begin(flags: Flags, f: &mut String)
        ensures
            final(f)@ == old(f)@ + spec_begin(flags.value),
    {
        f.append("0x");
        f.append(hex_digit(flags.value / 16));
        f.append(hex_digit(flags.value % 16));
        f.append(" [");
        proof {
            assert(f@ =~= old(f)@ + spec_begin(flags.value));
        }
    }

    /// Writes what closes a list of flags.
    pub fn end(f: &mut String)
        ensures
            final(f)@ == old(f)@ + "]"@,
    {
        f.append("]");
    }

    /// Writes the flags of bits 0 to 4, which mean the same for every type.
    pub fn format_binary_flags_0_to_4(&mut self, flags: Flags, f: &mut String)
        ensures
            (FlagText { text: final(f)@, prev: final(self).prev() }) == (FlagText {
                text: old(f)@,
                prev: old(self).prev(),
            }).push_0_to_4(flags.value),
    {
        self.push(flags.is_set(Flags::new(Flags::ONLINE)), "ONLINE", f);
        self.push(flags.is_set(Flags::new(Flags::RESTART)), "RESTART", f);
        self.push(flags.is_set(Flags::new(Flags::COMM_LOST)), "COMM_LOST", f);
        self.push(flags.is_set(Flags::new(Flags::REMOTE_FORCED)), "REMOTE_FORCED", f);
        self.push(flags.is_set(Flags::new(Flags::LOCAL_FORCED)), "LOCAL_FORCED", f);
    }

    /// Writes the flags of bits 0 to 5 of a binary point.
    pub fn format_binary_flags_0_to_5(&mut self, flags: Flags, f: &mut String)
        ensures
            (FlagText { text: final(f)@, prev: final(self).prev() }) == (FlagText {
                text: old(f)@,
                prev: old(self).prev(),
            }).push_0_to_5(flags.value),
    {
        self.format_binary_flags_0_to_4(flags, f);
        self.push(flags.is_set(Flags::new(Flags::CHATTER_FILTER)), "CHATTER_FILTER", f);
    }

    /// Writes the item `name = item`, after a separator if an item stands
    /// before it.
    pub fn push_debug_item(&mut self, name: &str, item: &str, f: &mut String)
        ensures
            (FlagText { text: final(f)@, prev: final(self).prev() }) == (FlagText {
                text: old(f)@,
                prev: old(self).prev(),
            }).push_item(name@, item@),
    {
        if self.prev {
            f.append(", ");
        }
        self.prev = true;
        f.append(name);
        f.append(" = ");
        f.append(item);
        proof {
            assert((FlagText { text: f@, prev: true }).text =~= (FlagText {
                text: old(f)@,
                prev: old(self).prev(),
            }).push_item(name@, item@).text);
        }
    }
}

/// The text that opens a list of flags, as the state of writing the list.
pub open spec fn begun(value: u8) -> FlagText {
    FlagText { text: spec_begin(value), prev: false }
}

/// The flags of a binary input as text.
pub open spec fn spec_binary_flags(value: u8) -> Seq<char> {
    begun(value).push_0_to_5(value).push(value & 0x40 != 0, "RESERVED(6)"@).push(
        value & 0x80 != 0,
        "STATE"@,
    ).text + "]"@
}

/// The flags of a double-bit binary input as text.
pub open spec fn spec_double_bit_binary_flags(value: u8) -> Seq<char> {
    begun(value).push_0_to_5(value).push_item(
        "state"@,
        spec_double_bit_name(DoubleBit::spec_from(value & 0x80 != 0, value & 0x40 != 0)),
    ).text + "]"@
}

/// The flags of a binary output status as text.
pub open spec fn spec_binary_output_status_flags(value: u8) -> Seq<char> {
    begun(value).push_0_to_4(value).push(value & 0x20 != 0, "RESERVED(5)"@).push(
        value & 0x40 != 0,
        "RESERVED(6)"@,
    ).push(value & 0x80 != 0, "STATE"@).text + "]"@
}

/// The flags of a counter as text.
pub open spec fn spec_counter_flags(value: u8) -> Seq<char> {
    begun(value).push_0_to_4(value).push(value & 0x20 != 0, "ROLLOVER"@).push(
        value & 0x40 != 0,
        "DISCONTINUITY"@,
    ).push(value & 0x80 != 0, "RESERVED(7)"@).text + "]"@
}

/// The flags of an analog input as text.
pub open spec fn spec_analog_flags(value: u8) -> Seq<char> {
    begun(value).push_0_to_4(value).push(value & 0x20 != 0, "OVER_RANGE"@).push(
        value & 0x40 != 0,
        "REFERENCE_ERR"@,
    ).push(value & 0x80 != 0, "RESERVED(7)"@).text + "]"@
}

/// Writes the flags of a binary input as text.
pub struct BinaryFlagFormatter {
    flags: Flags,
}

impl BinaryFlagFormatter {
    /// The flags to write.
    pub closed spec fn flags(&self) -> Flags {
        self.flags
    }

    /// A formatter for the flags `value`.
    pub fn new(value: u8) -> (f: BinaryFlagFormatter)
        ensures
            f.flags().value == value,
    {
        BinaryFlagFormatter { flags: Flags::new(value) }
    }

    /// The flags as text: the octet in hexadecimal, then the names of the
    /// flags that are set, in brackets.
    pub fn fmt(&self) -> (s: String)
        ensures
            s@ == spec_binary_flags(self.flags().value),
    {
        let mut f = String::new();
        let mut formatter = FlagFormatter::new();
        FlagFormatter::begin(self.flags, &mut f);
        formatter.format_binary_flags_0_to_5(self.flags, &mut f);
        formatter.push((self.flags.value & 0x40) != 0, "RESERVED(6)", &mut f);
        formatter.push((self.flags.value & 0x80) != 0, "STATE", &mut f);
        FlagFormatter::end(&mut f);
        f
    }
}

/// Writes the flags of a double-bit binary input as text.
pub struct DoubleBitBinaryFlagFormatter {
    flags: Flags,
}

impl DoubleBitBinaryFlagFormatter {
    /// The flags to write.
    pub closed spec fn flags(&self) -> Flags {
        self.flags
    }

    /// A formatter for the flags `value`.
    pub fn new(value: u8) -> (f: DoubleBitBinaryFlagFormatter)
        ensures
            f.flags().value == value,
    {
        DoubleBitBinaryFlagFormatter { flags: Flags::new(value) }
    }

    /// The flags as text: the octet in hexadecimal, then the names of the
    /// flags that are set and the state that bits 7 and 6 encode, in
    /// brackets.
    pub fn fmt(&self) -> (s: String)
        ensures
            s@ == spec_double_bit_binary_flags(self.flags().value),
    {
        let mut f = String::new();
        let mut formatter = FlagFormatter::new();
        FlagFormatter::begin(self.flags, &mut f);
        formatter.format_binary_flags_0_to_5(self.flags, &mut f);
        formatter.push_debug_item("state", self.flags.double_bit_state().name(), &mut f);
        FlagFormatter::end(&mut f);
        f
    }
}

/// Writes the flags of a binary output status as text.
pub struct BinaryOutputStatusFlagFormatter {
    flags: Flags,
}

impl BinaryOutputStatusFlagFormatter {
    /// The flags to write.
    pub closed spec fn flags(&self) -> Flags {
        self.flags
    }

    /// A formatter for the flags `value`.
    pub fn new(value: u8) -> (f: BinaryOutputStatusFlagFormatter)
        ensures
            f.flags().value == value,
    {
        BinaryOutputStatusFlagFormatter { flags: Flags::new(value) }
    }

    /// The flags as text: the octet in hexadecimal, then the names of the
    /// flags that are set, in brackets.
    pub fn fmt(&self) -> (s: String)
        ensures
            s@ == spec_binary_output_status_flags(self.flags().value),
    {
        let mut f = String::new();
        let mut formatter = FlagFormatter::new();
        FlagFormatter::begin(self.flags, &mut f);
        formatter.format_binary_flags_0_to_4(self.flags, &mut f);
        formatter.push((self.flags.value & 0x20) != 0, "RESERVED(5)", &mut f);
        formatter.push((self.flags.value & 0x40) != 0, "RESERVED(6)", &mut f);
        formatter.push((self.flags.value & 0x80) != 0, "STATE", &mut f);
        FlagFormatter::end(&mut f);
        f
    }
}

/// Writes the flags of a counter as text.
pub struct CounterFlagFormatter {
    flags: Flags,
}

impl CounterFlagFormatter {
    /// The flags to write.
    pub closed spec fn flags(&self) -> Flags {
        self.flags
    }

    /// A formatter for the flags `value`.
    pub fn new(value: u8) -> (f: CounterFlagFormatter)
        ensures
            f.flags().value == value,
    {
        CounterFlagFormatter { flags: Flags::new(value) }
    }

    /// The flags as text: the octet in hexadecimal, then the names of the
    /// flags that are set, in brackets.
    pub fn fmt(&self) -> (s: String)
        ensures
            s@ == spec_counter_flags(self.flags().value),
    {
        let mut f = String::new();
        let mut formatter = FlagFormatter::new();
        FlagFormatter::begin(self.flags, &mut f);
        formatter.format_binary_flags_0_to_4(self.flags, &mut f);
        formatter.push((self.flags.value & 0x20) != 0, "ROLLOVER", &mut f);
        formatter.push((self.flags.value & 0x40) != 0, "DISCONTINUITY", &mut f);
        formatter.push((self.flags.value & 0x80) != 0, "RESERVED(7)", &mut f);
        FlagFormatter::end(&mut f);
        f
    }
}

/// Writes the flags of an analog input as text.
pub struct AnalogFlagFormatter {
    flags: Flags,
}

impl AnalogFlagFormatter {
    /// The flags to write.
    pub closed spec fn flags(&self) -> Flags {
        self.flags
    }

    /// A formatter for the flags `value`.
    pub fn new(value: u8) -> (f: AnalogFlagFormatter)
        ensures
            f.flags().value == value,
    {
        AnalogFlagFormatter { flags: Flags::new(value) }
    }

    /// The flags as text: the octet in hexadecimal, then the names of the
    /// flags that are set, in brackets.
    pub fn fmt(&self) -> (s: String)
        ensures
            s@ == spec_analog_flags(self.flags().value),
    {
        let mut f = String::new();
        let mut formatter = FlagFormatter::new();
        FlagFormatter::begin(self.flags, &mut f);
        formatter.format_binary_flags_0_to_4(self.flags, &mut f);
        formatter.push((self.flags.value & 0x20) != 0, "OVER_RANGE", &mut f);
        formatter.push((self.flags.value & 0x40) != 0, "REFERENCE_ERR", &mut f);
        formatter.push((self.flags.value & 0x80) != 0, "RESERVED(7)", &mut f);
        FlagFormatter::end(&mut f);
        f
    }
}

/// Why an octet string could not be made.
#[derive(Copy, Clone, Debug, PartialEq, Eq, Structural)]
pub enum OctetStringError {
    /// an octet string holds one octet at least
    ZeroLength,
    /// an octet string holds 255 octets at most
    MoreThan255Octets,
}

/// An octet string: groups 110 and 111. It holds from 1 to 255 octets. The
/// default is the single octet zero, an empty string as C has it.
#[derive(Debug, PartialEq)]
pub struct OctetString {
    value: Vec<u8>,
}

impl View for OctetString {
    type V = Seq<u8>;

    closed spec fn view(&self) -> Seq<u8> {
        self.value@
    }
}

impl OctetString {
    /// Largest number of octets in an octet string.
    pub const MAX_SIZE: usize = 255;

    /// An octet string holds from 1 to 255 octets.
    #[verifier::type_invariant]
    spec fn within_limits(self) -> bool {
        1 <= self.value@.len() <= 255
    }

    /// An octet string with the octets of `value`, which must be from 1 to
    /// 255.
    pub fn new(value: &[u8]) -> (r: Result<OctetString, OctetStringError>)
        ensures
            value@.len() == 0 ==> r == Err::<OctetString, OctetStringError>(
                OctetStringError::ZeroLength,
            ),
            value@.len() > 255 ==> r == Err::<OctetString, OctetStringError>(
                OctetStringError::MoreThan255Octets,
            ),
            1 <= value@.len() <= 255 ==> r is Ok && r->Ok_0@ == value@,
    {
        let len: usize = value.len();
        if len == 0 {
            return Err(OctetStringError::ZeroLength);
        }
        if len > 255 {
            return Err(OctetStringError::MoreThan255Octets);
        }
        let mut octets: Vec<u8> = Vec::new();
        let mut i: usize = 0;
        while i < len
            invariant
                len == value@.len(),
                i <= len,
                octets@ == value@.subrange(0, i as int),
            decreases len - i,
        {
            octets.push(value[i]);
            i = i + 1;
            proof {
                assert(octets@ =~= value@.subrange(0, i as int));
            }
        }
        proof {
            assert(value@.subrange(0, len as int) =~= value@);
        }
        Ok(OctetString { value: octets })
    }

    /// The octets of the string.
    pub fn value(&self) -> (v: &[u8])
        ensures
            v@ == self@,
    {
        self.value.as_slice()
    }

    /// The number of octets.
    pub fn len(&self) -> (n: u8)
        ensures
            n == self@.len(),
            n >= 1,
    {
        proof {
            use_type_invariant(self);
        }
        self.value.len() as u8
    }

    /// A copy of the octets, of the exact size of the string.
    pub fn as_boxed_slice(&self) -> (v: Vec<u8>)
        ensures
            v@ == self@,
    {
        let n: usize = self.value.len();
        let mut octets: Vec<u8> = Vec::new();
        let mut i: usize = 0;
        while i < n
            invariant
                n == self.value@.len(),
                i <= n,
                octets@ == self.value@.subrange(0, i as int),
            decreases n - i,
        {
            octets.push(self.value[i]);
            i = i + 1;
            proof {
                assert(octets@ =~= self.value@.subrange(0, i as int));
            }
        }
        proof {
            assert(self.value@.subrange(0, n as int) =~= self.value@);
        }
        octets
    }
}

impl Clone for OctetString {
    fn clone(&self) -> (r: OctetString)
        ensures
            r@ == self@,
    {
        proof {
            use_type_invariant(self);
        }
        OctetString { value: self.as_boxed_slice() }
    }
}

impl Default for OctetString {
    fn default() -> (r: OctetString)
        ensures
            r@ == seq![0u8],
    {
        let mut value: Vec<u8> = Vec::new();
        value.push(0);
        let r = OctetString { value };
        proof {
            assert(r@ =~= seq![0u8]);
        }
        r
    }
}

} // verus!
