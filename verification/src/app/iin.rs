use vstd::prelude::*;

verus! {

/// First octet of the internal indications.
#[derive(Copy, Clone, Debug, PartialEq, Eq, Structural)]
pub struct Iin1 {
    /// underlying bit field
    pub value: u8,
}

/// Second octet of the internal indications.
#[derive(Copy, Clone, Debug, PartialEq, Eq, Structural)]
pub struct Iin2 {
    /// underlying bit field
    pub value: u8,
}

/// Internal indications: the device status that every response carries.
#[derive(Copy, Clone, Debug, PartialEq, Eq, Structural)]
pub struct Iin {
    /// first octet
    pub iin1: Iin1,
    /// second octet
    pub iin2: Iin2,
}

impl Iin1 {
    /// a broadcast message was received
    pub const BROADCAST: u8 = 0x01;

    /// class 1 events are waiting
    pub const CLASS_1_EVENTS: u8 = 0x02;

    /// class 2 events are waiting
    pub const CLASS_2_EVENTS: u8 = 0x04;

    /// class 3 events are waiting
    pub const CLASS_3_EVENTS: u8 = 0x08;

    /// the outstation asks for time synchronization
    pub const NEED_TIME: u8 = 0x10;

    /// some output points are under local control
    pub const LOCAL_CONTROL: u8 = 0x20;

    /// an abnormal condition exists in the outstation
    pub const DEVICE_TROUBLE: u8 = 0x40;

    /// the outstation restarted
    pub const RESTART: u8 = 0x80;

    /// The octet with exactly the bits of `value`.
    pub fn new(value: u8) -> (r: Iin1)
        ensures
            r.value == value,
    {
        Iin1 { value }
    }

    /// True when every bit of `mask` is set.
    pub fn is_set(&self, mask: u8) -> (b: bool)
        ensures
            b == (self.value & mask == mask),
    {
        (self.value & mask) == mask
    }
}

impl Iin2 {
    /// the function code is not supported
    pub const NO_FUNC_CODE_SUPPORT: u8 = 0x01;

    /// the outstation does not know a requested object
    pub const OBJECT_UNKNOWN: u8 = 0x02;

    /// a parameter of the request is invalid
    pub const PARAMETER_ERROR: u8 = 0x04;

    /// the event buffer overflowed and events were lost
    pub const EVENT_BUFFER_OVERFLOW: u8 = 0x08;

    /// the requested operation is already running
    pub const ALREADY_EXECUTING: u8 = 0x10;

    /// the outstation found its configuration corrupt
    pub const CONFIG_CORRUPT: u8 = 0x20;

    /// The octet with exactly the bits of `value`.
    pub fn new(value: u8) -> (r: Iin2)
        ensures
            r.value == value,
    {
        Iin2 { value }
    }

    /// True when every bit of `mask` is set.
    pub fn is_set(&self, mask: u8) -> (b: bool)
        ensures
            b == (self.value & mask == mask),
    {
        (self.value & mask) == mask
    }

    /// The union of the bits of both.
    pub open spec fn spec_or(self, other: Iin2) -> Iin2 {
        Iin2 { value: self.value | other.value }
    }

    /// The union of the bits of both.
    pub fn or(self, other: Iin2) -> (r: Iin2)
        ensures
            r == self.spec_or(other),
    {
        Iin2 { value: self.value | other.value }
    }
}

impl Default for Iin1 {
    fn default() -> (r: Iin1)
        ensures
            r.value == 0,
    {
        Iin1 { value: 0 }
    }
}

impl Default for Iin2 {
    fn default() -> (r: Iin2)
        ensures
            r.value == 0,
    {
        Iin2 { value: 0 }
    }
}

impl Default for Iin {
    fn default() -> (r: Iin)
        ensures
            r == Iin::spec_empty(),
    {
        Iin { iin1: Iin1 { value: 0 }, iin2: Iin2 { value: 0 } }
    }
}

impl Iin {
    /// Indications with no bit set.
    pub open spec fn spec_empty() -> Iin {
        Iin { iin1: Iin1 { value: 0 }, iin2: Iin2 { value: 0 } }
    }

    /// Indications that hold `iin2` and nothing in the first octet.
    pub open spec fn spec_from_iin2(iin2: Iin2) -> Iin {
        Iin { iin1: Iin1 { value: 0 }, iin2 }
    }

    /// The union of the bits of both.
    pub open spec fn spec_or(self, other: Iin) -> Iin {
        Iin {
            iin1: Iin1 { value: self.iin1.value | other.iin1.value },
            iin2: Iin2 { value: self.iin2.value | other.iin2.value },
        }
    }

    /// `self` with the bits of `mask` added to the first octet.
    pub open spec fn spec_with_iin1(self, mask: u8) -> Iin {
        Iin { iin1: Iin1 { value: self.iin1.value | mask }, iin2: self.iin2 }
    }

    /// `self` with the bits of `mask` added to the second octet.
    pub open spec fn spec_with_iin2(self, mask: u8) -> Iin {
        Iin { iin1: self.iin1, iin2: Iin2 { value: self.iin2.value | mask } }
    }

    /// Indications made of the two octets.
    pub fn new(iin1: Iin1, iin2: Iin2) -> (r: Iin)
        ensures
            r == (Iin { iin1, iin2 }),
    {
        Iin { iin1, iin2 }
    }

    /// Indications that hold `iin2` and nothing in the first octet.
    pub fn from_iin2(iin2: Iin2) -> (r: Iin)
        ensures
            r == Self::spec_from_iin2(iin2),
    {
        Iin { iin1: Iin1 { value: 0 }, iin2 }
    }

    /// The union of the bits of both.
    pub fn or(self, other: Iin) -> (r: Iin)
        ensures
            r == self.spec_or(other),
    {
        Iin {
            iin1: Iin1 { value: self.iin1.value | other.iin1.value },
            iin2: Iin2 { value: self.iin2.value | other.iin2.value },
        }
    }

    /// `self` with the bits of `mask` added to the first octet.
    pub fn with_iin1(self, mask: u8) -> (r: Iin)
        ensures
            r == self.spec_with_iin1(mask),
    {
        Iin { iin1: Iin1 { value: self.iin1.value | mask }, iin2: self.iin2 }
    }

    /// `self` with the bits of `mask` added to the second octet.
    pub fn with_iin2(self, mask: u8) -> (r: Iin)
        ensures
            r == self.spec_with_iin2(mask),
    {
        Iin { iin1: self.iin1, iin2: Iin2 { value: self.iin2.value | mask } }
    }
}

} // verus!
