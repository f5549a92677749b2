use vstd::prelude::*;
use vstd::bytes::{
    spec_u16_from_le_bytes,
    spec_u16_to_le_bytes,
    spec_u32_from_le_bytes,
    spec_u32_to_le_bytes,
    spec_u64_from_le_bytes,
    spec_u64_to_le_bytes,
    u16_from_le_bytes,
    u16_to_le_bytes,
    u32_from_le_bytes,
    u32_to_le_bytes,
    u64_from_le_bytes,
    u64_to_le_bytes,
};
use vstd::slice::slice_subrange;
use crate::app::timestamp::{spec_millis_from_le, spec_millis_to_le};
use crate::outstation::control::append;
use crate::app::timestamp::Timestamp;
use crate::outstation::control::CommandStatus;

verus! {

/// Group and variation numbers of an object.
#[derive(Copy, Clone, Debug, PartialEq, Eq, Structural)]
pub struct Variation {
    /// object group
    pub group: u8,
    /// variation within the group
    pub var: u8,
}

/// Absolute time.
#[derive(Copy, Clone, Debug, PartialEq, Eq, Structural)]
pub struct Group50Var1 {
    /// the time written
    pub time: Timestamp,
}

/// Absolute time at which the last recorded time lay.
#[derive(Copy, Clone, Debug, PartialEq, Eq, Structural)]
pub struct Group50Var3 {
    /// the time written
    pub time: Timestamp,
}

/// Coarse time delay.
#[derive(Copy, Clone, Debug, PartialEq, Eq, Structural)]
pub struct Group52Var1 {
    /// delay in seconds
    pub time: u16,
}

/// Fine time delay.
#[derive(Copy, Clone, Debug, PartialEq, Eq, Structural)]
pub struct Group52Var2 {
    /// delay in milliseconds
    pub time: u16,
}

/// Control relay output block.
#[derive(Copy, Clone, Debug, PartialEq, Eq, Structural)]
pub struct Group12Var1 {
    /// control code octet
    pub code: u8,
    /// how often the operation is repeated
    pub count: u8,
    /// duration of the on state in milliseconds
    pub on_time: u32,
    /// duration of the off state in milliseconds
    pub off_time: u32,
    /// status of the command
    pub status: CommandStatus,
}

/// Analog output command, 32-bit integer.
#[derive(Copy, Clone, Debug, PartialEq, Eq, Structural)]
pub struct Group41Var1 {
    /// commanded value
    pub value: i32,
    /// status of the command
    pub status: CommandStatus,
}

/// Analog output command, 16-bit integer.
#[derive(Copy, Clone, Debug, PartialEq, Eq, Structural)]
pub struct Group41Var2 {
    /// commanded value
    pub value: i16,
    /// status of the command
    pub status: CommandStatus,
}

/// Analog output command, single precision. The value travels as its
/// IEEE-754 bit pattern.
#[derive(Copy, Clone, Debug, PartialEq, Eq, Structural)]
pub struct Group41Var3 {
    /// bit pattern of the commanded value
    pub bits: u32,
    /// status of the command
    pub status: CommandStatus,
}

/// Analog output command, double precision. The value travels as its
/// IEEE-754 bit pattern.
#[derive(Copy, Clone, Debug, PartialEq, Eq, Structural)]
pub struct Group41Var4 {
    /// bit pattern of the commanded value
    pub bits: u64,
    /// status of the command
    pub status: CommandStatus,
}

/// An object that takes the same number of octets whatever it holds.
pub trait FixedSize: Sized + Copy {
    /// Group and variation of the object.
    spec fn spec_variation() -> Variation;

    /// Number of octets that the object takes.
    spec fn spec_size() -> int;

    /// True when `self` is the object that the octets encode.
    spec fn spec_decodes(self, bytes: Seq<u8>) -> bool;

    /// The octets that encode the object.
    spec fn spec_encode(self) -> Seq<u8>;

    /// Group and variation of the object.
    fn variation() -> (v: Variation)
        ensures
            v == Self::spec_variation(),
    ;

    /// Number of octets that the object takes.
    fn size() -> (n: usize)
        ensures
            n == Self::spec_size(),
            1 <= n <= 16,
    ;

    /// Reads the object from the octets at `at`.
    fn decode(data: &[u8], at: usize) -> (v: Self)
        requires
            at + Self::spec_size() <= data@.len(),
        ensures
            v.spec_decodes(data@.subrange(at as int, at + Self::spec_size())),
    ;

    /// Appends the octets of the object to `out`.
    fn encode(&self, out: &mut Vec<u8>)
        ensures
            final(out)@ == old(out)@ + self.spec_encode(),
    ;
}

impl FixedSize for Group50Var1 {
    open spec fn spec_variation() -> Variation {
        Variation { group: 50, var: 1 }
    }

    open spec fn spec_size() -> int {
        6
    }

    open spec fn spec_decodes(self, bytes: Seq<u8>) -> bool {
        self.time@ == spec_millis_from_le(bytes)
    }

    open spec fn spec_encode(self) -> Seq<u8> {
        spec_millis_to_le(self.time@)
    }

    fn variation() -> (v: Variation) {
        Variation { group: 50, var: 1 }
    }

    fn size() -> (n: usize) {
        6
    }

    fn decode(data: &[u8], at: usize) -> (v: Self) {
        let total: usize = data.len();
        Group50Var1 { time: Timestamp::read(data, at) }
    }

    fn encode(&self, out: &mut Vec<u8>) {
        self.time.write(out);
    }
}

impl FixedSize for Group50Var3 {
    open spec fn spec_variation() -> Variation {
        Variation { group: 50, var: 3 }
    }

    open spec fn spec_size() -> int {
        6
    }

    open spec fn spec_decodes(self, bytes: Seq<u8>) -> bool {
        self.time@ == spec_millis_from_le(bytes)
    }

    open spec fn spec_encode(self) -> Seq<u8> {
        spec_millis_to_le(self.time@)
    }

    fn variation() -> (v: Variation) {
        Variation { group: 50, var: 3 }
    }

    fn size() -> (n: usize) {
        6
    }

    fn decode(data: &[u8], at: usize) -> (v: Self) {
        let total: usize = data.len();
        Group50Var3 { time: Timestamp::read(data, at) }
    }

    fn encode(&self, out: &mut Vec<u8>) {
        self.time.write(out);
    }
}

impl FixedSize for Group52Var1 {
    open spec fn spec_variation() -> Variation {
        Variation { group: 52, var: 1 }
    }

    open spec fn spec_size() -> int {
        2
    }

    open spec fn spec_decodes(self, bytes: Seq<u8>) -> bool {
        self.time == spec_u16_from_le_bytes(bytes)
    }

    open spec fn spec_encode(self) -> Seq<u8> {
        spec_u16_to_le_bytes(self.time)
    }

    fn variation() -> (v: Variation) {
        Variation { group: 52, var: 1 }
    }

    fn size() -> (n: usize) {
        2
    }

    fn decode(data: &[u8], at: usize) -> (v: Self) {
        let total: usize = data.len();
        Group52Var1 { time: u16_from_le_bytes(slice_subrange(data, at, at + 2)) }
    }

    fn encode(&self, out: &mut Vec<u8>) {
        let bytes = u16_to_le_bytes(self.time);
        append(out, &bytes);
    }
}

impl FixedSize for Group52Var2 {
    open spec fn spec_variation() -> Variation {
        Variation { group: 52, var: 2 }
    }

    open spec fn spec_size() -> int {
        2
    }

    open spec fn spec_decodes(self, bytes: Seq<u8>) -> bool {
        self.time == spec_u16_from_le_bytes(bytes)
    }

    open spec fn spec_encode(self) -> Seq<u8> {
        spec_u16_to_le_bytes(self.time)
    }

    fn variation() -> (v: Variation) {
        Variation { group: 52, var: 2 }
    }

    fn size() -> (n: usize) {
        2
    }

    fn decode(data: &[u8], at: usize) -> (v: Self) {
        let total: usize = data.len();
        Group52Var2 { time: u16_from_le_bytes(slice_subrange(data, at, at + 2)) }
    }

    fn encode(&self, out: &mut Vec<u8>) {
        let bytes = u16_to_le_bytes(self.time);
        append(out, &bytes);
    }
}

impl FixedSize for Group12Var1 {
    open spec fn spec_variation() -> Variation {
        Variation { group: 12, var: 1 }
    }

    open spec fn spec_size() -> int {
        11
    }

    open spec fn spec_decodes(self, bytes: Seq<u8>) -> bool {
        &&& self.code == bytes[0]
        &&& self.count == bytes[1]
        &&& self.on_time == spec_u32_from_le_bytes(bytes.subrange(2, 6))
        &&& self.off_time == spec_u32_from_le_bytes(bytes.subrange(6, 10))
        &&& self.status == CommandStatus::spec_from_u8(bytes[10])
    }

    open spec fn spec_encode(self) -> Seq<u8> {
        seq![self.code, self.count] + spec_u32_to_le_bytes(self.on_time) + spec_u32_to_le_bytes(
            self.off_time,
        ) + seq![self.status.spec_as_u8()]
    }

    fn variation() -> (v: Variation) {
        Variation { group: 12, var: 1 }
    }

    fn size() -> (n: usize) {
        11
    }

    fn decode(data: &[u8], at: usize) -> (v: Self) {
        let total: usize = data.len();
        let ghost bytes = data@.subrange(at as int, at + 11);
        proof {
            assert(data@.subrange(at + 2, at + 6) =~= bytes.subrange(2, 6));
            assert(data@.subrange(at + 6, at + 10) =~= bytes.subrange(6, 10));
        }
        Group12Var1 {
            code: data[at],
            count: data[at + 1],
            on_time: u32_from_le_bytes(slice_subrange(data, at + 2, at + 6)),
            off_time: u32_from_le_bytes(slice_subrange(data, at + 6, at + 10)),
            status: CommandStatus::from(data[at + 10]),
        }
    }

    fn encode(&self, out: &mut Vec<u8>) {
        out.push(self.code);
        out.push(self.count);
        let on = u32_to_le_bytes(self.on_time);
        append(out, &on);
        let off = u32_to_le_bytes(self.off_time);
        append(out, &off);
        out.push(self.status.as_u8());
        proof {
            assert(out@ =~= old(out)@ + self.spec_encode());
        }
    }
}

impl FixedSize for Group41Var1 {
    open spec fn spec_variation() -> Variation {
        Variation { group: 41, var: 1 }
    }

    open spec fn spec_size() -> int {
        5
    }

    open spec fn spec_decodes(self, bytes: Seq<u8>) -> bool {
        &&& self.value == spec_u32_from_le_bytes(bytes.subrange(0, 4)) as i32
        &&& self.status == CommandStatus::spec_from_u8(bytes[4])
    }

    open spec fn spec_encode(self) -> Seq<u8> {
        spec_u32_to_le_bytes(self.value as u32) + seq![self.status.spec_as_u8()]
    }

    fn variation() -> (v: Variation) {
        Variation { group: 41, var: 1 }
    }

    fn size() -> (n: usize) {
        5
    }

    fn decode(data: &[u8], at: usize) -> (v: Self) {
        let total: usize = data.len();
        proof {
            assert(data@.subrange(at as int, at + 4) =~= data@.subrange(
                at as int,
                at + 5,
            ).subrange(0, 4));
        }
        Group41Var1 {
            value: u32_from_le_bytes(slice_subrange(data, at, at + 4)) as i32,
            status: CommandStatus::from(data[at + 4]),
        }
    }

    fn encode(&self, out: &mut Vec<u8>) {
        let value = u32_to_le_bytes(self.value as u32);
        append(out, &value);
        out.push(self.status.as_u8());
        proof {
            assert(out@ =~= old(out)@ + self.spec_encode());
        }
    }
}

impl FixedSize for Group41Var2 {
    open spec fn spec_variation() -> Variation {
        Variation { group: 41, var: 2 }
    }

    open spec fn spec_size() -> int {
        3
    }

    open spec fn spec_decodes(self, bytes: Seq<u8>) -> bool {
        &&& self.value == spec_u16_from_le_bytes(bytes.subrange(0, 2)) as i16
        &&& self.status == CommandStatus::spec_from_u8(bytes[2])
    }

    open spec fn spec_encode(self) -> Seq<u8> {
        spec_u16_to_le_bytes(self.value as u16) + seq![self.status.spec_as_u8()]
    }

    fn variation() -> (v: Variation) {
        Variation { group: 41, var: 2 }
    }

    fn size() -> (n: usize) {
        3
    }

    fn decode(data: &[u8], at: usize) -> (v: Self) {
        let total: usize = data.len();
        proof {
            assert(data@.subrange(at as int, at + 2) =~= data@.subrange(
                at as int,
                at + 3,
            ).subrange(0, 2));
        }
        Group41Var2 {
            value: u16_from_le_bytes(slice_subrange(data, at, at + 2)) as i16,
            status: CommandStatus::from(data[at + 2]),
        }
    }

    fn encode(&self, out: &mut Vec<u8>) {
        let value = u16_to_le_bytes(self.value as u16);
        append(out, &value);
        out.push(self.status.as_u8());
        proof {
            assert(out@ =~= old(out)@ + self.spec_encode());
        }
    }
}

impl FixedSize for Group41Var3 {
    open spec fn spec_variation() -> Variation {
        Variation { group: 41, var: 3 }
    }

    open spec fn spec_size() -> int {
        5
    }

    open spec fn spec_decodes(self, bytes: Seq<u8>) -> bool {
        &&& self.bits == spec_u32_from_le_bytes(bytes.subrange(0, 4))
        &&& self.status == CommandStatus::spec_from_u8(bytes[4])
    }

    open spec fn spec_encode(self) -> Seq<u8> {
        spec_u32_to_le_bytes(self.bits) + seq![self.status.spec_as_u8()]
    }

    fn variation() -> (v: Variation) {
        Variation { group: 41, var: 3 }
    }

    fn size() -> (n: usize) {
        5
    }

    fn decode(data: &[u8], at: usize) -> (v: Self) {
        let total: usize = data.len();
        proof {
            assert(data@.subrange(at as int, at + 4) =~= data@.subrange(
                at as int,
                at + 5,
            ).subrange(0, 4));
        }
        Group41Var3 {
            bits: u32_from_le_bytes(slice_subrange(data, at, at + 4)),
            status: CommandStatus::from(data[at + 4]),
        }
    }

    fn encode(&self, out: &mut Vec<u8>) {
        let value = u32_to_le_bytes(self.bits);
        append(out, &value);
        out.push(self.status.as_u8());
        proof {
            assert(out@ =~= old(out)@ + self.spec_encode());
        }
    }
}

impl FixedSize for Group41Var4 {
    open spec fn spec_variation() -> Variation {
        Variation { group: 41, var: 4 }
    }

    open spec fn spec_size() -> int {
        9
    }

    open spec fn spec_decodes(self, bytes: Seq<u8>) -> bool {
        &&& self.bits == spec_u64_from_le_bytes(bytes.subrange(0, 8))
        &&& self.status == CommandStatus::spec_from_u8(bytes[8])
    }

    open spec fn spec_encode(self) -> Seq<u8> {
        spec_u64_to_le_bytes(self.bits) + seq![self.status.spec_as_u8()]
    }

    fn variation() -> (v: Variation) {
        Variation { group: 41, var: 4 }
    }

    fn size() -> (n: usize) {
        9
    }

    fn decode(data: &[u8], at: usize) -> (v: Self) {
        let total: usize = data.len();
        proof {
            assert(data@.subrange(at as int, at + 8) =~= data@.subrange(
                at as int,
                at + 9,
            ).subrange(0, 8));
        }
        Group41Var4 {
            bits: u64_from_le_bytes(slice_subrange(data, at, at + 8)),
            status: CommandStatus::from(data[at + 8]),
        }
    }

    fn encode(&self, out: &mut Vec<u8>) {
        let value = u64_to_le_bytes(self.bits);
        append(out, &value);
        out.push(self.status.as_u8());
        proof {
            assert(out@ =~= old(out)@ + self.spec_encode());
        }
    }
}

} // verus!
