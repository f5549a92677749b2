use vstd::prelude::*;
use crate::util::time::Millis;

verus! {

/// Milliseconds since the Unix epoch, held in 48 bits as on the wire.
#[derive(Copy, Clone, Debug, PartialEq, Eq, Structural)]
pub struct Timestamp {
    value: u64,
}

impl Timestamp {
    /// Largest count of milliseconds that 48 bits hold.
    pub const MAX_VALUE: u64 = 0x0000_FFFF_FFFF_FFFF;

    /// The count of milliseconds held.
    pub closed spec fn view(&self) -> int {
        (self.value % 0x1_0000_0000_0000) as int
    }

    /// A timestamp never exceeds 48 bits.
    pub proof fn lemma_range(self)
        ensures
            0 <= self@ <= Self::MAX_VALUE,
    {
    }

    /// A timestamp of `value` milliseconds, reduced to 48 bits.
    pub fn new(value: u64) -> (t: Timestamp)
        ensures
            t@ == value % 0x1_0000_0000_0000,
    {
        Timestamp { value: value % 0x1_0000_0000_0000 }
    }

    /// The earliest timestamp.
    pub fn min() -> (t: Timestamp)
        ensures
            t@ == 0,
    {
        Timestamp { value: 0 }
    }

    /// The latest timestamp.
    pub fn max() -> (t: Timestamp)
        ensures
            t@ == Self::MAX_VALUE,
    {
        Timestamp { value: Self::MAX_VALUE }
    }

    /// The count of milliseconds held.
    pub fn raw_value(&self) -> (v: u64)
        ensures
            v == self@,
    {
        self.value % 0x1_0000_0000_0000
    }

    /// The timestamp `x` later, unless that one does not fit in 48 bits.
    pub fn checked_add(self, x: Millis) -> (r: Option<Timestamp>)
        ensures
            self@ + x.millis <= Self::MAX_VALUE ==> r is Some && r->0@ == self@ + x.millis,
            self@ + x.millis > Self::MAX_VALUE ==> r is None,
    {
        let cur: u64 = self.value % 0x1_0000_0000_0000;
        let max_add: u64 = Self::MAX_VALUE - cur;
        if x.millis > max_add {
            None
        } else {
            Some(Timestamp { value: cur + x.millis })
        }
    }
}

/// The count of milliseconds that six octets encode, lowest first.
pub open spec fn spec_millis_from_le(bytes: Seq<u8>) -> int {
    bytes[0] + 0x100 * bytes[1] + 0x1_0000 * bytes[2] + 0x100_0000 * bytes[3] + 0x1_0000_0000
        * bytes[4] + 0x100_0000_0000 * bytes[5]
}

/// The six octets that encode a count of milliseconds, lowest first.
pub open spec fn spec_millis_to_le(value: int) -> Seq<u8> {
    seq![
        (value % 0x100) as u8,
        ((value / 0x100) % 0x100) as u8,
        ((value / 0x1_0000) % 0x100) as u8,
        ((value / 0x100_0000) % 0x100) as u8,
        ((value / 0x1_0000_0000) % 0x100) as u8,
        ((value / 0x100_0000_0000) % 0x100) as u8,
    ]
}

impl Timestamp {
    /// Reads a timestamp from the six octets at `at`.
    pub fn read(data: &[u8], at: usize) -> (t: Timestamp)
        requires
            at + 6 <= data@.len(),
        ensures
            t@ == spec_millis_from_le(data@.subrange(at as int, at + 6)),
    {
        let total: usize = data.len();
        let b0: u64 = data[at] as u64;
        let b1: u64 = data[at + 1] as u64;
        let b2: u64 = data[at + 2] as u64;
        let b3: u64 = data[at + 3] as u64;
        let b4: u64 = data[at + 4] as u64;
        let b5: u64 = data[at + 5] as u64;
        let value: u64 = b0 + 0x100 * b1 + 0x1_0000 * b2 + 0x100_0000 * b3 + 0x1_0000_0000 * b4
            + 0x100_0000_0000 * b5;
        Timestamp { value }
    }

    /// Appends the six octets of the timestamp to `out`.
    pub fn write(&self, out: &mut Vec<u8>)
        ensures
            final(out)@ == old(out)@ + spec_millis_to_le(self@),
    {
        let value: u64 = self.value % 0x1_0000_0000_0000;
        out.push((value % 0x100) as u8);
        out.push(((value / 0x100) % 0x100) as u8);
        out.push(((value / 0x1_0000) % 0x100) as u8);
        out.push(((value / 0x100_0000) % 0x100) as u8);
        out.push(((value / 0x1_0000_0000) % 0x100) as u8);
        out.push(((value / 0x100_0000_0000) % 0x100) as u8);
        proof {
            assert(out@ =~= old(out)@ + spec_millis_to_le(self@));
        }
    }
}

} // verus!
