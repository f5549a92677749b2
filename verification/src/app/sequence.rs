use vstd::prelude::*;

verus! {

/// A four-bit application-layer sequence number that wraps from 15 back to 0.
#[derive(Copy, Clone, Debug, PartialEq, Eq, Structural)]
pub struct Sequence {
    value: u8,
}

impl Sequence {
    /// Largest value a sequence number can hold.
    pub const MAX_VALUE: u8 = 15;

    /// The number held, always in `0..=15`.
    pub closed spec fn view(&self) -> int {
        (self.value % 16) as int
    }

    /// The number that follows `v` in the cycle `0, 1, .., 15, 0, ..`.
    pub open spec fn successor(v: int) -> int {
        if v == 15 { 0 } else { v + 1 }
    }

    /// A sequence number always lies in `0..=15`.
    pub proof fn lemma_range(self)
        ensures
            0 <= self@ <= 15,
    {
    }

    /// Sixteen increments bring a sequence number back to where it started,
    /// and the number after 15 is 0.
    pub proof fn lemma_wraps(v: int)
        requires
            0 <= v <= 15,
        ensures
            Self::successor(15) == 0,
            0 <= Self::successor(v) <= 15,
            Self::successor(v) == (v + 1) % 16,
            Self::successor(v) != v,
    {
    }

    /// The sequence number that the low four bits of `x` hold.
    pub closed spec fn spec_new(x: u8) -> Sequence {
        Sequence { value: x % 16 }
    }

    /// The sequence number made of the low four bits of `x` holds them.
    pub proof fn lemma_spec_new(x: u8)
        ensures
            Self::spec_new(x)@ == x % 16,
    {
    }

    /// Builds a sequence number from the low four bits of `x`.
    pub fn new(x: u8) -> (s: Sequence)
        ensures
            s == Self::spec_new(x),
            s@ == x % 16,
    {
        Sequence { value: x % 16 }
    }

    /// True when both hold the same number.
    pub fn same(&self, other: &Sequence) -> (b: bool)
        ensures
            b == (self@ == other@),
    {
        self.value % 16 == other.value % 16
    }

    /// The number held.
    pub fn value(&self) -> (v: u8)
        ensures
            v == self@,
            v <= 15,
    {
        self.value % 16
    }

    /// The value the next sequence number would have, leaving `self` as it is.
    pub fn next(&self) -> (v: u8)
        ensures
            v == Self::successor(self@),
    {
        let cur: u8 = self.value % 16;
        if cur == 15 { 0 } else { cur + 1 }
    }

    /// Advances to the following number and returns the number held before.
    pub fn increment(&mut self) -> (prior: Sequence)
        ensures
            prior == *old(self),
            final(self)@ == Self::successor(old(self)@),
    {
        let prior = *self;
        let cur: u8 = self.value % 16;
        self.value = if cur == 15 { 0 } else { cur + 1 };
        prior
    }
}

impl Default for Sequence {
    fn default() -> (s: Sequence)
        ensures
            s@ == 0,
    {
        Sequence { value: 0 }
    }
}

} // verus!
