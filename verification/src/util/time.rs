use vstd::prelude::*;

verus! {

/// A span of time in whole milliseconds.
#[derive(Copy, Clone, Debug, PartialEq, Eq, Structural)]
pub struct Millis {
    pub millis: u64,
}

impl Millis {
    /// A span of `millis` milliseconds.
    pub fn from_millis(millis: u64) -> (d: Millis)
        ensures
            d.millis == millis,
    {
        Millis { millis }
    }

    /// A span of `secs` seconds; saturates at the largest span that can be held.
    pub fn from_secs(secs: u64) -> (d: Millis)
        ensures
            d.millis == if secs * 1000 <= u64::MAX { secs * 1000 } else { u64::MAX as int },
    {
        match secs.checked_mul(1000) {
            Some(millis) => Millis { millis },
            None => Millis { millis: u64::MAX },
        }
    }

    /// The span in whole milliseconds.
    pub fn as_millis(&self) -> (m: u64)
        ensures
            m == self.millis,
    {
        self.millis
    }
}

/// A reading of a monotonic clock, in milliseconds since an origin that the
/// owner of the clock chose.
#[derive(Copy, Clone, Debug, PartialEq, Eq, Structural)]
pub struct Moment {
    pub millis: u64,
}

impl Moment {
    /// The instant `millis` milliseconds after the origin.
    pub fn from_millis(millis: u64) -> (i: Moment)
        ensures
            i.millis == millis,
    {
        Moment { millis }
    }

    /// The instant that lies `d` after `self`, or the last instant that can be
    /// held when that one cannot.
    pub open spec fn spec_after(self, d: Millis) -> Moment {
        if self.millis + d.millis <= u64::MAX {
            Moment { millis: (self.millis + d.millis) as u64 }
        } else {
            Moment { millis: u64::MAX }
        }
    }

    /// The instant that lies `d` after `self`; saturates at the end of the clock.
    pub fn after(self, d: Millis) -> (i: Moment)
        ensures
            i == self.spec_after(d),
    {
        Moment { millis: self.millis.saturating_add(d.millis) }
    }

    /// Time that passed from `earlier` to `self`, or nothing if `earlier` lies
    /// after `self`.
    pub open spec fn spec_checked_duration_since(self, earlier: Moment) -> Option<Millis> {
        if earlier.millis <= self.millis {
            Some(Millis { millis: (self.millis - earlier.millis) as u64 })
        } else {
            None
        }
    }

    /// Time that passed from `earlier` to `self`; `None` if `earlier` lies after `self`.
    pub fn checked_duration_since(self, earlier: Moment) -> (d: Option<Millis>)
        ensures
            d == self.spec_checked_duration_since(earlier),
    {
        if earlier.millis <= self.millis {
            Some(Millis { millis: self.millis - earlier.millis })
        } else {
            None
        }
    }

    /// True when `self` lies strictly before `other`.
    pub fn is_before(self, other: Moment) -> (b: bool)
        ensures
            b == (self.millis < other.millis),
    {
        self.millis < other.millis
    }

    /// The earlier of two instants.
    pub open spec fn spec_earliest(a: Moment, b: Moment) -> Moment {
        if a.millis <= b.millis { a } else { b }
    }

    /// The earlier of two instants.
    pub fn earliest(a: Moment, b: Moment) -> (i: Moment)
        ensures
            i == Self::spec_earliest(a, b),
    {
        if a.millis <= b.millis { a } else { b }
    }
}

} // verus!
