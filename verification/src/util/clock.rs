use vstd::prelude::*;
use crate::util::time::Moment;

verus! {

/// An instant of tokio's monotonic clock. Nothing is known of what is
/// inside.
#[verifier::external_type_specification]
#[verifier::external_body]
pub struct ExTokioInstant(tokio::time::Instant);

/// `tokio::time::Instant::now`: reads tokio's monotonic clock. The result
/// depends on when the call is made; nothing is claimed of it.
pub assume_specification[ tokio::time::Instant::now ]() -> tokio::time::Instant
;

/// `tokio::time::Instant::saturating_duration_since`: the time that has
/// passed from `earlier` to `this`, or none if `earlier` is the later of
/// the two. The function returns for all instants; nothing is claimed of
/// the value.
pub assume_specification[ tokio::time::Instant::saturating_duration_since ](
    this: &tokio::time::Instant,
    earlier: tokio::time::Instant,
) -> core::time::Duration
;

/// `core::time::Duration::as_millis`: the whole milliseconds of a span of
/// time. The function returns for every span; nothing is claimed of the
/// value.
pub assume_specification[ core::time::Duration::as_millis ](
    this: &core::time::Duration,
) -> u128
;

/// The monotonic clock of a session: tokio's clock, read in milliseconds
/// since the clock was made.
pub struct Clock {
    origin: tokio::time::Instant,
}

impl Clock {
    /// The instant of tokio's clock at which this clock was made.
    pub closed spec fn spec_origin(&self) -> tokio::time::Instant {
        self.origin
    }

    /// A clock whose origin is the present.
    pub fn new() -> (c: Clock) {
        Clock { origin: tokio::time::Instant::now() }
    }

    /// The instant of tokio's clock at which this clock was made.
    pub fn origin(&self) -> (o: tokio::time::Instant)
        ensures
            o == self.spec_origin(),
    {
        self.origin
    }

    /// The present instant: the milliseconds that have passed since the
    /// clock was made, or the last instant that can be held if more have
    /// passed than fit.
    pub fn now(&self) -> (i: Moment) {
        let elapsed = tokio::time::Instant::now().saturating_duration_since(self.origin);
        let millis: u128 = elapsed.as_millis();
        if millis > 0xFFFF_FFFF_FFFF_FFFF {
            Moment::from_millis(u64::MAX)
        } else {
            Moment::from_millis(millis as u64)
        }
    }
}

} // verus!
