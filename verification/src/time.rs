//! Points on a monotonic clock.
use vstd::prelude::*;

verus! {

/// A point on a monotonic clock, counted in nanoseconds from an origin that the caller chooses.
#[derive(Clone, Copy, Debug, PartialEq, Eq, Structural)]
pub struct Instant {
    /// Nanoseconds since the origin.
    pub nanos: u64,
}

/// The nanoseconds from `now` until `deadline`, zero when the deadline has passed.
pub open spec fn nanos_until(deadline: Instant, now: Instant) -> int {
    if deadline.nanos > now.nanos {
        deadline.nanos - now.nanos
    } else {
        0
    }
}

impl Instant {
    /// The nanoseconds that remain from `now` until this instant, zero when it has passed.
    pub fn remaining_from(&self, now: Instant) -> (nanos: u64)
        ensures
            nanos == nanos_until(*self, now),
    {
        if self.nanos > now.nanos {
            self.nanos - now.nanos
        } else {
            0
        }
    }
}

/// A point on the monotonic clock of the system.
#[verifier::external_type_specification]
#[verifier::external_body]
pub struct ExSystemInstant(std::time::Instant);

/// `Instant::now` of the standard library: the present. Which instant that is rests with the time.
#[verifier::external_body]
fn system_now() -> std::time::Instant {
    std::time::Instant::now()
}

/// The nanoseconds from one instant of the system's clock to another.
pub uninterp spec fn nanos_between(origin: std::time::Instant, present: std::time::Instant) -> u64;

/// `Instant::saturating_duration_since` of the standard library, in nanoseconds: the time from
/// `origin` to `present`, which depends on nothing but these.
#[verifier::external_body]
fn nanos_from(origin: &std::time::Instant, present: &std::time::Instant) -> (r: u64)
    ensures
        r == nanos_between(*origin, *present),
{
    present.saturating_duration_since(*origin).as_nanos() as u64
}

/// A clock that counts from when it was started.
#[derive(Clone, Copy, Debug)]
pub struct Clock {
    /// When the clock was started.
    pub origin: std::time::Instant,
}

impl Clock {
    /// What the clock shows at an instant of the system's.
    pub open spec fn showing(&self, present: std::time::Instant) -> Instant {
        Instant { nanos: nanos_between(self.origin, present) }
    }

    /// There is an instant of the system's at which the clock shows `shown`.
    pub open spec fn shows(&self, shown: Instant) -> bool {
        exists|present: std::time::Instant| shown == #[trigger] self.showing(present)
    }

    /// A clock that counts from `origin`.
    pub fn starting_at(origin: std::time::Instant) -> (r: Clock)
        ensures
            r.origin == origin,
    {
        Clock { origin }
    }

    /// Starts a clock: it counts from the present, which is any instant.
    pub fn start() -> Clock {
        Clock::starting_at(system_now())
    }

    /// What the clock shows at `present`.
    pub fn at(&self, present: &std::time::Instant) -> (r: Instant)
        ensures
            r == self.showing(*present),
    {
        Instant { nanos: nanos_from(&self.origin, present) }
    }

    /// What the clock shows now.
    pub fn now(&self) -> (r: Instant)
        ensures
            self.shows(r),
    {
        let present = system_now();
        self.at(&present)
    }
}

/// What remains until a deadline leads from now to the deadline; nothing remains of one that has
/// passed.
pub proof fn law_deadline_is_reached(deadline: Instant, now: Instant)
    ensures
        now.nanos <= deadline.nanos ==> now.nanos + nanos_until(deadline, now) == deadline.nanos,
        now.nanos >= deadline.nanos ==> nanos_until(deadline, now) == 0,
{
}

} // verus!
