//! Animation time.

use std::time::{Duration, Instant};

use vstd::prelude::*;

verus! {

/// `std::time::Instant`, carried through the clock as an opaque value.
#[verifier::external_type_specification]
#[verifier::external_body]
pub struct ExInstant(Instant);

/// The span `Duration::from_nanos(nanos)` returns.
pub uninterp spec fn span_of_nanos(nanos: u64) -> Duration;

/// A span of `nanos` nanoseconds: a call of `Duration::from_nanos`, which
/// depends on its argument alone.
#[verifier::external_body]
fn span_from_nanos(nanos: u64) -> (span: Duration)
    ensures
        span == span_of_nanos(nanos),
{
    Duration::from_nanos(nanos)
}

/// The span `later.saturating_duration_since(earlier)` returns.
pub uninterp spec fn span_between(later: Instant, earlier: Instant) -> Duration;

/// The time from `earlier` to `now`, or no time if `now` is the earlier of the
/// two: a call of `Instant::saturating_duration_since`, which depends on the
/// two instants alone.
///
/// What the span is, in terms of the two instants, is not restated: an
/// `Instant` is opaque here. The clock's own decisions — when a gap is
/// measured at all, between which two instants, and what is remembered — are
/// what its contract covers.
#[verifier::external_body]
fn time_between(now: Instant, earlier: Instant) -> (gap: Duration)
    ensures
        gap == span_between(now, earlier),
{
    now.saturating_duration_since(earlier)
}

/// A source of per-frame time deltas that respects pausing.
///
/// It reports **gaps between frames**, never time since a start instant: a
/// paused minute must not arrive as a minute of animation the moment the user
/// resumes. There is deliberately no accumulated total.
#[derive(Debug, Clone, Copy)]
pub struct Clock {
    /// When `tick` was last called, whether paused or not.
    last: Option<Instant>,
    paused: bool,
}

impl Clock {
    /// When `tick` was last called, if ever.
    pub closed spec fn last_tick(self) -> Option<Instant> {
        self.last
    }

    /// Whether the clock is paused, as a value.
    pub closed spec fn spec_paused(self) -> bool {
        self.paused
    }

    /// Whether the next tick measures a gap: the clock is running and has
    /// ticked before.
    pub open spec fn measures(self) -> bool {
        !self.spec_paused() && self.last_tick() is Some
    }

    /// A running clock that has never ticked.
    pub fn new() -> (clock: Clock)
        ensures
            clock.last_tick() is None,
            !clock.spec_paused(),
    {
        Clock { last: None, paused: false }
    }

    /// Advance to `now`, returning how much animation time passed.
    ///
    /// Zero while paused — but the remembered instant still moves, so on
    /// unpausing the first gap is one frame rather than however long the pause
    /// lasted. The first call returns zero, since there is no previous instant
    /// to measure from.
    pub fn tick(&mut self, now: Instant) -> (dt: Duration)
        ensures
            final(self).last_tick() == Some(now),
            final(self).spec_paused() == old(self).spec_paused(),
            !old(self).measures() ==> dt == span_of_nanos(0),
            old(self).measures() ==> dt == span_between(now, old(self).last_tick()->0),
    {
        let dt = match self.last {
            Some(last) => {
                if self.paused {
                    span_from_nanos(0)
                } else {
                    time_between(now, last)
                }
            },
            None => span_from_nanos(0),
        };
        self.last = Some(now);
        dt
    }

    /// Whether the clock is paused.
    pub fn is_paused(self) -> (paused: bool)
        ensures
            paused == self.spec_paused(),
    {
        self.paused
    }

    /// Pause or resume.
    pub fn toggle_pause(&mut self)
        ensures
            final(self).spec_paused() == !old(self).spec_paused(),
            final(self).last_tick() == old(self).last_tick(),
    {
        self.paused = !self.paused;
    }
}

/// When the next frame is due, in nanoseconds from the loop's start: one
/// period after the last deadline, or now when drawing overran it — the
/// backlog is dropped rather than chased, since catching up would spend the
/// next frames rendering stale views with no input handled in between.
pub fn next_deadline(scheduled: u64, now: u64, period: u64) -> (next: u64)
    requires
        scheduled + period <= u64::MAX,
    ensures
        next == (if scheduled + period < now { now } else { (scheduled + period) as u64 }),
        next >= now,
{
    let due = scheduled + period;
    if due < now { now } else { due }
}

impl Default for Clock {
    /// A running clock that has never ticked.
    fn default() -> (clock: Clock)
        ensures
            clock.last_tick() is None,
            !clock.spec_paused(),
    {
        Clock::new()
    }
}

} // verus!
