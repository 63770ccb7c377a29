//! Monotonic timestamps in microseconds.

use vstd::prelude::*;

verus! {

/// Half the range of a `u64` tick counter. Two instants further apart than
/// this are taken to have wrapped around.
pub const HALF_RANGE: u64 = 0x7fff_ffff_ffff_ffff;

/// The ticks that passed from `earlier` to `now` on a wrapping 64-bit
/// counter, or `None` where `now` lies before `earlier`: the counter moved
/// forward by at most half its range.
pub open spec fn ticks_since(now: u64, earlier: u64) -> Option<u64> {
    let d = if now >= earlier {
        (now - earlier) as int
    } else {
        now - earlier + 0x1_0000_0000_0000_0000int
    };
    if d <= HALF_RANGE {
        Some(d as u64)
    } else {
        None
    }
}

/// Relies on fugit's `Instant::checked_duration_since` on a 1 MHz `u64`
/// timer: it compares the two instants on the wrapping counter and returns
/// the wrapped difference when `now` is not earlier.
#[verifier::external_body]
fn fugit_duration_since(now: u64, earlier: u64) -> (r: Option<u64>)
    ensures
        r == ticks_since(now, earlier),
{
    let now = fugit::TimerInstantU64::<1_000_000>::from_ticks(now);
    let earlier = fugit::TimerInstantU64::<1_000_000>::from_ticks(earlier);
    now.checked_duration_since(earlier).map(|d| d.ticks())
}

/// A point in time: microseconds on a monotonic timer.
#[derive(PartialEq, Eq, Structural, Debug, Clone, Copy)]
pub struct Instant {
    pub ticks: u64,
}

impl Instant {
    pub fn from_ticks(ticks: u64) -> (r: Instant)
        ensures
            r.ticks == ticks,
    {
        Instant { ticks }
    }

    pub fn ticks(&self) -> (r: u64)
        ensures
            r == self.ticks,
    {
        self.ticks
    }

    /// The microseconds from `other` to `self`, or `None` where `self` lies
    /// before `other`.
    pub fn checked_duration_since(&self, other: Instant) -> (r: Option<u64>)
        ensures
            r == ticks_since(self.ticks, other.ticks),
    {
        fugit_duration_since(self.ticks, other.ticks)
    }
}

/// On instants within half the counter's range, a duration is defined
/// exactly when the later one is not smaller, and is their difference.
pub proof fn lemma_since_in_range(now: u64, earlier: u64)
    requires
        now <= HALF_RANGE,
        earlier <= HALF_RANGE,
    ensures
        ticks_since(now, earlier) == if now >= earlier {
            Some((now - earlier) as u64)
        } else {
            None::<u64>
        },
{
}

} // verus!
