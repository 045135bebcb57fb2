use vstd::prelude::*;

verus! {

/// The delta, in microseconds, reported for the first tick, which has no earlier
/// timestamp to measure from (16 ms, about one frame at 60 Hz).
pub const FALLBACK_DELTA_MICROS: i128 = 16_000;

/// The delta that a tick at `now` reports after the tick at `last`: the fallback
/// when there was none, else the time since then.
pub open spec fn tick_delta(last: Option<u64>, now: u64) -> i128 {
    match last {
        None => FALLBACK_DELTA_MICROS,
        Some(l) => (now as int - l as int) as i128,
    }
}

/// Measures the time between animation ticks. Timestamps are in microseconds.
#[derive(Clone, Copy, Debug)]
pub struct AnimationClock {
    pub last_timestamp: Option<u64>,
}

impl AnimationClock {
    /// The delta that a tick at `now` reports.
    pub open spec fn delta_at(self, now: u64) -> i128 {
        tick_delta(self.last_timestamp, now)
    }

    /// A clock that has not ticked yet.
    pub fn new() -> (c: AnimationClock)
        ensures
            c.last_timestamp is None,
    {
        AnimationClock { last_timestamp: None }
    }

    /// Records a tick at `now` and returns the microseconds elapsed since the previous
    /// tick, or [`FALLBACK_DELTA_MICROS`] on the first tick, whatever `now` is.
    pub fn tick(&mut self, now: u64) -> (delta: i128)
        ensures
            delta == old(self).delta_at(now),
            old(self).last_timestamp is None ==> delta == FALLBACK_DELTA_MICROS,
            old(self).last_timestamp matches Some(last) ==> delta == now as int - last as int,
            final(self).last_timestamp == Some(now),
    {
        let delta = match self.last_timestamp {
            None => FALLBACK_DELTA_MICROS,
            Some(last) => now as i128 - last as i128,
        };
        self.last_timestamp = Some(now);
        delta
    }
}

} // verus!
