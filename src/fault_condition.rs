//! Hysteresis debounce of a boolean condition.

use vstd::prelude::*;
use crate::dual_signal::DualSignal;

verus! {

/// Milliseconds from `since` to `now` on a clock that wraps at 2^32.
pub open spec fn elapsed_ms(now: u32, since: u32) -> int {
    if now >= since {
        now - since
    } else {
        now + 0x1_0000_0000 - since
    }
}

/// Confirms a condition once it has held on every observation for at least
/// a given duration.
#[derive(Clone, Copy, Debug)]
pub struct FaultCondition {
    pub confirmed: bool,
    /// Time of the first observation of the current run of true
    /// observations; `None` after a false one.
    pub start_time: Option<u32>,
}

impl FaultCondition {
    /// The latch after observing `active` at time `now`.
    pub open spec fn next(self, active: bool, max_duration: u32, now: u32) -> FaultCondition {
        if !active {
            FaultCondition { confirmed: false, start_time: None }
        } else {
            match self.start_time {
                None => FaultCondition { confirmed: false, start_time: Some(now) },
                Some(s) => FaultCondition {
                    confirmed: elapsed_ms(now, s) >= max_duration,
                    start_time: Some(s),
                },
            }
        }
    }

    pub fn new() -> (r: FaultCondition)
        ensures
            !r.confirmed,
            r.start_time is None,
    {
        FaultCondition { confirmed: false, start_time: None }
    }

    /// Feeds one observation of the condition; returns whether it is
    /// confirmed.
    pub fn condition_exceeded_duration(&mut self, condition_active: bool, max_duration: u32, now: u32) -> (r: bool)
        ensures
            *final(self) == old(self).next(condition_active, max_duration, now),
            r == final(self).confirmed,
    {
        if !condition_active {
            self.start_time = None;
            self.confirmed = false;
        } else {
            match self.start_time {
                None => {
                    self.start_time = Some(now);
                    self.confirmed = false;
                },
                Some(s) => {
                    let elapsed: u32 = if now >= s {
                        now - s
                    } else {
                        (u32::MAX - s) + now + 1
                    };
                    self.confirmed = elapsed >= max_duration;
                },
            }
        }
        self.confirmed
    }
}

/// Both samples at or below `threshold`: the sensor reads as grounded or
/// disconnected rather than as a legitimate low position.
pub open spec fn grounded(high: u16, low: u16, threshold: u16) -> bool {
    high <= threshold && low <= threshold
}

impl FaultCondition {
    /// Feeds one observation of whether both samples of `signal` sit at or
    /// below `threshold`; returns whether that is confirmed.
    pub fn check_voltage_grounded(&mut self, signal: &DualSignal, threshold: u16, max_duration: u32, now: u32) -> (r: bool)
        ensures
            *final(self) == old(self).next(grounded(signal.high, signal.low, threshold), max_duration, now),
            r == final(self).confirmed,
    {
        let active = signal.high <= threshold && signal.low <= threshold;
        self.condition_exceeded_duration(active, max_duration, now)
    }
}

/// The latch after a run of observations, each a condition value and a time.
pub open spec fn run(fc: FaultCondition, obs: Seq<(bool, u32)>, max_duration: u32) -> FaultCondition
    decreases obs.len(),
{
    if obs.len() == 0 {
        fc
    } else {
        run(fc, obs.drop_last(), max_duration).next(obs.last().0, max_duration, obs.last().1)
    }
}

/// A condition that flips on every observation never confirms, however long
/// it goes on, when it starts from a latch with no run in progress.
pub proof fn lemma_flapping_never_confirms(fc: FaultCondition, obs: Seq<(bool, u32)>, max_duration: u32)
    requires
        fc.start_time is None,
        forall|i: int| 0 < i < obs.len() ==> (#[trigger] obs[i]).0 != obs[i - 1].0,
    ensures
        forall|k: int|
            0 < k <= obs.len() ==> !(#[trigger] run(fc, obs.take(k), max_duration)).confirmed,
{
    assert forall|k: int| 0 < k <= obs.len() implies !(#[trigger] run(fc, obs.take(k), max_duration)).confirmed
        && (run(fc, obs.take(k), max_duration).start_time is None <==> !obs[k - 1].0) by {
        lemma_flapping_prefix(fc, obs, max_duration, k);
    }
}

proof fn lemma_flapping_prefix(fc: FaultCondition, obs: Seq<(bool, u32)>, max_duration: u32, k: int)
    requires
        fc.start_time is None,
        forall|i: int| 0 < i < obs.len() ==> (#[trigger] obs[i]).0 != obs[i - 1].0,
        0 < k <= obs.len(),
    ensures
        !run(fc, obs.take(k), max_duration).confirmed,
        run(fc, obs.take(k), max_duration).start_time is None <==> !obs[k - 1].0,
    decreases k,
{
    let p = obs.take(k);
    assert(p.drop_last() == obs.take(k - 1));
    assert(p.last() == obs[k - 1]);
    if k > 1 {
        lemma_flapping_prefix(fc, obs, max_duration, k - 1);
        assert(obs[k - 1].0 != obs[k - 2].0);
    } else {
        assert(obs.take(0) =~= Seq::<(bool, u32)>::empty());
    }
}

/// A condition that stays true confirms on the first observation at least
/// `max_duration` after the run began, and not on an earlier one.
pub proof fn lemma_confirms_at_boundary(fc: FaultCondition, start: u32, max_duration: u32, now: u32)
    requires
        fc.start_time is None,
        start <= now,
    ensures
        fc.next(true, max_duration, start).next(true, max_duration, now).confirmed <==> now - start
            >= max_duration,
{
}

} // verus!
