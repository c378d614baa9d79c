//! One alarm slot: a deadline, a callback and an allocation flag.

use vstd::prelude::*;

verus! {

/// Deadline of a slot that is not armed. No interrupt fires a slot that holds it.
pub const DISARMED: u64 = u64::MAX;

/// An alarm slot that holds a callback of type `W`. `timestamp` is the
/// deadline in ticks, or `DISARMED`. `allocated` is set when the slot is
/// claimed and never cleared.
pub struct AlarmState<W> {
    pub timestamp: u64,
    pub callback: Option<W>,
    pub allocated: bool,
}

impl<W: Copy> Copy for AlarmState<W> {

}

impl<W: Copy> Clone for AlarmState<W> {
    fn clone(&self) -> (copy: Self)
        ensures
            copy == *self,
    {
        *self
    }
}

impl<W> AlarmState<W> {
    /// The slot as it is before anyone claims it.
    pub open spec fn unused() -> Self {
        AlarmState { timestamp: DISARMED, callback: None, allocated: false }
    }

    /// Whether the slot fires at the interrupt that finds the counter at `ts`
    /// and moves it to `ts + 1`: it is allocated, armed, and its deadline is
    /// not beyond the new count.
    pub open spec fn fires(self, ts: u64) -> bool {
        self.allocated && self.timestamp != DISARMED && self.timestamp <= ts + 1
    }

    /// The callback that the interrupt at count `ts` invokes for this slot.
    pub open spec fn fired(self, ts: u64) -> Option<W> {
        if self.fires(ts) {
            self.callback
        } else {
            None
        }
    }

    /// The slot after the interrupt at count `ts`: firing consumes the deadline.
    pub open spec fn evaluated(self, ts: u64) -> Self {
        if self.fires(ts) {
            AlarmState { timestamp: DISARMED, ..self }
        } else {
            self
        }
    }

    /// The slot with its deadline set at count `now`: a deadline that has
    /// already passed disarms it.
    pub open spec fn armed_at(self, timestamp: u64, now: u64) -> Self {
        AlarmState { timestamp: if timestamp < now { DISARMED } else { timestamp }, ..self }
    }

    /// An unallocated, disarmed slot without a callback.
    pub fn new() -> (slot: Self)
        ensures
            slot == Self::unused(),
    {
        AlarmState { timestamp: DISARMED, callback: None, allocated: false }
    }
}

impl<W: Copy> AlarmState<W> {
    /// Sets the deadline, or disarms the slot where `timestamp` lies before
    /// `now`. Returns whether the slot is now armed for `timestamp`.
    pub fn arm(&mut self, timestamp: u64, now: u64) -> (armed: bool)
        ensures
            armed == (timestamp >= now),
            *final(self) == old(self).armed_at(timestamp, now),
    {
        if timestamp < now {
            self.timestamp = DISARMED;
            false
        } else {
            self.timestamp = timestamp;
            true
        }
    }

    /// Evaluates the slot at the interrupt that finds the counter at `ts`.
    /// A slot that fires is disarmed, and its callback is handed out to be invoked.
    pub fn take_due(&mut self, ts: u64) -> (due: Option<W>)
        ensures
            due == old(self).fired(ts),
            *final(self) == old(self).evaluated(ts),
    {
        if self.allocated && self.timestamp != DISARMED && (ts == u64::MAX || self.timestamp <= ts
            + 1) {
            self.timestamp = DISARMED;
            self.callback
        } else {
            None
        }
    }
}

} // verus!
