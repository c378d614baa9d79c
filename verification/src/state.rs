//! The driver for one owner: a plain tick counter and the alarm pool, with
//! the operations in sequence. The laws of the driver are stated of it.

use vstd::prelude::*;
use crate::alarm::AlarmState;
use crate::callback::Callback;
use crate::pool::{allocated, free_handle, AlarmPool};

verus! {

/// The clock and the pool as mathematical values.
pub struct TimerView<W> {
    pub now: u64,
    pub alarms: Seq<AlarmState<W>>,
}

impl<W> TimerView<W> {
    /// The number of slots.
    pub open spec fn capacity(self) -> nat {
        self.alarms.len()
    }

    /// The handle that the next allocation returns.
    pub open spec fn free_handle(self) -> Option<u8> {
        free_handle(self.alarms)
    }

    /// The state after an allocation: the first free slot is claimed, and a
    /// full pool stays as it is.
    pub open spec fn allocate(self) -> Self {
        TimerView { alarms: allocated(self.alarms), ..self }
    }

    /// The state after `callback` is registered in slot `alarm`.
    pub open spec fn set_alarm_callback(self, alarm: u8, callback: W) -> Self {
        TimerView {
            alarms: self.alarms.update(
                alarm as int,
                AlarmState { callback: Some(callback), ..self.alarms[alarm as int] },
            ),
            ..self
        }
    }

    /// Whether a deadline of `timestamp` is accepted: it does not lie before
    /// the current count.
    pub open spec fn accepts(self, timestamp: u64) -> bool {
        timestamp >= self.now
    }

    /// The state after slot `alarm` is asked to fire at `timestamp`.
    pub open spec fn set_alarm(self, alarm: u8, timestamp: u64) -> Self {
        TimerView {
            alarms: self.alarms.update(
                alarm as int,
                self.alarms[alarm as int].armed_at(timestamp, self.now),
            ),
            ..self
        }
    }

    /// The count that follows `now`. The counter has 64 bits and wraps.
    pub open spec fn next_count(self) -> u64 {
        if self.now == u64::MAX {
            0
        } else {
            (self.now + 1) as u64
        }
    }

    /// The state after slot `slot` is evaluated for the interrupt that found
    /// the counter at `ts`.
    pub open spec fn evaluate(self, slot: int, ts: u64) -> Self {
        TimerView { alarms: self.alarms.update(slot, self.alarms[slot].evaluated(ts)), ..self }
    }

    /// The callback that an interrupt taken in this state invokes for slot `slot`.
    pub open spec fn fired(self, slot: int) -> Option<W> {
        self.alarms[slot].fired(self.now)
    }

    /// The state after one interrupt: the clock has advanced, and every slot
    /// that fired is disarmed.
    pub open spec fn tick(self) -> Self {
        TimerView {
            now: self.next_count(),
            alarms: Seq::new(self.alarms.len(), |i: int| self.alarms[i].evaluated(self.now)),
        }
    }
}

/// The clock and the alarm pool of a driver with `N` slots, for one owner.
pub struct TimerState<W, const N: usize> {
    pub timer: u64,
    pub alarms: AlarmPool<W, N>,
}

impl<W, const N: usize> View for TimerState<W, N> {
    type V = TimerView<W>;

    open spec fn view(&self) -> TimerView<W> {
        TimerView { now: self.timer, alarms: self.alarms@ }
    }
}

impl<W: Copy, const N: usize> TimerState<W, N> {
    /// A driver state at tick 0 with every slot unused.
    pub fn new() -> (state: Self)
        ensures
            state@.now == 0,
            state@.alarms == Seq::new(N as nat, |i: int| AlarmState::<W>::unused()),
    {
        TimerState { timer: 0, alarms: AlarmPool::new() }
    }

    /// The current tick count.
    pub fn now(&self) -> (t: u64)
        ensures
            t == self@.now,
    {
        self.timer
    }

    /// Advances the clock by one tick and returns the count before the tick.
    pub fn advance(&mut self) -> (ts: u64)
        ensures
            ts == old(self)@.now,
            final(self)@.now == old(self)@.next_count(),
            final(self)@.alarms == old(self)@.alarms,
    {
        let ts: u64 = self.timer;
        self.timer = ts.wrapping_add(1);
        ts
    }

    /// Claims the first slot that is not allocated and returns its index as
    /// the handle. Returns `None` where every slot is allocated.
    pub fn allocate_alarm(&mut self) -> (handle: Option<u8>)
        requires
            N <= 256,
        ensures
            handle == old(self)@.free_handle(),
            final(self)@ == old(self)@.allocate(),
            match handle {
                Some(h) => {
                    &&& h < N
                    &&& !old(self)@.alarms[h as int].allocated
                    &&& forall|j: int| 0 <= j < h ==> old(self)@.alarms[j].allocated
                },
                None => forall|j: int| 0 <= j < N ==> old(self)@.alarms[j].allocated,
            },
    {
        self.alarms.allocate_alarm()
    }

    /// Registers `callback` in slot `alarm`, in place of what was registered
    /// there before.
    pub fn set_alarm_callback(&mut self, alarm: u8, callback: W)
        requires
            (alarm as int) < N,
        ensures
            final(self)@ == old(self)@.set_alarm_callback(alarm, callback),
    {
        self.alarms.set_alarm_callback(alarm, callback);
    }

    /// Arms slot `alarm` for `timestamp` and returns `true`, or, where
    /// `timestamp` lies before the current count, disarms it and returns `false`.
    pub fn set_alarm(&mut self, alarm: u8, timestamp: u64) -> (armed: bool)
        requires
            (alarm as int) < N,
        ensures
            armed == old(self)@.accepts(timestamp),
            final(self)@ == old(self)@.set_alarm(alarm, timestamp),
    {
        let now: u64 = self.timer;
        self.alarms.set_alarm(alarm, timestamp, now)
    }
}

impl<F: Fn(C) + Copy, C: Copy, const N: usize> TimerState<Callback<F, C>, N> {
    /// The timer interrupt: advances the clock, then invokes the callback of
    /// every allocated slot whose deadline the new count has reached, and
    /// disarms that slot.
    pub fn on_interrupt(&mut self)
        ensures
            final(self)@ == old(self)@.tick(),
            forall|n: int|
                0 <= n < N ==> (#[trigger] old(self)@.fired(n) matches Some(cb) ==> call_ensures(
                    cb.func(),
                    (cb.ctx(),),
                    (),
                )),
    {
        let ts: u64 = self.advance();
        let mut n: usize = 0;
        while n < N
            invariant
                n <= N,
                ts == old(self)@.now,
                self@.now == old(self)@.next_count(),
                self@.alarms == Seq::new(
                    N as nat,
                    |i: int|
                        if i < n {
                            old(self)@.alarms[i].evaluated(ts)
                        } else {
                            old(self)@.alarms[i]
                        },
                ),
                forall|k: int|
                    0 <= k < n ==> (#[trigger] old(self)@.fired(k) matches Some(cb)
                        ==> call_ensures(cb.func(), (cb.ctx(),), ())),
            decreases N - n,
        {
            let due = self.alarms.take_due(n, ts);
            match due {
                Some(cb) => cb.invoke(),
                None => {},
            }
            n += 1;
        }
        assert(self@.alarms =~= old(self)@.tick().alarms);
    }
}

} // verus!
