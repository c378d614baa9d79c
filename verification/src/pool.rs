//! The alarm pool: a fixed array of slots with allocation, registration,
//! arming and evaluation. Every operation that depends on the tick count
//! takes it as an argument.

use vstd::prelude::*;
use crate::alarm::AlarmState;

verus! {

/// The first index at or after `from` whose slot is not allocated.
pub open spec fn first_free<W>(alarms: Seq<AlarmState<W>>, from: int) -> Option<int>
    decreases alarms.len() - from,
{
    if from < 0 || from >= alarms.len() {
        None
    } else if !alarms[from].allocated {
        Some(from)
    } else {
        first_free(alarms, from + 1)
    }
}

/// `first_free` finds the least unallocated index at or after `from`, and
/// finds none only where every slot from there on is allocated.
pub proof fn lemma_first_free<W>(alarms: Seq<AlarmState<W>>, from: int)
    requires
        0 <= from,
    ensures
        match first_free(alarms, from) {
            Some(i) => from <= i < alarms.len() && !alarms[i].allocated && forall|j: int|
                from <= j < i ==> alarms[j].allocated,
            None => forall|j: int| from <= j < alarms.len() ==> alarms[j].allocated,
        },
    decreases alarms.len() - from,
{
    if from < alarms.len() && alarms[from].allocated {
        lemma_first_free(alarms, from + 1);
    }
}

/// The handle that an allocation in `alarms` returns: the index of the first
/// free slot.
pub open spec fn free_handle<W>(alarms: Seq<AlarmState<W>>) -> Option<u8> {
    match first_free(alarms, 0) {
        Some(i) => Some(i as u8),
        None => None,
    }
}

/// The slots after an allocation: the first free slot is claimed, and a full
/// pool stays as it is.
pub open spec fn allocated<W>(alarms: Seq<AlarmState<W>>) -> Seq<AlarmState<W>> {
    match first_free(alarms, 0) {
        Some(i) => alarms.update(i, AlarmState { allocated: true, ..alarms[i] }),
        None => alarms,
    }
}

/// A pool of `N` alarm slots.
pub struct AlarmPool<W, const N: usize> {
    pub slots: [AlarmState<W>; N],
}

impl<W, const N: usize> View for AlarmPool<W, N> {
    type V = Seq<AlarmState<W>>;

    open spec fn view(&self) -> Seq<AlarmState<W>> {
        self.slots@
    }
}

impl<W: Copy, const N: usize> AlarmPool<W, N> {
    /// A pool of unused slots.
    pub fn new() -> (pool: Self)
        ensures
            pool@ == Seq::new(N as nat, |i: int| AlarmState::<W>::unused()),
    {
        AlarmPool { slots: [AlarmState::new();N] }
    }

    /// Claims the first slot that is not allocated and returns its index as
    /// the handle. Returns `None` where every slot is allocated.
    pub fn allocate_alarm(&mut self) -> (handle: Option<u8>)
        requires
            N <= 256,
        ensures
            handle == free_handle(old(self)@),
            final(self)@ == allocated(old(self)@),
            match handle {
                Some(h) => {
                    &&& h < N
                    &&& !old(self)@[h as int].allocated
                    &&& forall|j: int| 0 <= j < h ==> old(self)@[j].allocated
                    &&& final(self)@ == old(self)@.update(
                        h as int,
                        AlarmState { allocated: true, ..old(self)@[h as int] },
                    )
                },
                None => {
                    &&& forall|j: int| 0 <= j < N ==> old(self)@[j].allocated
                    &&& final(self)@ == old(self)@
                },
            },
    {
        let mut i: usize = 0;
        while i < N
            invariant
                i <= N <= 256,
                *self == *old(self),
                first_free(self@, 0) == first_free(self@, i as int),
            decreases N - i,
        {
            if !self.slots[i].allocated {
                proof {
                    lemma_first_free(self@, 0);
                }
                self.slots[i].allocated = true;
                return Some(i as u8);
            }
            i += 1;
        }
        proof {
            lemma_first_free(self@, 0);
        }
        None
    }

    /// Registers `callback` in slot `alarm`, in place of what was registered
    /// there before.
    pub fn set_alarm_callback(&mut self, alarm: u8, callback: W)
        requires
            (alarm as int) < N,
        ensures
            final(self)@ == old(self)@.update(
                alarm as int,
                AlarmState { callback: Some(callback), ..old(self)@[alarm as int] },
            ),
    {
        self.slots[alarm as usize].callback = Some(callback);
    }

    /// Arms slot `alarm` for `timestamp` and returns `true`, or, where
    /// `timestamp` lies before the tick count `now`, disarms it and returns
    /// `false`.
    pub fn set_alarm(&mut self, alarm: u8, timestamp: u64, now: u64) -> (armed: bool)
        requires
            (alarm as int) < N,
        ensures
            armed == (timestamp >= now),
            final(self)@ == old(self)@.update(
                alarm as int,
                old(self)@[alarm as int].armed_at(timestamp, now),
            ),
    {
        self.slots[alarm as usize].arm(timestamp, now)
    }

    /// Evaluates slot `slot` for the interrupt that found the counter at
    /// `ts`. Where the slot fires it is disarmed, and its callback is returned.
    pub fn take_due(&mut self, slot: usize, ts: u64) -> (due: Option<W>)
        requires
            slot < N,
        ensures
            due == old(self)@[slot as int].fired(ts),
            final(self)@ == old(self)@.update(slot as int, old(self)@[slot as int].evaluated(ts)),
    {
        self.slots[slot].take_due(ts)
    }
}

} // verus!
