//! The pool's operations as values: a request goes to the pool, a reply
//! comes back. The shared driver hands every request through its lock.

use vstd::prelude::*;
use crate::alarm::AlarmState;
use crate::clock::Clock;
use crate::pool::AlarmPool;
use crate::state::TimerView;

verus! {

/// One operation on the alarm pool.
pub enum Request<W> {
    /// Claim a free slot.
    AllocateAlarm,
    /// Register a callback in a slot.
    SetAlarmCallback { alarm: u8, callback: W },
    /// Set the deadline of a slot, or clear it where it has passed.
    SetAlarm { alarm: u8, timestamp: u64 },
    /// Evaluate a slot for the interrupt that found the counter at `ts`.
    TakeDue { slot: usize, ts: u64 },
}

/// What an operation hands back.
pub enum Reply<W> {
    /// The claimed handle, or `None` where the pool is full.
    Handle(Option<u8>),
    /// The callback is in place.
    Registered,
    /// Whether the deadline was accepted.
    Armed(bool),
    /// The callback to invoke, where the slot fired.
    Due(Option<W>),
}

impl<W> Request<W> {
    /// Whether the request names a slot of a pool with `capacity` slots, and,
    /// for an allocation, whether every slot index of the pool is a handle.
    pub open spec fn fits(self, capacity: nat) -> bool {
        match self {
            Request::AllocateAlarm => capacity <= 256,
            Request::SetAlarmCallback { alarm, callback } => alarm < capacity,
            Request::SetAlarm { alarm, timestamp } => alarm < capacity,
            Request::TakeDue { slot, ts } => slot < capacity,
        }
    }
}

impl<W> TimerView<W> {
    /// The state after `req`.
    pub open spec fn served(self, req: Request<W>) -> Self {
        match req {
            Request::AllocateAlarm => self.allocate(),
            Request::SetAlarmCallback { alarm, callback } => self.set_alarm_callback(
                alarm,
                callback,
            ),
            Request::SetAlarm { alarm, timestamp } => self.set_alarm(alarm, timestamp),
            Request::TakeDue { slot, ts } => self.evaluate(slot as int, ts),
        }
    }

    /// The reply to `req`.
    pub open spec fn reply(self, req: Request<W>) -> Reply<W> {
        match req {
            Request::AllocateAlarm => Reply::Handle(self.free_handle()),
            Request::SetAlarmCallback { alarm, callback } => Reply::Registered,
            Request::SetAlarm { alarm, timestamp } => Reply::Armed(self.accepts(timestamp)),
            Request::TakeDue { slot, ts } => Reply::Due(self.alarms[slot as int].fired(ts)),
        }
    }
}

/// Whether the pool `before`, with the tick counter at `now`, answers `req`
/// with `reply` and holds `after` from then on.
pub open spec fn serves<W>(
    before: Seq<AlarmState<W>>,
    now: u64,
    req: Request<W>,
    reply: Reply<W>,
    after: Seq<AlarmState<W>>
) -> bool {
    let state = TimerView { now, alarms: before };
    reply == state.reply(req) && after == state.served(req).alarms
}

impl<W: Copy, const N: usize> AlarmPool<W, N> {
    /// Carries out one request on the pool. A deadline is judged against the
    /// count that `clock` shows when the request is served.
    pub fn serve(&mut self, clock: &Clock, req: Request<W>) -> (reply: Reply<W>)
        requires
            req.fits(N as nat),
        ensures
            exists|now: u64| serves(old(self)@, now, req, reply, final(self)@),
    {
        let ghost mut seen: u64 = 0;
        let reply = match req {
            Request::AllocateAlarm => Reply::Handle(self.allocate_alarm()),
            Request::SetAlarmCallback { alarm, callback } => {
                self.set_alarm_callback(alarm, callback);
                Reply::Registered
            },
            Request::SetAlarm { alarm, timestamp } => {
                let now: u64 = clock.now();
                proof {
                    seen = now;
                }
                Reply::Armed(self.set_alarm(alarm, timestamp, now))
            },
            Request::TakeDue { slot, ts } => Reply::Due(self.take_due(slot, ts)),
        };
        assert(serves(old(self)@, seen, req, reply, self@));
        reply
    }
}

} // verus!
