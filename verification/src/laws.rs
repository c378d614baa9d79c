//! What holds of the driver over whole runs: of the clock under any mix of
//! operations and interrupts, of repeated allocation, and of an alarm from
//! the moment it is set until it has fired.

use vstd::prelude::*;
use crate::alarm::{AlarmState, DISARMED};
use crate::service::Request;
use crate::pool::{first_free, lemma_first_free};
use crate::state::TimerView;

verus! {

/// One thing that happens to the driver: an operation on the pool, or the
/// timer interrupt.
pub enum Step<W> {
    Operation(Request<W>),
    Interrupt,
}

/// The number of interrupts among `steps`.
pub open spec fn interrupts<W>(steps: Seq<Step<W>>) -> nat
    decreases steps.len(),
{
    if steps.len() == 0 {
        0
    } else {
        interrupts(steps.drop_last()) + if steps.last() is Interrupt {
            1nat
        } else {
            0nat
        }
    }
}

impl<W> TimerView<W> {
    /// The state after `step`.
    pub open spec fn after(self, step: Step<W>) -> Self {
        match step {
            Step::Operation(req) => self.served(req),
            Step::Interrupt => self.tick(),
        }
    }

    /// The state after the steps of `steps`, taken in order.
    pub open spec fn run(self, steps: Seq<Step<W>>) -> Self
        decreases steps.len(),
    {
        if steps.len() == 0 {
            self
        } else {
            self.run(steps.drop_last()).after(steps.last())
        }
    }

    /// The state after `k` interrupts.
    pub open spec fn ticks(self, k: nat) -> Self
        decreases k,
    {
        if k == 0 {
            self
        } else {
            self.ticks((k - 1) as nat).tick()
        }
    }

    /// The state after the first `n` slots are evaluated, each by a request
    /// of its own, for the interrupt that found the counter at `ts`.
    pub open spec fn evaluations(self, ts: u64, n: nat) -> Self
        decreases n,
    {
        if n == 0 {
            self
        } else {
            self.evaluations(ts, (n - 1) as nat).served(
                Request::TakeDue { slot: (n - 1) as usize, ts },
            )
        }
    }

    /// The state after `k` allocations.
    pub open spec fn allocations(self, k: nat) -> Self
        decreases k,
    {
        if k == 0 {
            self
        } else {
            self.allocations((k - 1) as nat).allocate()
        }
    }

    /// Whether slot `slot` exists and is claimed.
    pub open spec fn claimed(self, slot: int) -> bool {
        0 <= slot < self.alarms.len() && self.alarms[slot].allocated
    }
}

/// Evaluating every slot in turn for the count that the tick found does to
/// the pool what one interrupt does, and leaves the clock alone.
pub proof fn lemma_interrupt_is_one_tick<W>(state: TimerView<W>)
    requires
        state.capacity() <= usize::MAX,
    ensures
        state.evaluations(state.now, state.capacity()).alarms == state.tick().alarms,
        state.evaluations(state.now, state.capacity()).now == state.now,
{
    lemma_evaluations_in_order(state, state.capacity());
    assert(state.evaluations(state.now, state.capacity()).alarms =~= state.tick().alarms);
}

/// After the first `n` evaluations of an interrupt exactly the first `n`
/// slots are evaluated.
proof fn lemma_evaluations_in_order<W>(state: TimerView<W>, n: nat)
    requires
        n <= state.capacity() <= usize::MAX,
    ensures
        state.evaluations(state.now, n).now == state.now,
        state.evaluations(state.now, n).alarms == Seq::new(
            state.alarms.len(),
            |i: int|
                if i < n {
                    state.alarms[i].evaluated(state.now)
                } else {
                    state.alarms[i]
                },
        ),
    decreases n,
{
    let goal = Seq::new(
        state.alarms.len(),
        |i: int|
            if i < n {
                state.alarms[i].evaluated(state.now)
            } else {
                state.alarms[i]
            },
    );
    if n > 0 {
        lemma_evaluations_in_order(state, (n - 1) as nat);
    }
    assert(state.evaluations(state.now, n).alarms =~= goal);
}

/// Whatever is done to the driver, in whatever order, the tick count grows by
/// exactly one with each interrupt and does not move otherwise, so it never
/// decreases, as long as the counter does not run past its 64 bits.
pub proof fn lemma_clock_counts_interrupts<W>(state: TimerView<W>, steps: Seq<Step<W>>)
    requires
        state.now + interrupts(steps) <= u64::MAX,
    ensures
        state.run(steps).now == state.now + interrupts(steps),
        state.run(steps).now >= state.now,
    decreases steps.len(),
{
    if steps.len() > 0 {
        lemma_clock_counts_interrupts(state, steps.drop_last());
    }
}

/// After `k` interrupts the tick count has grown by `k`, as long as the
/// counter does not run past its 64 bits. The pool keeps its size.
pub proof fn lemma_ticks_count<W>(state: TimerView<W>, k: nat)
    requires
        state.now + k <= u64::MAX,
    ensures
        state.ticks(k).now == state.now + k,
        state.ticks(k).capacity() == state.capacity(),
    decreases k,
{
    if k > 0 {
        lemma_ticks_count(state, (k - 1) as nat);
    }
}

/// No operation on the pool and no interrupt releases a slot or removes a
/// registered callback, and none changes the number of slots or turns the
/// clock back by itself.
pub proof fn lemma_claims_are_kept<W>(state: TimerView<W>, req: Request<W>, slot: int)
    requires
        req.fits(state.capacity()),
        0 <= slot < state.capacity(),
    ensures
        state.served(req).now == state.now,
        state.served(req).capacity() == state.capacity(),
        state.alarms[slot].allocated ==> state.served(req).alarms[slot].allocated,
        state.alarms[slot].callback is Some ==> state.served(req).alarms[slot].callback is Some,
        state.tick().capacity() == state.capacity(),
        state.alarms[slot].allocated ==> state.tick().alarms[slot].allocated,
        state.alarms[slot].callback is Some ==> state.tick().alarms[slot].callback is Some,
{
    lemma_first_free(state.alarms, 0);
}

/// In a pool of which no slot is claimed, the allocations return the handles
/// 0, 1, 2 and so on, each once, until every slot is claimed, and `None` from
/// then on. The pool has at most 256 slots, as a handle is one byte.
pub proof fn lemma_allocations_fill_pool<W>(state: TimerView<W>, k: nat)
    requires
        state.capacity() <= 256,
        forall|i: int| 0 <= i < state.capacity() ==> !state.alarms[i].allocated,
    ensures
        k < state.capacity() ==> state.allocations(k).free_handle() == Some(k as u8),
        k >= state.capacity() ==> state.allocations(k).free_handle() == None::<u8>,
    decreases k,
{
    let alarms = state.allocations(k).alarms;
    lemma_allocations_claim_in_order(state, k);
    lemma_first_free(alarms, 0);
    match first_free(alarms, 0) {
        Some(f) => {
            assert(alarms[f].allocated == (f < k));
            if k < f {
                assert(alarms[k as int].allocated == (k < k));
            }
        },
        None => {
            if k < alarms.len() {
                assert(alarms[k as int].allocated == (k < k));
            }
        },
    }
}

/// In a pool of which no slot is claimed, any two of the allocations that
/// succeed return different handles.
pub proof fn lemma_handles_are_distinct<W>(state: TimerView<W>, j: nat, k: nat)
    requires
        state.capacity() <= 256,
        forall|i: int| 0 <= i < state.capacity() ==> !state.alarms[i].allocated,
        j < k < state.capacity(),
    ensures
        state.allocations(j).free_handle() is Some,
        state.allocations(k).free_handle() is Some,
        state.allocations(j).free_handle() != state.allocations(k).free_handle(),
{
    lemma_allocations_fill_pool(state, j);
    lemma_allocations_fill_pool(state, k);
}

/// After `k` allocations in a pool of which no slot was claimed, the first
/// `k` slots are claimed and the others are not.
proof fn lemma_allocations_claim_in_order<W>(state: TimerView<W>, k: nat)
    requires
        forall|i: int| 0 <= i < state.alarms.len() ==> !state.alarms[i].allocated,
    ensures
        state.allocations(k).alarms.len() == state.alarms.len(),
        forall|i: int|
            0 <= i < state.alarms.len() ==> (#[trigger] state.allocations(k).alarms[i]).allocated
                == (i < k),
    decreases k,
{
    if k > 0 {
        let before = state.allocations((k - 1) as nat).alarms;
        let after = state.allocations(k).alarms;
        lemma_allocations_claim_in_order(state, (k - 1) as nat);
        lemma_first_free(before, 0);
        match first_free(before, 0) {
            Some(f) => {
                assert(before[f].allocated == (f < k - 1));
                if k - 1 < f {
                    assert(before[k - 1].allocated == (k - 1 < k - 1));
                }
                assert(f == k - 1);
            },
            None => {
                if k - 1 < before.len() {
                    assert(before[k - 1].allocated == (k - 1 < k - 1));
                }
            },
        }
        assert forall|i: int| 0 <= i < state.alarms.len() implies (#[trigger] after[i]).allocated
            == (i < k) by {
            assert(before[i].allocated == (i < k - 1));
        }
    }
}

/// Whatever deadline is asked for, the slot is then disarmed or armed for a
/// count that has not passed, and nothing else has changed.
pub proof fn lemma_deadline_is_not_past<W>(state: TimerView<W>, alarm: u8, timestamp: u64)
    requires
        alarm < state.capacity(),
    ensures
        state.set_alarm(alarm, timestamp).alarms[alarm as int].timestamp == (if state.accepts(
            timestamp,
        ) {
            timestamp
        } else {
            DISARMED
        }),
        state.set_alarm(alarm, timestamp).alarms[alarm as int].timestamp >= state.now,
        state.set_alarm(alarm, timestamp).alarms[alarm as int].allocated
            == state.alarms[alarm as int].allocated,
        state.set_alarm(alarm, timestamp).alarms[alarm as int].callback
            == state.alarms[alarm as int].callback,
        state.set_alarm(alarm, timestamp).now == state.now,
        forall|i: int|
            0 <= i < state.capacity() && i != alarm ==> state.set_alarm(alarm, timestamp).alarms[i]
                == state.alarms[i],
{
}

/// A deadline that lies before the tick count is refused, and no interrupt
/// after that invokes the slot's callback, however many follow.
pub proof fn lemma_past_deadline_never_fires<W>(
    state: TimerView<W>,
    alarm: u8,
    timestamp: u64,
    k: nat
)
    requires
        alarm < state.capacity(),
        timestamp < state.now,
    ensures
        !state.accepts(timestamp),
        state.set_alarm(alarm, timestamp).ticks(k).fired(alarm as int) == None::<W>,
{
    lemma_disarmed_stays_silent(state.set_alarm(alarm, timestamp), alarm as int, k);
}

/// A slot that nobody has claimed is never fired, whatever its deadline.
pub proof fn lemma_unclaimed_never_fires<W>(state: TimerView<W>, slot: int, k: nat)
    requires
        0 <= slot < state.capacity(),
        !state.alarms[slot].allocated,
    ensures
        state.ticks(k).capacity() == state.capacity(),
        state.ticks(k).alarms[slot] == state.alarms[slot],
        state.ticks(k).fired(slot) == None::<W>,
    decreases k,
{
    if k > 0 {
        lemma_unclaimed_never_fires(state, slot, (k - 1) as nat);
    }
}

/// A disarmed slot stays disarmed under interrupts and never fires.
pub proof fn lemma_disarmed_stays_silent<W>(state: TimerView<W>, slot: int, k: nat)
    requires
        0 <= slot < state.capacity(),
        state.alarms[slot].timestamp == DISARMED,
    ensures
        state.ticks(k).capacity() == state.capacity(),
        state.ticks(k).alarms[slot] == state.alarms[slot],
        state.ticks(k).fired(slot) == None::<W>,
    decreases k,
{
    if k > 0 {
        lemma_disarmed_stays_silent(state, slot, (k - 1) as nat);
    }
}

/// The interrupt, counted from 0, that fires an alarm set for `timestamp` at
/// count `now`: the one that moves the counter to `timestamp`, or the very
/// next one where the counter is already there.
pub open spec fn firing_tick(now: u64, timestamp: u64) -> nat {
    if timestamp > now {
        (timestamp - now - 1) as nat
    } else {
        0
    }
}

/// A deadline that has not passed is accepted. In a claimed slot it then
/// fires exactly once: at the interrupt that moves the counter to the
/// deadline, which invokes the callback that the slot holds. No interrupt
/// before or after that one invokes it, however many follow.
pub proof fn lemma_alarm_fires_once<W>(
    state: TimerView<W>,
    alarm: u8,
    callback: W,
    timestamp: u64,
    k: nat
)
    requires
        state.claimed(alarm as int),
        state.alarms[alarm as int].callback == Some(callback),
        state.now <= timestamp < DISARMED,
    ensures
        state.accepts(timestamp),
        state.set_alarm(alarm, timestamp).ticks(k).fired(alarm as int) == if k == firing_tick(
            state.now,
            timestamp,
        ) {
            Some(callback)
        } else {
            None
        },
        timestamp > state.now ==> state.set_alarm(alarm, timestamp).ticks(
            firing_tick(state.now, timestamp) + 1,
        ).now == timestamp,
{
    let armed = state.set_alarm(alarm, timestamp);
    let at: nat = firing_tick(state.now, timestamp);
    if k <= at {
        lemma_armed_waits(armed, alarm as int, k);
    } else {
        lemma_armed_waits(armed, alarm as int, at);
        let fired = armed.ticks(at).tick();
        assert(armed.ticks(at + 1) == fired);
        lemma_disarmed_stays_silent(fired, alarm as int, (k - at - 1) as nat);
        lemma_ticks_compose(armed, at + 1, (k - at - 1) as nat);
    }
    if timestamp > state.now {
        lemma_ticks_count(armed, at + 1);
    }
}

/// A registered callback is the one that the slot holds, whatever it held
/// before, and registering changes nothing else.
pub proof fn lemma_registered_callback_is_held<W>(state: TimerView<W>, alarm: u8, callback: W)
    requires
        alarm < state.capacity(),
    ensures
        state.set_alarm_callback(alarm, callback).alarms[alarm as int] == (AlarmState {
            callback: Some(callback),
            ..state.alarms[alarm as int]
        }),
        state.set_alarm_callback(alarm, callback).now == state.now,
        forall|i: int|
            0 <= i < state.capacity() && i != alarm ==> state.set_alarm_callback(
                alarm,
                callback,
            ).alarms[i] == state.alarms[i],
{
}

/// Until its deadline comes, an armed slot is left as it is, and the counter
/// grows by one with each interrupt.
proof fn lemma_armed_waits<W>(state: TimerView<W>, slot: int, k: nat)
    requires
        0 <= slot < state.alarms.len(),
        state.now <= state.alarms[slot].timestamp < DISARMED,
        k <= firing_tick(state.now, state.alarms[slot].timestamp),
    ensures
        state.ticks(k).alarms.len() == state.alarms.len(),
        state.ticks(k).alarms[slot] == state.alarms[slot],
        state.ticks(k).now == state.now + k,
    decreases k,
{
    if k > 0 {
        lemma_armed_waits(state, slot, (k - 1) as nat);
    }
}

/// `j` interrupts after `k` interrupts are `k + j` interrupts.
proof fn lemma_ticks_compose<W>(state: TimerView<W>, k: nat, j: nat)
    ensures
        state.ticks(k).ticks(j) == state.ticks(k + j),
    decreases j,
{
    if j > 0 {
        lemma_ticks_compose(state, k, (j - 1) as nat);
        assert(state.ticks(k + j) == state.ticks((k + j - 1) as nat).tick());
    }
}

} // verus!
