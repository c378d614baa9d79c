//! The driver as the scheduler and the interrupt handler share it: the tick
//! counter is an atomic, the alarm pool sits behind a critical-section
//! mutex, and every operation on the pool is one request handed through the
//! lock.

use vstd::prelude::*;
use vstd::pervasive::unreached;
use core::cell::RefCell;
use critical_section::Mutex;
use crate::alarm::AlarmState;
use crate::callback::Callback;
use crate::clock::Clock;
use crate::pool::{lemma_first_free, AlarmPool};
use crate::service::{serves, Reply, Request};

verus! {

/// `critical_section::Mutex`, a cell that is only borrowed inside a critical
/// section. Nothing is known of what it holds.
#[verifier::external_type_specification]
#[verifier::external_body]
#[verifier::reject_recursive_types(T)]
pub struct ExMutex<T>(critical_section::Mutex<T>);

/// `core::cell::RefCell`. Nothing is known of what it holds.
#[verifier::external_type_specification]
#[verifier::external_body]
#[verifier::reject_recursive_types(T)]
pub struct ExRefCell<T: ?Sized>(core::cell::RefCell<T>);

/// `critical_section::Mutex::new` wraps a value and cannot fail.
pub assume_specification<T>[ critical_section::Mutex::<T>::new ](value: T) -> critical_section::Mutex<T>;

/// `core::cell::RefCell::new` wraps a value and cannot fail.
pub assume_specification<T>[ core::cell::RefCell::<T>::new ](value: T) -> core::cell::RefCell<T>;

/// Whether `reply` is what some pool of `capacity` slots answers to `req` at
/// some tick count.
pub open spec fn possible<W>(req: Request<W>, capacity: nat, reply: Reply<W>) -> bool {
    exists|before: Seq<AlarmState<W>>, now: u64, after: Seq<AlarmState<W>>|
        before.len() == capacity && #[trigger] serves(before, now, req, reply, after)
}

/// A handle that a pool of `capacity` slots gives out is the index of one of
/// its slots.
proof fn lemma_handle_is_a_slot<W>(capacity: nat, reply: Reply<W>)
    requires
        possible(Request::AllocateAlarm, capacity, reply),
    ensures
        reply matches Reply::Handle(Some(h)) ==> h < capacity,
{
    let (before, now, after) = choose|
        before: Seq<AlarmState<W>>,
        now: u64,
        after: Seq<AlarmState<W>>,
    |
        before.len() == capacity && #[trigger] serves(
            before,
            now,
            Request::AllocateAlarm,
            reply,
            after,
        );
    lemma_first_free(before, 0);
}

/// Runs one request on the shared pool inside a critical section.
///
/// The body calls `critical_section::with`, which masks the interrupt source,
/// runs the closure and unmasks again, and inside it `Mutex::borrow_ref_mut`,
/// which borrows the pool for the closure's duration. The closure is one call
/// of `AlarmPool::serve`. Nothing else can hold the borrow at that point,
/// as `serve` calls nothing that reaches the mutex, so the borrow does not panic.
///
/// What the mutex holds when the call is made is not known here, so the
/// contract only says that the reply is the one `serve` gives for some pool
/// of `N` slots.
#[verifier::external_body]
fn locked<W: Copy, const N: usize>(
    alarms: &Mutex<RefCell<AlarmPool<W, N>>>,
    clock: &Clock,
    req: Request<W>
) -> (answer: Reply<W>)
    requires
        req.fits(N as nat),
    ensures
        possible(req, N as nat, answer),
{
    critical_section::with(|cs| alarms.borrow_ref_mut(cs).serve(clock, req))
}

/// The time driver: a clock and `N` alarm slots that normal execution and the
/// timer interrupt share by reference.
#[verifier::reject_recursive_types(W)]
#[verifier::reject_recursive_types(N)]
pub struct EmbassyTimer<W, const N: usize> {
    alarms: Mutex<RefCell<AlarmPool<W, N>>>,
    timer: Clock,
}

impl<W: Copy, const N: usize> EmbassyTimer<W, N> {
    /// A driver at tick 0 with every slot unused.
    pub fn new() -> Self {
        EmbassyTimer { alarms: Mutex::new(RefCell::new(AlarmPool::new())), timer: Clock::new() }
    }

    /// The current tick count.
    pub fn now(&self) -> u64 {
        self.timer.now()
    }

    /// Claims the first free slot. A returned handle is the index of a slot.
    pub fn allocate_alarm(&self) -> (handle: Option<u8>)
        requires
            N <= 256,
        ensures
            handle matches Some(h) ==> h < N,
    {
        let reply = locked(&self.alarms, &self.timer, Request::AllocateAlarm);
        proof {
            lemma_handle_is_a_slot(N as nat, reply);
        }
        match reply {
            Reply::Handle(handle) => handle,
            _ => unreached(),
        }
    }

    /// Registers `callback` in slot `alarm`.
    pub fn set_alarm_callback(&self, alarm: u8, callback: W)
        requires
            (alarm as int) < N,
    {
        match locked(&self.alarms, &self.timer, Request::SetAlarmCallback { alarm, callback }) {
            Reply::Registered => {},
            _ => unreached(),
        }
    }

    /// Arms slot `alarm` for `timestamp`, or disarms it and returns `false`
    /// where `timestamp` lies before the tick count.
    pub fn set_alarm(&self, alarm: u8, timestamp: u64) -> (armed: bool)
        requires
            (alarm as int) < N,
        ensures
            timestamp == u64::MAX ==> armed,
    {
        match locked(&self.alarms, &self.timer, Request::SetAlarm { alarm, timestamp }) {
            Reply::Armed(armed) => armed,
            _ => unreached(),
        }
    }
}

impl<F: Fn(C) + Copy, C: Copy, const N: usize> EmbassyTimer<Callback<F, C>, N> {
    /// The timer interrupt: advances the clock, then evaluates every slot in
    /// a critical section of its own and invokes the callback of each that
    /// fired, after the critical section has ended.
    pub fn on_interrupt(&self) {
        let ts: u64 = self.timer.advance();
        let mut n: usize = 0;
        while n < N
            invariant
                n <= N,
            decreases N - n,
        {
            match locked(&self.alarms, &self.timer, Request::TakeDue { slot: n, ts }) {
                Reply::Due(Some(cb)) => cb.invoke(),
                Reply::Due(None) => {},
                _ => unreached(),
            }
            n += 1;
        }
    }
}

} // verus!
