//! The tick counter that normal execution and the timer interrupt share.

use vstd::prelude::*;
use atomic_polyfill::AtomicU64;
use atomic_polyfill::Ordering;

verus! {

/// A 64-bit tick counter that is read and advanced through a shared
/// reference: an `atomic_polyfill::AtomicU64`, which is the atomic of `core`
/// where the target has one.
///
/// The counter belongs to whoever holds a reference, so its value at a call
/// is whatever the last tick left, and nothing is stated of what comes back.
/// The operations on the alarms take the count as an argument instead, and
/// hold for every value of it.
pub struct Clock {
    ticks: AtomicU64,
}

impl Clock {
    /// A clock at tick 0.
    pub fn new() -> Self {
        Clock { ticks: AtomicU64::new(0) }
    }

    /// The current tick count: a relaxed `load`.
    pub fn now(&self) -> u64 {
        self.ticks.load(Ordering::Relaxed)
    }

    /// Advances the counter by one tick and returns the count before the
    /// tick: a relaxed `fetch_add` of 1, which wraps after the last count.
    pub fn advance(&self) -> u64 {
        self.ticks.fetch_add(1, Ordering::Relaxed)
    }
}

} // verus!
