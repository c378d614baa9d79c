//! What the board fixes: the number of alarm slots, and the clock dividers of
//! the 8-bit timer that raises the tick interrupt.

use vstd::prelude::*;

verus! {

/// Number of alarm slots of the driver that the board runs.
pub const ALARM_COUNT: usize = 1;

/// A clock-select setting of the timer: the divider between the system clock
/// and the timer's count.
#[derive(Clone, Copy, Debug, PartialEq, Eq, Structural)]
pub enum ClockSelect {
    Prescale8,
    Prescale64,
    Prescale256,
    Prescale1024,
}

impl ClockSelect {
    /// The divider that the setting selects.
    pub open spec fn divider(self) -> int {
        match self {
            ClockSelect::Prescale8 => 8,
            ClockSelect::Prescale64 => 64,
            ClockSelect::Prescale256 => 256,
            ClockSelect::Prescale1024 => 1024,
        }
    }

    /// The setting that divides the clock by `prescaler`, or `None` where the
    /// timer has no such divider.
    pub fn for_divider(prescaler: u32) -> (select: Option<ClockSelect>)
        ensures
            match select {
                Some(cs) => cs.divider() == prescaler,
                None => prescaler != 8 && prescaler != 64 && prescaler != 256 && prescaler != 1024,
            },
    {
        if prescaler == 8 {
            Some(ClockSelect::Prescale8)
        } else if prescaler == 64 {
            Some(ClockSelect::Prescale64)
        } else if prescaler == 256 {
            Some(ClockSelect::Prescale256)
        } else if prescaler == 1024 {
            Some(ClockSelect::Prescale1024)
        } else {
            None
        }
    }
}

} // verus!
