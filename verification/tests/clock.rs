use avr_time_driver::alarm::{AlarmState, DISARMED};
use avr_time_driver::callback::Callback;
use avr_time_driver::state::TimerState;
use std::cell::Cell;

type Plain = Callback<fn(u32), u32>;

#[test]
fn every_interrupt_adds_one_tick() {
    let mut state = TimerState::<Plain, 1>::new();
    let mut last = state.now();
    for i in 1..=1000u64 {
        state.on_interrupt();
        assert_eq!(state.now(), last + 1);
        assert_eq!(state.now(), i);
        last = state.now();
    }
}

#[test]
fn advance_returns_the_count_before_the_tick() {
    let mut state = TimerState::<Plain, 1>::new();
    assert_eq!(state.advance(), 0);
    assert_eq!(state.advance(), 1);
    assert_eq!(state.now(), 2);
}

#[test]
fn other_operations_leave_the_clock_alone() {
    let mut state = TimerState::<Plain, 2>::new();
    state.timer = 41;
    assert_eq!(state.allocate_alarm(), Some(0));
    assert_eq!(state.now(), 41);
    assert!(state.set_alarm(0, 50));
    assert_eq!(state.now(), 41);
    assert!(!state.set_alarm(0, 40));
    assert_eq!(state.now(), 41);
    assert!(state.alarms.take_due(0, 41).is_none());
    assert_eq!(state.now(), 41);
}

#[test]
fn counter_wraps_after_the_last_count() {
    let mut state = TimerState::<Plain, 1>::new();
    state.timer = u64::MAX;
    assert_eq!(state.advance(), u64::MAX);
    assert_eq!(state.now(), 0);
}

#[test]
fn deadline_equal_to_now_is_accepted_and_fires_at_the_next_tick() {
    let calls = Cell::new(0u32);
    let cb = |_ctx: u32| calls.set(calls.get() + 1);
    let mut state = TimerState::<_, 1>::new();
    state.timer = 7;
    assert_eq!(state.allocate_alarm(), Some(0));
    state.set_alarm_callback(0, Callback::new(cb, 0));
    assert!(state.set_alarm(0, 7));
    assert_eq!(calls.get(), 0);
    state.on_interrupt();
    assert_eq!(calls.get(), 1);
    state.on_interrupt();
    assert_eq!(calls.get(), 1);
}

#[test]
fn deadline_one_below_now_is_refused() {
    let mut state = TimerState::<Plain, 1>::new();
    state.timer = 7;
    state.alarms.slots[0].timestamp = 9;
    assert!(!state.set_alarm(0, 6));
    assert_eq!(state.alarms.slots[0].timestamp, DISARMED);
}

#[test]
fn sentinel_deadline_is_accepted_and_never_fires() {
    let calls = Cell::new(0u32);
    let cb = |_ctx: u32| calls.set(calls.get() + 1);
    let mut state = TimerState::<_, 1>::new();
    assert_eq!(state.allocate_alarm(), Some(0));
    state.set_alarm_callback(0, Callback::new(cb, 0));
    state.timer = u64::MAX - 2;
    assert!(state.set_alarm(0, u64::MAX));
    for _ in 0..6 {
        state.on_interrupt();
    }
    assert_eq!(calls.get(), 0);
    assert_eq!(state.now(), 3);
}

#[test]
fn slot_arm_reports_and_stores() {
    let mut slot = AlarmState::<Plain>::new();
    assert!(slot.arm(12, 12));
    assert_eq!(slot.timestamp, 12);
    assert!(slot.arm(13, 12));
    assert_eq!(slot.timestamp, 13);
    assert!(!slot.arm(11, 12));
    assert_eq!(slot.timestamp, DISARMED);
    assert!(slot.arm(0, 0));
    assert_eq!(slot.timestamp, 0);
}

#[test]
fn unallocated_slot_never_fires() {
    let calls = Cell::new(0u32);
    let cb = |_ctx: u32| calls.set(calls.get() + 1);
    let mut slot = AlarmState::new();
    slot.callback = Some(Callback::new(cb, 0));
    slot.timestamp = 2;
    assert!(slot.take_due(5).is_none());
    assert_eq!(slot.timestamp, 2);
    assert_eq!(calls.get(), 0);
}

#[test]
fn slot_fires_when_the_new_count_reaches_the_deadline() {
    let calls = Cell::new(0u32);
    let cb = |ctx: u32| calls.set(calls.get() + ctx);
    let mut slot = AlarmState::new();
    slot.allocated = true;
    slot.callback = Some(Callback::new(cb, 3));
    slot.timestamp = 10;
    assert!(slot.take_due(8).is_none());
    assert_eq!(slot.timestamp, 10);
    let due = slot.take_due(9);
    assert!(due.is_some());
    assert_eq!(slot.timestamp, DISARMED);
    due.unwrap().invoke();
    assert_eq!(calls.get(), 3);
    assert!(slot.take_due(10).is_none());
    assert!(slot.take_due(u64::MAX).is_none());
}

#[test]
fn overdue_slot_fires_at_the_wrapping_tick() {
    let mut slot = AlarmState::<Plain>::new();
    slot.allocated = true;
    slot.timestamp = 4;
    assert!(slot.take_due(u64::MAX).is_none());
    assert_eq!(slot.timestamp, DISARMED);
}

#[test]
fn due_slot_without_callback_is_disarmed() {
    let mut state = TimerState::<Plain, 1>::new();
    assert_eq!(state.allocate_alarm(), Some(0));
    assert!(state.set_alarm(0, 1));
    state.on_interrupt();
    assert_eq!(state.alarms.slots[0].timestamp, DISARMED);
    assert!(state.alarms.slots[0].allocated);
}
