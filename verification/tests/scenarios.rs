use avr_time_driver::callback::Callback;
use avr_time_driver::driver::EmbassyTimer;
use avr_time_driver::state::TimerState;
use std::cell::Cell;

#[test]
fn alarm_fires_once_on_the_tenth_tick() {
    let calls = Cell::new(0u32);
    let seen = Cell::new(0u32);
    let cb = |ctx: u32| {
        calls.set(calls.get() + 1);
        seen.set(ctx);
    };
    let mut state = TimerState::<_, 1>::new();
    assert_eq!(state.allocate_alarm(), Some(0));
    state.set_alarm_callback(0, Callback::new(cb, 77));
    assert_eq!(state.now(), 0);
    assert!(state.set_alarm(0, 10));
    for _ in 0..9 {
        state.on_interrupt();
    }
    assert_eq!(state.now(), 9);
    assert_eq!(calls.get(), 0);
    state.on_interrupt();
    assert_eq!(state.now(), 10);
    assert_eq!(calls.get(), 1);
    assert_eq!(seen.get(), 77);
    for _ in 0..5 {
        state.on_interrupt();
    }
    assert_eq!(calls.get(), 1);
    assert_eq!(state.now(), 15);
}

#[test]
fn past_deadline_is_refused_and_never_fires() {
    let calls = Cell::new(0u32);
    let cb = |_ctx: u32| calls.set(calls.get() + 1);
    let mut state = TimerState::<_, 1>::new();
    assert_eq!(state.allocate_alarm(), Some(0));
    state.set_alarm_callback(0, Callback::new(cb, 1));
    for _ in 0..20 {
        state.on_interrupt();
    }
    assert_eq!(state.now(), 20);
    assert!(!state.set_alarm(0, 5));
    assert_eq!(state.alarms.slots[0].timestamp, u64::MAX);
    for _ in 0..100 {
        state.on_interrupt();
    }
    assert_eq!(calls.get(), 0);
    assert!(state.set_alarm(0, 125));
    for _ in 0..4 {
        state.on_interrupt();
    }
    assert_eq!(calls.get(), 0);
    state.on_interrupt();
    assert_eq!(state.now(), 125);
    assert_eq!(calls.get(), 1);
}

#[test]
fn shared_driver_fires_once_on_the_tenth_tick() {
    let calls = Cell::new(0u32);
    let seen = Cell::new(0u32);
    let cb = |ctx: u32| {
        calls.set(calls.get() + 1);
        seen.set(ctx);
    };
    let driver = EmbassyTimer::<_, 1>::new();
    assert_eq!(driver.allocate_alarm(), Some(0));
    driver.set_alarm_callback(0, Callback::new(cb, 77));
    assert_eq!(driver.now(), 0);
    assert!(driver.set_alarm(0, 10));
    for _ in 0..9 {
        driver.on_interrupt();
    }
    assert_eq!(calls.get(), 0);
    driver.on_interrupt();
    assert_eq!(driver.now(), 10);
    assert_eq!(calls.get(), 1);
    assert_eq!(seen.get(), 77);
    for _ in 0..5 {
        driver.on_interrupt();
    }
    assert_eq!(calls.get(), 1);
    assert_eq!(driver.now(), 15);
}

#[test]
fn shared_driver_refuses_past_deadline() {
    let calls = Cell::new(0u32);
    let cb = |_ctx: u32| calls.set(calls.get() + 1);
    let driver = EmbassyTimer::<_, 1>::new();
    assert_eq!(driver.allocate_alarm(), Some(0));
    driver.set_alarm_callback(0, Callback::new(cb, 1));
    for _ in 0..20 {
        driver.on_interrupt();
    }
    assert_eq!(driver.now(), 20);
    assert!(!driver.set_alarm(0, 5));
    for _ in 0..50 {
        driver.on_interrupt();
    }
    assert_eq!(calls.get(), 0);
    assert!(driver.set_alarm(0, 71));
    driver.on_interrupt();
    assert_eq!(calls.get(), 1);
    driver.on_interrupt();
    assert_eq!(calls.get(), 1);
}
