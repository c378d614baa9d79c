use avr_time_driver::callback::Callback;
use avr_time_driver::driver::EmbassyTimer;
use std::cell::Cell;

type Plain = Callback<fn(u32), u32>;

#[test]
fn shared_clock_counts_interrupts() {
    let driver = EmbassyTimer::<Plain, 1>::new();
    assert_eq!(driver.now(), 0);
    for i in 1..=50u64 {
        driver.on_interrupt();
        assert_eq!(driver.now(), i);
    }
}

#[test]
fn shared_pool_hands_out_each_slot_once() {
    let driver = EmbassyTimer::<Plain, 3>::new();
    assert_eq!(driver.allocate_alarm(), Some(0));
    assert_eq!(driver.allocate_alarm(), Some(1));
    assert_eq!(driver.allocate_alarm(), Some(2));
    assert_eq!(driver.allocate_alarm(), None);
    assert_eq!(driver.allocate_alarm(), None);
}

#[test]
fn shared_capacity_one_gives_handle_zero_then_none() {
    let driver = EmbassyTimer::<Plain, 1>::new();
    assert_eq!(driver.allocate_alarm(), Some(0));
    assert_eq!(driver.allocate_alarm(), None);
}

#[test]
fn shared_deadline_is_judged_against_the_shared_clock() {
    let driver = EmbassyTimer::<Plain, 1>::new();
    assert_eq!(driver.allocate_alarm(), Some(0));
    driver.on_interrupt();
    driver.on_interrupt();
    driver.on_interrupt();
    assert!(!driver.set_alarm(0, 2));
    assert!(driver.set_alarm(0, 3));
    assert!(driver.set_alarm(0, 4));
    assert!(driver.set_alarm(0, u64::MAX));
}

#[test]
fn shared_state_keeps_what_each_request_did() {
    let calls = Cell::new(0u32);
    let cb = |ctx: u32| calls.set(calls.get() + ctx);
    let driver = EmbassyTimer::<_, 2>::new();
    assert_eq!(driver.allocate_alarm(), Some(0));
    assert_eq!(driver.allocate_alarm(), Some(1));
    driver.set_alarm_callback(0, Callback::new(cb, 1));
    driver.set_alarm_callback(1, Callback::new(cb, 10));
    assert!(driver.set_alarm(1, 2));
    assert!(driver.set_alarm(0, 4));
    driver.on_interrupt();
    assert_eq!(calls.get(), 0);
    driver.on_interrupt();
    assert_eq!(calls.get(), 10);
    driver.on_interrupt();
    assert_eq!(calls.get(), 10);
    driver.on_interrupt();
    assert_eq!(calls.get(), 11);
    driver.on_interrupt();
    assert_eq!(calls.get(), 11);
    assert_eq!(driver.now(), 5);
}

fn run(action: &dyn Fn()) {
    action()
}

#[test]
fn callback_may_call_back_into_the_driver() {
    let driver = EmbassyTimer::<Callback<fn(&dyn Fn()), &dyn Fn()>, 1>::new();
    let seen = Cell::new(0u64);
    let action = || {
        seen.set(driver.now());
        driver.set_alarm(0, 9);
    };
    assert_eq!(driver.allocate_alarm(), Some(0));
    driver.set_alarm_callback(0, Callback::new(run, &action));
    assert!(driver.set_alarm(0, 3));
    for _ in 0..3 {
        driver.on_interrupt();
    }
    assert_eq!(seen.get(), 3);
    for _ in 0..6 {
        driver.on_interrupt();
    }
    assert_eq!(seen.get(), 9);
}
