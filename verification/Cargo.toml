[package]
name = "avr_time_driver"
version = "0.1.0"
edition = "2021"
publish = false

[dependencies]
atomic-polyfill = "=1.0.3"
critical-section = { version = "=1.2.0", features = ["std"] }
embassy-time = "=0.3.2"
embassy-time-driver = "=0.1.0"
embassy-executor = { version = "=0.6.3", features = ["arch-avr", "executor-thread", "integrated-timers"] }
embassy-futures = "=0.1.2"
avr-device = { version = "=0.5.4", features = ["atmega328p", "rt"] }
panic-halt = "=0.2.0"
simavr-section = "=0.1.1"
ufmt = "=0.2.0"
