//! A tick-driven monotonic clock with a fixed pool of alarm slots.

pub mod alarm;
pub mod board;
pub mod callback;
pub mod clock;
pub mod driver;
pub mod laws;
pub mod pool;
pub mod service;
pub mod state;
