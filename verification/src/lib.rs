//! Verified core of a Raspberry Pi Pico alarm clock.
//!
//! The crate holds the decisions of the clock: the system state and how events change it, the
//! calendar and time-zone arithmetic, the alarm scheduling, the persisted settings, the LED
//! frames and the health watchdog. Hardware access and task plumbing live outside the crate.
pub mod datetime;
pub mod event;
pub mod state;
pub mod task;
pub mod utility;
