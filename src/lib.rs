//! Calibration, device-presence and telemetry logic for relaying a head
//! tracker's orientation samples to a head-tracking consumer.
//!
//! Angles travel through the library as IEEE-754 bit patterns (`u32` for
//! binary32, `u64` for binary64); the arithmetic on their values is done by
//! the program around the library.

pub mod euler;
pub mod presence;
pub mod session;
pub mod telemetry;
pub mod control;
