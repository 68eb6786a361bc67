//! Driver logic for a single WS2812-class RGB indicator light on an RMT
//! pulse-train peripheral, plus decoding of the chip's identity report.
//!
//! The hardware itself is reached by the program around this library: the
//! functions here decide what to ask of the peripheral and what its replies
//! mean, and they are verified to do so exactly.
use vstd::prelude::*;

pub mod channel;
pub mod chip_info;
pub mod encoder;
pub mod error;
pub mod rgb_led;
pub mod timing;
