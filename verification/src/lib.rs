//! Delay and timekeeping services built on a single SysTick-style 24-bit
//! countdown timer, plus a small debug byte sink.
//!
//! Two mutually exclusive consumers of the timer are provided: [`delay::Delay`],
//! a blocking busy-wait delay with microsecond resolution, and
//! [`tick::MultiDelayController`], an interrupt-driven millisecond wrap counter.

pub mod systick;
pub mod hw;
pub mod delay;
pub mod tick;
pub mod uart_debug;
