//! Core of a timer-driven UART loopback self-test for a small board.
//!
//! A periodic tick raises a flag from interrupt context. The main loop consumes
//! the flag, exchanges a fixed message with the serial port one byte at a time,
//! compares what came back, and reports the verdict on the display and the
//! indicator lights before it goes back to sleep.
//!
//! Everything here is a decision on plain values: the hardware is driven by the
//! caller, who performs each action the library hands out and feeds the result
//! back in.

pub mod bounded;
pub mod engine;
pub mod indicator;
pub mod message;
pub mod policy;
pub mod report;
pub mod schedule;
pub mod signal;
