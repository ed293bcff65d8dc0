//! Bare-metal building blocks for a single-core microcontroller: a
//! level-triggered wake flag, the decisions of a one-task cooperative runner,
//! and the register-write protocol of a blocking serial-bus master.
//!
//! Everything here works on plain values. The surrounding firmware performs
//! the register accesses, halts the core and polls the task; this crate
//! decides what is to be done and in which order.

pub mod executor;
pub mod flag;
pub mod i2c;
