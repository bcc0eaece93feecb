//! Verified core of a hardware-abstraction layer for the general-purpose pins,
//! the clock generator and the pulse-width-modulation channels of a
//! single-board computer, with the signal-conditioning and display logic that
//! a door-lock controller builds on them.
//!
//! Nothing in this crate touches hardware. Every operation on a register block
//! is returned as a [`registers::RegisterOp`], which says which word to access
//! and how; the caller performs the volatile access on its mapped window.

pub mod app;
pub mod bits;
pub mod clock;
pub mod config;
pub mod debounce;
pub mod error;
pub mod gpio;
pub mod keypad;
pub mod lcd;
pub mod lease;
pub mod notes;
pub mod pins;
pub mod pwm;
pub mod raw;
pub mod registers;
pub mod rotenc;
pub mod soft;
pub mod time;
pub mod utils;
