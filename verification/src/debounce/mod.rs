//! Filters for inputs that bounce.

pub mod timed;
