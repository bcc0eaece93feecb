//! Character displays: the command sets of two controllers, and the drivers
//! that put their commands on a parallel bus.

pub mod gpio;
pub mod hd44780;
pub mod ssd1803a;

use vstd::prelude::*;

verus! {

/// A command byte with a flag bit set or left as it is.
pub open spec fn flagged(command: u8, on: bool, mask: u8) -> u8 {
    if on {
        command | mask
    } else {
        command
    }
}

/// Sets the bits of `mask` in a command byte where `on` holds.
pub fn with_flag(command: u8, on: bool, mask: u8) -> (byte: u8)
    ensures
        byte == flagged(command, on, mask),
{
    if on {
        command | mask
    } else {
        command
    }
}

} // verus!
