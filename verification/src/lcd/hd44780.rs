//! The command set of the HD44780 display controller.

use crate::error::{GpioError, GpioResult};
use crate::lcd::{flagged, with_flag};
use std::fmt::Debug;
use vstd::prelude::*;

verus! {

/// The way the cursor moves after a character.
#[derive(Copy, Clone, Debug, PartialEq, Eq, Structural)]
pub enum CursorDirection {
    /// To the left.
    Left,
    /// To the right.
    Right,
}

/// The command that clears the display.
pub const CLEAR_DISPLAY: u8 = 0b0000_0001;

/// The command that brings the cursor home.
pub const RETURN_HOME: u8 = 0b0000_0010;

/// The command `000001IS`: `I` moves the cursor to the right, `S` shifts the
/// display.
pub open spec fn entry_mode_byte(cursor_direction: CursorDirection, shift: bool) -> u8 {
    flagged(
        flagged(0b0000_0100, cursor_direction == CursorDirection::Right, 0b0000_0010),
        shift,
        0b0000_0001,
    )
}

/// The command `00001DCB`: display on, cursor on, cursor blinking.
pub open spec fn display_control_byte(display_on: bool, cursor_on: bool, blink_on: bool) -> u8 {
    flagged(
        flagged(flagged(0b0000_1000, display_on, 0b0000_0100), cursor_on, 0b0000_0010),
        blink_on,
        0b0000_0001,
    )
}

/// The command `0001DR00`: `D` shifts the display and not the cursor, `R`
/// shifts to the right.
pub open spec fn cursor_shift_byte(display_shift: bool, direction: CursorDirection) -> u8 {
    flagged(
        flagged(0b0001_0000, display_shift, 0b0000_1000),
        direction == CursorDirection::Right,
        0b0000_0100,
    )
}

/// The command `001DNF00`: eight data lines, two display lines, the large
/// font.
pub open spec fn function_set_byte(data_length: bool, two_lines: bool, font: bool) -> u8 {
    flagged(
        flagged(flagged(0b0010_0000, data_length, 0b0001_0000), two_lines, 0b0000_1000),
        font,
        0b0000_0100,
    )
}

/// The command `000001IS`.
pub fn entry_mode_command(cursor_direction: CursorDirection, shift: bool) -> (command: u8)
    ensures
        command == entry_mode_byte(cursor_direction, shift),
{
    let right: bool = match cursor_direction {
        CursorDirection::Right => true,
        CursorDirection::Left => false,
    };
    with_flag(with_flag(0b0000_0100, right, 0b0000_0010), shift, 0b0000_0001)
}

/// The command `00001DCB`.
pub fn display_control_command(display_on: bool, cursor_on: bool, blink_on: bool) -> (command: u8)
    ensures
        command == display_control_byte(display_on, cursor_on, blink_on),
{
    with_flag(
        with_flag(with_flag(0b0000_1000, display_on, 0b0000_0100), cursor_on, 0b0000_0010),
        blink_on,
        0b0000_0001,
    )
}

/// The command `0001DR00`.
pub fn cursor_shift_command(display_shift: bool, direction: CursorDirection) -> (command: u8)
    ensures
        command == cursor_shift_byte(display_shift, direction),
{
    let right: bool = match direction {
        CursorDirection::Right => true,
        CursorDirection::Left => false,
    };
    with_flag(with_flag(0b0001_0000, display_shift, 0b0000_1000), right, 0b0000_0100)
}

/// The command `001DNF00`.
pub fn function_set_command(data_length: bool, two_lines: bool, font: bool) -> (command: u8)
    ensures
        command == function_set_byte(data_length, two_lines, font),
{
    with_flag(
        with_flag(with_flag(0b0010_0000, data_length, 0b0001_0000), two_lines, 0b0000_1000),
        font,
        0b0000_0100,
    )
}

/// The command `01AAAAAA` that sets the address in the character generator:
/// `InvalidArgument` for an address above 63.
pub fn cgram_address_command(address: u8) -> (r: GpioResult<u8>)
    ensures
        address > 0b0011_1111 <==> r == Err::<u8, GpioError>(GpioError::InvalidArgument),
        address <= 0b0011_1111 <==> r == Ok::<u8, GpioError>(0b0100_0000u8 | address),
{
    if address > 0b0011_1111 {
        return Err(GpioError::InvalidArgument);
    }
    Ok(0b0100_0000u8 | address)
}

/// The command `1AAAAAAA` that sets the address in the display data:
/// `InvalidArgument` for an address above 127.
pub fn ddram_address_command(address: u8) -> (r: GpioResult<u8>)
    ensures
        address > 0b0111_1111 <==> r == Err::<u8, GpioError>(GpioError::InvalidArgument),
        address <= 0b0111_1111 <==> r == Ok::<u8, GpioError>(0b1000_0000u8 | address),
{
    if address > 0b0111_1111 {
        return Err(GpioError::InvalidArgument);
    }
    Ok(0b1000_0000u8 | address)
}

/// The busy flag and the address counter, from the byte that a command read
/// returns: the flag is bit 7, the address the seven bits below it.
pub fn split_busy_flag_and_address(byte: u8) -> (r: (bool, u8))
    ensures
        r.0 == (byte & 0b1000_0000 != 0),
        r.1 == byte & 0b0111_1111,
{
    (byte & 0b1000_0000 != 0, byte & 0b0111_1111)
}

/// A display with an HD44780 controller.
///
/// What a display does with a transfer is for its driver to say: each of the
/// five relations below holds between the driver before a transfer, the
/// driver after it, what was handed over and what came back. A driver that
/// says nothing can do anything.
pub trait HD44780Driver: Debug {
    /// Whether bringing the controller up can take the driver from one state
    /// to another and give a result.
    open spec fn init_gives(
        before: &Self,
        after: &Self,
        multiline: bool,
        alt_font: bool,
        r: GpioResult<()>,
    ) -> bool {
        true
    }

    /// Whether sending a command byte can take the driver from one state to
    /// another and give a result.
    open spec fn command_gives(before: &Self, after: &Self, command: u8, r: GpioResult<()>)
        -> bool {
        true
    }

    /// Whether sending a data byte can take the driver from one state to
    /// another and give a result.
    open spec fn data_gives(before: &Self, after: &Self, data: u8, r: GpioResult<()>) -> bool {
        true
    }

    /// Whether reading the busy flag and the address counter can take the
    /// driver from one state to another and give a result.
    open spec fn command_read(before: &Self, after: &Self, r: GpioResult<u8>) -> bool {
        true
    }

    /// Whether reading a data byte can take the driver from one state to
    /// another and give a result.
    open spec fn data_read(before: &Self, after: &Self, r: GpioResult<u8>) -> bool {
        true
    }

    /// Brings the controller up.
    fn init(&mut self, multiline: bool, alt_font: bool) -> (r: GpioResult<()>)
        ensures
            Self::init_gives(old(self), final(self), multiline, alt_font, r),
    ;

    /// Clears the display and brings the cursor home: sends the command
    /// `00000001`.
    fn clear_display(&mut self) -> (r: GpioResult<()>)
        ensures
            Self::command_gives(old(self), final(self), CLEAR_DISPLAY, r),
    {
        self.send_command(CLEAR_DISPLAY)
    }

    /// Brings the cursor home: sends the command `00000010`.
    fn return_home(&mut self) -> (r: GpioResult<()>)
        ensures
            Self::command_gives(old(self), final(self), RETURN_HOME, r),
    {
        self.send_command(RETURN_HOME)
    }

    /// Sets how the cursor moves and whether the display shifts: sends the
    /// command `000001IS`.
    fn set_entry_mode(&mut self, cursor_direction: CursorDirection, shift: bool) -> (r: GpioResult<
        (),
    >)
        ensures
            Self::command_gives(
                old(self),
                final(self),
                entry_mode_byte(cursor_direction, shift),
                r,
            ),
    {
        self.send_command(entry_mode_command(cursor_direction, shift))
    }

    /// Switches the display, the cursor and its blinking on or off: sends the
    /// command `00001DCB`.
    fn set_display_control(&mut self, display_on: bool, cursor_on: bool, blink_on: bool) -> (r:
        GpioResult<()>)
        ensures
            Self::command_gives(
                old(self),
                final(self),
                display_control_byte(display_on, cursor_on, blink_on),
                r,
            ),
    {
        self.send_command(display_control_command(display_on, cursor_on, blink_on))
    }

    /// Moves the cursor or shifts the display by one place: sends the command
    /// `0001DR00`.
    fn cursor_shift(&mut self, display_shift: bool, direction: CursorDirection) -> (r: GpioResult<
        (),
    >)
        ensures
            Self::command_gives(
                old(self),
                final(self),
                cursor_shift_byte(display_shift, direction),
                r,
            ),
    {
        self.send_command(cursor_shift_command(display_shift, direction))
    }

    /// Sets the bus width, the number of lines and the font: sends the
    /// command `001DNF00`.
    fn function_set(&mut self, data_length: bool, two_lines: bool, font: bool) -> (r: GpioResult<
        (),
    >)
        ensures
            Self::command_gives(
                old(self),
                final(self),
                function_set_byte(data_length, two_lines, font),
                r,
            ),
    {
        self.send_command(function_set_command(data_length, two_lines, font))
    }

    /// Sets the address in the character generator: sends the command
    /// `01AAAAAA`; `InvalidArgument`, with nothing sent, for an address above
    /// 63.
    fn set_cgram_address(&mut self, address: u8) -> (r: GpioResult<()>)
        ensures
            address > 0b0011_1111 ==> r == Err::<(), GpioError>(GpioError::InvalidArgument),
            address <= 0b0011_1111 ==> Self::command_gives(
                old(self),
                final(self),
                0b0100_0000u8 | address,
                r,
            ),
    {
        let command: u8 = cgram_address_command(address)?;
        self.send_command(command)
    }

    /// Sets the address in the display data: sends the command `1AAAAAAA`;
    /// `InvalidArgument`, with nothing sent, for an address above 127.
    fn set_ddram_address(&mut self, address: u8) -> (r: GpioResult<()>)
        ensures
            address > 0b0111_1111 ==> r == Err::<(), GpioError>(GpioError::InvalidArgument),
            address <= 0b0111_1111 ==> Self::command_gives(
                old(self),
                final(self),
                0b1000_0000u8 | address,
                r,
            ),
    {
        let command: u8 = ddram_address_command(address)?;
        self.send_command(command)
    }

    /// Reads the busy flag and the address counter: bit 7 and the seven bits
    /// below it of the byte that a command read gives. The error of the read
    /// is handed on.
    fn get_busy_flag_and_address(&mut self) -> (r: GpioResult<(bool, u8)>)
        ensures
            match r {
                Ok((busy_flag, address)) => exists|byte: u8| #[trigger]
                    Self::command_read(old(self), final(self), Ok(byte)) && busy_flag == (byte
                        & 0b1000_0000 != 0) && address == byte & 0b0111_1111,
                Err(error) => Self::command_read(old(self), final(self), Err(error)),
            },
    {
        let command: u8 = self.read_command()?;
        Ok(split_busy_flag_and_address(command))
    }

    /// Sends a command byte.
    fn send_command(&mut self, command: u8) -> (r: GpioResult<()>)
        ensures
            Self::command_gives(old(self), final(self), command, r),
    ;

    /// Sends a data byte.
    fn send_data(&mut self, data: u8) -> (r: GpioResult<()>)
        ensures
            Self::data_gives(old(self), final(self), data, r),
    ;

    /// Reads the busy flag and the address counter as one byte.
    fn read_command(&mut self) -> (r: GpioResult<u8>)
        ensures
            Self::command_read(old(self), final(self), r),
    ;

    /// Reads a data byte.
    fn read_data(&mut self) -> (r: GpioResult<u8>)
        ensures
            Self::data_read(old(self), final(self), r),
    ;
}

} // verus!
