//! The command set of the SSD1803A display controller.
//!
//! The controller takes the commands of the HD44780 and adds its own in the
//! bits that the HD44780 leaves unused. Which of two commands a byte stands
//! for depends on two bits of state in the controller, `RE` and `IS`, that
//! the two function-set commands write. Each command is documented with the
//! values of `IS` and `RE` that it needs; a driver brings the controller into
//! that state before it sends the byte.

use crate::error::{GpioError, GpioResult};
use crate::lcd::hd44780::{
    HD44780Driver,
    cursor_shift_byte, cursor_shift_command, display_control_byte, display_control_command,
    entry_mode_byte, entry_mode_command, split_busy_flag_and_address, CursorDirection,
    CLEAR_DISPLAY, RETURN_HOME,
};
use crate::lcd::{flagged, with_flag};
use std::fmt::Debug;
use vstd::prelude::*;

verus! {

/// Which lines of the display are of double height.
#[derive(Copy, Clone, Debug, PartialEq, Eq, Structural)]
pub enum DoubleHeightMode {
    /// The last of three.
    DoubleBottom,
    /// The middle one of three.
    DoubleMiddle,
    /// Both of two.
    DoubleBoth,
    /// The first of three.
    DoubleTop,
}

impl DoubleHeightMode {
    /// The bits of the mode in its command.
    pub open spec fn mask_of(self) -> u8 {
        match self {
            DoubleHeightMode::DoubleBottom => 0b0000_0000,
            DoubleHeightMode::DoubleMiddle => 0b0000_0100,
            DoubleHeightMode::DoubleBoth => 0b0000_1000,
            DoubleHeightMode::DoubleTop => 0b0000_1100,
        }
    }

    /// The bits of the mode in its command.
    pub fn to_mask(&self) -> (mask: u8)
        ensures
            mask == self.mask_of(),
    {
        match self {
            DoubleHeightMode::DoubleBottom => 0b0000_0000,
            DoubleHeightMode::DoubleMiddle => 0b0000_0100,
            DoubleHeightMode::DoubleBoth => 0b0000_1000,
            DoubleHeightMode::DoubleTop => 0b0000_1100,
        }
    }
}

impl Default for DoubleHeightMode {
    fn default() -> (mode: Self)
        ensures
            mode == DoubleHeightMode::DoubleTop,
    {
        DoubleHeightMode::DoubleTop
    }
}

/// The divider of the bias voltage.
#[derive(Copy, Clone, Debug, PartialEq, Eq, Structural)]
pub enum BiasDivider {
    /// 1/5.
    Bias1_5,
    /// 1/4.
    Bias1_4,
    /// 1/7.
    Bias1_7,
    /// 1/6.
    Bias1_6,
}

impl BiasDivider {
    /// The high bit of the divider's code.
    pub open spec fn spec_bs1(self) -> bool {
        self == BiasDivider::Bias1_7 || self == BiasDivider::Bias1_6
    }

    /// The low bit of the divider's code.
    pub open spec fn spec_bs0(self) -> bool {
        self == BiasDivider::Bias1_4 || self == BiasDivider::Bias1_6
    }

    /// The high bit of the divider's code.
    pub fn bs1(&self) -> (bit: bool)
        ensures
            bit == self.spec_bs1(),
    {
        match self {
            BiasDivider::Bias1_5 => false,
            BiasDivider::Bias1_4 => false,
            BiasDivider::Bias1_7 => true,
            BiasDivider::Bias1_6 => true,
        }
    }

    /// The low bit of the divider's code.
    pub fn bs0(&self) -> (bit: bool)
        ensures
            bit == self.spec_bs0(),
    {
        match self {
            BiasDivider::Bias1_5 => false,
            BiasDivider::Bias1_4 => true,
            BiasDivider::Bias1_7 => false,
            BiasDivider::Bias1_6 => true,
        }
    }
}

impl Default for BiasDivider {
    fn default() -> (divider: Self)
        ensures
            divider == BiasDivider::Bias1_6,
    {
        BiasDivider::Bias1_6
    }
}

/// The frequency of the internal oscillator.
#[derive(Copy, Clone, Debug, PartialEq, Eq, Structural)]
pub enum InternalOscFrequency {
    /// 420 kHz.
    Freq420kHz,
    /// 460 kHz.
    Freq460kHz,
    /// 500 kHz.
    Freq500kHz,
    /// 540 kHz.
    Freq540kHz,
    /// 580 kHz.
    Freq580kHz,
    /// 620 kHz.
    Freq620kHz,
    /// 640 kHz.
    Freq640kHz,
    /// 680 kHz.
    Freq680kHz,
}

impl InternalOscFrequency {
    /// The bits of the frequency in its command.
    pub open spec fn mask_of(self) -> u8 {
        match self {
            InternalOscFrequency::Freq420kHz => 0b0000_0000,
            InternalOscFrequency::Freq460kHz => 0b0000_0001,
            InternalOscFrequency::Freq500kHz => 0b0000_0010,
            InternalOscFrequency::Freq540kHz => 0b0000_0011,
            InternalOscFrequency::Freq580kHz => 0b0000_0100,
            InternalOscFrequency::Freq620kHz => 0b0000_0101,
            InternalOscFrequency::Freq640kHz => 0b0000_0110,
            InternalOscFrequency::Freq680kHz => 0b0000_0111,
        }
    }

    /// The bits of the frequency in its command.
    pub fn to_mask(&self) -> (mask: u8)
        ensures
            mask == self.mask_of(),
    {
        match self {
            InternalOscFrequency::Freq420kHz => 0b0000_0000,
            InternalOscFrequency::Freq460kHz => 0b0000_0001,
            InternalOscFrequency::Freq500kHz => 0b0000_0010,
            InternalOscFrequency::Freq540kHz => 0b0000_0011,
            InternalOscFrequency::Freq580kHz => 0b0000_0100,
            InternalOscFrequency::Freq620kHz => 0b0000_0101,
            InternalOscFrequency::Freq640kHz => 0b0000_0110,
            InternalOscFrequency::Freq680kHz => 0b0000_0111,
        }
    }
}

impl Default for InternalOscFrequency {
    fn default() -> (frequency: Self)
        ensures
            frequency == InternalOscFrequency::Freq540kHz,
    {
        InternalOscFrequency::Freq540kHz
    }
}

/// The ratio of the internal resistors of the voltage follower.
#[derive(Copy, Clone, Debug, PartialEq, Eq, Structural)]
pub enum InternalResistorRatio {
    /// 1.9.
    IR0,
    /// 2.2.
    IR1,
    /// 2.6.
    IR2,
    /// 3.0.
    IR3,
    /// 3.6.
    IR4,
    /// 4.4.
    IR5,
    /// 5.3.
    IR6,
    /// 6.5.
    IR7,
}

impl InternalResistorRatio {
    /// The bits of the ratio in its command.
    pub open spec fn mask_of(self) -> u8 {
        match self {
            InternalResistorRatio::IR0 => 0b0000_0000,
            InternalResistorRatio::IR1 => 0b0000_0001,
            InternalResistorRatio::IR2 => 0b0000_0010,
            InternalResistorRatio::IR3 => 0b0000_0011,
            InternalResistorRatio::IR4 => 0b0000_0100,
            InternalResistorRatio::IR5 => 0b0000_0101,
            InternalResistorRatio::IR6 => 0b0000_0110,
            InternalResistorRatio::IR7 => 0b0000_0111,
        }
    }

    /// The bits of the ratio in its command.
    pub fn to_mask(&self) -> (mask: u8)
        ensures
            mask == self.mask_of(),
    {
        match self {
            InternalResistorRatio::IR0 => 0b0000_0000,
            InternalResistorRatio::IR1 => 0b0000_0001,
            InternalResistorRatio::IR2 => 0b0000_0010,
            InternalResistorRatio::IR3 => 0b0000_0011,
            InternalResistorRatio::IR4 => 0b0000_0100,
            InternalResistorRatio::IR5 => 0b0000_0101,
            InternalResistorRatio::IR6 => 0b0000_0110,
            InternalResistorRatio::IR7 => 0b0000_0111,
        }
    }
}

impl Default for InternalResistorRatio {
    fn default() -> (ratio: Self)
        ensures
            ratio == InternalResistorRatio::IR2,
    {
        InternalResistorRatio::IR2
    }
}

/// The temperature coefficient of the contrast, in percent for each degree.
#[derive(Copy, Clone, Debug, PartialEq, Eq, Structural)]
pub enum TempCoefficient {
    /// -0.05.
    C0_05,
    /// -0.10.
    C0_10,
    /// -0.15.
    C0_15,
    /// -0.20.
    C0_20,
}

impl TempCoefficient {
    /// The data byte that selects the coefficient.
    pub open spec fn mask_of(self) -> u8 {
        match self {
            TempCoefficient::C0_05 => 0b0000_0010,
            TempCoefficient::C0_10 => 0b0000_0100,
            TempCoefficient::C0_15 => 0b0000_0110,
            TempCoefficient::C0_20 => 0b0000_0111,
        }
    }

    /// The data byte that selects the coefficient.
    pub fn to_mask(&self) -> (mask: u8)
        ensures
            mask == self.mask_of(),
    {
        match self {
            TempCoefficient::C0_05 => 0b0000_0010,
            TempCoefficient::C0_10 => 0b0000_0100,
            TempCoefficient::C0_15 => 0b0000_0110,
            TempCoefficient::C0_20 => 0b0000_0111,
        }
    }
}

impl Default for TempCoefficient {
    fn default() -> (coefficient: Self)
        ensures
            coefficient == TempCoefficient::C0_05,
    {
        TempCoefficient::C0_05
    }
}

/// The character set.
#[derive(Copy, Clone, Debug, PartialEq, Eq, Structural)]
pub enum Rom {
    /// Set A: symbols and Latin letters with diacritics.
    RomA,
    /// Set B: Cyrillic.
    RomB,
    /// Set C: Latin letters with diacritics and katakana.
    RomC,
}

impl Rom {
    /// The data byte that selects the set.
    pub open spec fn mask_of(self) -> u8 {
        match self {
            Rom::RomA => 0b0000_0000,
            Rom::RomB => 0b0000_0100,
            Rom::RomC => 0b0000_1000,
        }
    }

    /// The data byte that selects the set.
    pub fn to_mask(&self) -> (mask: u8)
        ensures
            mask == self.mask_of(),
    {
        match self {
            Rom::RomA => 0b0000_0000,
            Rom::RomB => 0b0000_0100,
            Rom::RomC => 0b0000_1000,
        }
    }
}

/// The command that precedes the data byte of a temperature coefficient.
pub const TEMP_COEFFICIENT_CONTROL: u8 = 0b0111_0110;

/// The command that precedes the data byte of a character set.
pub const ROM_SELECTION: u8 = 0b0111_0010;

/// The largest contrast, and the largest scroll quantity.
pub const SIX_BITS: u8 = 0b0011_1111;

/// The command `0000001P`: `P` powers the display down.
pub open spec fn power_down_byte(power_down: bool) -> u8 {
    flagged(0b0000_0010, power_down, 0b0000_0001)
}

/// The command `000001CS`: `C` mirrors the lines top to bottom, `S` mirrors
/// the columns left to right.
pub open spec fn entry_mode_ex_byte(reverse_bds: bool, reverse_bdc: bool) -> u8 {
    flagged(flagged(0b0000_0100, reverse_bdc, 0b0000_0010), reverse_bds, 0b0000_0001)
}

/// The command `00001FBL`: the wide font, the inverted cursor, three or four
/// lines.
pub open spec fn ext_function_set_byte(wide_font: bool, invert_cursor: bool, lines_3_or_4: bool)
    -> u8 {
    flagged(
        flagged(flagged(0b0000_1000, wide_font, 0b0000_0100), invert_cursor, 0b0000_0010),
        lines_3_or_4,
        0b0000_0001,
    )
}

/// The command `0001UUBD`: the double-height mode, the high bit of the bias
/// divider, and a bit that is set where the display shifts by lines and not
/// by dots.
pub open spec fn double_height_byte(
    double_height: DoubleHeightMode,
    bias_divider: BiasDivider,
    dot_shift: bool,
) -> u8 {
    flagged(
        flagged(0b0001_0000u8 | double_height.mask_of(), bias_divider.spec_bs1(), 0b0000_0010),
        !dot_shift,
        0b0000_0001,
    )
}

/// The command `0001BFFF`: the low bit of the bias divider and the frequency
/// of the oscillator.
pub open spec fn osc_frequency_byte(bias_divider: BiasDivider, frequency: InternalOscFrequency)
    -> u8 {
    flagged(0b0001_0000, bias_divider.spec_bs0(), 0b0000_1000) | frequency.mask_of()
}

/// The command `0001SSSS`: one bit for each line that shifts, the first line
/// lowest.
pub open spec fn shift_enable_byte(shift_1: bool, shift_2: bool, shift_3: bool, shift_4: bool)
    -> u8 {
    flagged(
        flagged(
            flagged(flagged(0b0001_0000, shift_4, 0b0000_1000), shift_3, 0b0000_0100),
            shift_2,
            0b0000_0010,
        ),
        shift_1,
        0b0000_0001,
    )
}

/// The command `001BLD0I`, which clears `RE`: eight data lines, two or four
/// display lines, double height, and the value that `IS` takes.
pub open spec fn function_set_0_byte(
    data_length: bool,
    lines_2_or_4: bool,
    double_height_enabled: bool,
    set_is: bool,
) -> u8 {
    flagged(
        flagged(
            flagged(flagged(0b0010_0000, data_length, 0b0001_0000), lines_2_or_4, 0b0000_1000),
            double_height_enabled,
            0b0000_0100,
        ),
        set_is,
        0b0000_0001,
    )
}

/// The command `001BLb1r`, which sets `RE`: eight data lines, two or four
/// display lines, blinking characters, the inverted display.
pub open spec fn function_set_1_byte(
    data_length: bool,
    lines_2_or_4: bool,
    char_blink: bool,
    invert: bool,
) -> u8 {
    flagged(
        flagged(
            flagged(flagged(0b0010_0010, data_length, 0b0001_0000), lines_2_or_4, 0b0000_1000),
            char_blink,
            0b0000_0100,
        ),
        invert,
        0b0000_0001,
    )
}

/// The command `0101IBCC`: the icons, the booster, and the two high bits of
/// the contrast.
pub open spec fn icon_booster_contrast_byte(
    icon_display: bool,
    booster_regulator_on: bool,
    contrast: u8,
) -> u8 {
    flagged(flagged(0b0101_0000, icon_display, 0b0000_1000), booster_regulator_on, 0b0000_0100) | (
    contrast >> 4)
}

/// The command `0110DRRR`: the divider circuit and the resistor ratio.
pub open spec fn follower_control_byte(
    divider_circuit: bool,
    internal_resistor_ratio: InternalResistorRatio,
) -> u8 {
    flagged(0b0110_0000, divider_circuit, 0b0000_1000) | internal_resistor_ratio.mask_of()
}

/// The command `0000001P`.
pub fn power_down_command(power_down: bool) -> (command: u8)
    ensures
        command == power_down_byte(power_down),
{
    with_flag(0b0000_0010, power_down, 0b0000_0001)
}

/// The command `000001CS`.
pub fn entry_mode_ex_command(reverse_bds: bool, reverse_bdc: bool) -> (command: u8)
    ensures
        command == entry_mode_ex_byte(reverse_bds, reverse_bdc),
{
    with_flag(with_flag(0b0000_0100, reverse_bdc, 0b0000_0010), reverse_bds, 0b0000_0001)
}

/// The command `00001FBL`.
pub fn ext_function_set_command(wide_font: bool, invert_cursor: bool, lines_3_or_4: bool) -> (command:
    u8)
    ensures
        command == ext_function_set_byte(wide_font, invert_cursor, lines_3_or_4),
{
    with_flag(
        with_flag(with_flag(0b0000_1000, wide_font, 0b0000_0100), invert_cursor, 0b0000_0010),
        lines_3_or_4,
        0b0000_0001,
    )
}

/// The command `0001UUBD`.
pub fn double_height_command(
    double_height: DoubleHeightMode,
    bias_divider: BiasDivider,
    dot_shift: bool,
) -> (command: u8)
    ensures
        command == double_height_byte(double_height, bias_divider, dot_shift),
{
    let command: u8 = 0b0001_0000u8 | double_height.to_mask();
    with_flag(with_flag(command, bias_divider.bs1(), 0b0000_0010), !dot_shift, 0b0000_0001)
}

/// The command `0001BFFF`.
pub fn osc_frequency_command(bias_divider: BiasDivider, frequency: InternalOscFrequency) -> (command:
    u8)
    ensures
        command == osc_frequency_byte(bias_divider, frequency),
{
    with_flag(0b0001_0000, bias_divider.bs0(), 0b0000_1000) | frequency.to_mask()
}

/// The command `0001SSSS`.
pub fn shift_enable_command(shift_1: bool, shift_2: bool, shift_3: bool, shift_4: bool) -> (command:
    u8)
    ensures
        command == shift_enable_byte(shift_1, shift_2, shift_3, shift_4),
{
    with_flag(
        with_flag(
            with_flag(with_flag(0b0001_0000, shift_4, 0b0000_1000), shift_3, 0b0000_0100),
            shift_2,
            0b0000_0010,
        ),
        shift_1,
        0b0000_0001,
    )
}

/// The command `001BLD0I`.
pub fn function_set_0_command(
    data_length: bool,
    lines_2_or_4: bool,
    double_height_enabled: bool,
    set_is: bool,
) -> (command: u8)
    ensures
        command == function_set_0_byte(data_length, lines_2_or_4, double_height_enabled, set_is),
{
    with_flag(
        with_flag(
            with_flag(with_flag(0b0010_0000, data_length, 0b0001_0000), lines_2_or_4, 0b0000_1000),
            double_height_enabled,
            0b0000_0100,
        ),
        set_is,
        0b0000_0001,
    )
}

/// The command `001BLb1r`.
pub fn function_set_1_command(data_length: bool, lines_2_or_4: bool, char_blink: bool, invert: bool)
    -> (command: u8)
    ensures
        command == function_set_1_byte(data_length, lines_2_or_4, char_blink, invert),
{
    with_flag(
        with_flag(
            with_flag(with_flag(0b0010_0010, data_length, 0b0001_0000), lines_2_or_4, 0b0000_1000),
            char_blink,
            0b0000_0100,
        ),
        invert,
        0b0000_0001,
    )
}

/// The command `0100AAAA` that sets the address in the segment memory:
/// `InvalidArgument` for an address above 15.
pub fn segram_address_command(address: u8) -> (r: GpioResult<u8>)
    ensures
        address > 0b0000_1111 <==> r == Err::<u8, GpioError>(GpioError::InvalidArgument),
        address <= 0b0000_1111 <==> r == Ok::<u8, GpioError>(0b0100_0000u8 | address),
{
    if address > 0b0000_1111 {
        return Err(GpioError::InvalidArgument);
    }
    Ok(0b0100_0000u8 | address)
}

/// The command `0101IBCC`: `InvalidArgument` for a contrast above 63.
pub fn icon_booster_contrast_command(icon_display: bool, booster_regulator_on: bool, contrast: u8)
    -> (r: GpioResult<u8>)
    ensures
        contrast > SIX_BITS <==> r == Err::<u8, GpioError>(GpioError::InvalidArgument),
        contrast <= SIX_BITS <==> r == Ok::<u8, GpioError>(
            icon_booster_contrast_byte(icon_display, booster_regulator_on, contrast),
        ),
{
    if contrast > SIX_BITS {
        return Err(GpioError::InvalidArgument);
    }
    let command: u8 = with_flag(
        with_flag(0b0101_0000, icon_display, 0b0000_1000),
        booster_regulator_on,
        0b0000_0100,
    );
    Ok(command | (contrast >> 4))
}

/// The command `0110DRRR`.
pub fn follower_control_command(
    divider_circuit: bool,
    internal_resistor_ratio: InternalResistorRatio,
) -> (command: u8)
    ensures
        command == follower_control_byte(divider_circuit, internal_resistor_ratio),
{
    with_flag(0b0110_0000, divider_circuit, 0b0000_1000) | internal_resistor_ratio.to_mask()
}

/// The command `0111CCCC` with the four low bits of the contrast:
/// `InvalidArgument` for a contrast above 63.
pub fn contrast_set_command(contrast: u8) -> (r: GpioResult<u8>)
    ensures
        contrast > SIX_BITS <==> r == Err::<u8, GpioError>(GpioError::InvalidArgument),
        contrast <= SIX_BITS <==> r == Ok::<u8, GpioError>(0b0111_0000u8 | (contrast & 0b1111)),
{
    if contrast > SIX_BITS {
        return Err(GpioError::InvalidArgument);
    }
    Ok(0b0111_0000u8 | (contrast & 0b1111))
}

/// The command `1AAAAAAA` that sets the address in the display data:
/// `InvalidArgument` for an address above 127.
pub fn ddram_address_command(address: u8) -> (r: GpioResult<u8>)
    ensures
        address > 0b0111_1111 <==> r == Err::<u8, GpioError>(GpioError::InvalidArgument),
        address <= 0b0111_1111 <==> r == Ok::<u8, GpioError>(0b1000_0000u8 | address),
{
    crate::lcd::hd44780::ddram_address_command(address)
}

/// The command `10SSSSSS` that sets the scroll quantity: `InvalidArgument`
/// for a quantity above 63.
pub fn scroll_quantity_command(quantity: u8) -> (r: GpioResult<u8>)
    ensures
        quantity > SIX_BITS <==> r == Err::<u8, GpioError>(GpioError::InvalidArgument),
        quantity <= SIX_BITS <==> r == Ok::<u8, GpioError>(0b1000_0000u8 | quantity),
{
    if quantity > SIX_BITS {
        return Err(GpioError::InvalidArgument);
    }
    Ok(0b1000_0000u8 | quantity)
}

/// A display with an SSD1803A controller.
///
/// `send_command` takes, besides the byte, the values of `IS` and `RE` that
/// the command needs, `None` where it does not matter; the driver brings the
/// controller into that state first.
///
/// What a display does with a transfer is for its driver to say: each of the
/// five relations below holds between the driver before a transfer, the
/// driver after it, what was handed over and what came back. A driver that
/// says nothing can do anything.
pub trait SSD1803ADriver: Debug {
    /// Whether bringing the controller up can take the driver from one state
    /// to another and give a result.
    open spec fn init_gives(before: &Self, after: &Self, lines: u8, r: GpioResult<()>) -> bool {
        true
    }

    /// Whether sending a command byte, with the values of `IS` and `RE` that
    /// it needs, can take the driver from one state to another and give a
    /// result.
    open spec fn command_gives(
        before: &Self,
        after: &Self,
        data: u8,
        is: Option<bool>,
        re: Option<bool>,
        r: GpioResult<()>,
    ) -> bool {
        true
    }

    /// Whether sending a data byte can take the driver from one state to
    /// another and give a result.
    open spec fn data_gives(before: &Self, after: &Self, data: u8, r: GpioResult<()>) -> bool {
        true
    }

    /// Whether reading the busy flag and the address counter can take the
    /// driver from one state to another and give a result.
    open spec fn command_read(before: &Self, after: &Self, r: GpioResult<u8>) -> bool {
        true
    }

    /// Whether reading a data byte can take the driver from one state to
    /// another and give a result.
    open spec fn data_read(before: &Self, after: &Self, r: GpioResult<u8>) -> bool {
        true
    }

    /// Brings the controller up for a display of `lines` lines.
    fn init(&mut self, lines: u8) -> (r: GpioResult<()>)
        ensures
            Self::init_gives(old(self), final(self), lines, r),
    ;

    /// Clears the display and brings the cursor home: sends the command
    /// `00000001`, whatever `IS` and `RE` are.
    fn clear_display(&mut self) -> (r: GpioResult<()>)
        ensures
            Self::command_gives(old(self), final(self), CLEAR_DISPLAY, None, None, r),
    {
        self.send_command(CLEAR_DISPLAY, None, None)
    }

    /// Brings the cursor home: sends the command `00000010` with `RE` cleared.
    fn return_home(&mut self) -> (r: GpioResult<()>)
        ensures
            Self::command_gives(old(self), final(self), RETURN_HOME, None, Some(false), r),
    {
        self.send_command(RETURN_HOME, None, Some(false))
    }

    /// Powers the display down or up: sends the command `0000001P` with `RE`
    /// set.
    fn power_down_mode(&mut self, power_down: bool) -> (r: GpioResult<()>)
        ensures
            Self::command_gives(old(self), final(self), power_down_byte(power_down), None, Some(true), r),
    {
        self.send_command(power_down_command(power_down), None, Some(true))
    }

    /// Sets how the cursor moves and whether the display shifts: sends the
    /// command `000001IS` with `RE` cleared.
    fn set_entry_mode(&mut self, cursor_direction: CursorDirection, shift: bool) -> (r: GpioResult<()>)
        ensures
            Self::command_gives(old(self), final(self), entry_mode_byte(cursor_direction, shift), None, Some(false), r),
    {
        self.send_command(entry_mode_command(cursor_direction, shift), None, Some(false))
    }

    /// Mirrors the display, columns or lines: sends the command `000001CS`
    /// with `RE` set.
    fn set_entry_mode_ex(&mut self, reverse_bds: bool, reverse_bdc: bool) -> (r: GpioResult<()>)
        ensures
            Self::command_gives(old(self), final(self), entry_mode_ex_byte(reverse_bds, reverse_bdc), None, Some(true), r),
    {
        self.send_command(entry_mode_ex_command(reverse_bds, reverse_bdc), None, Some(true))
    }

    /// Switches the display, the cursor and its blinking on or off: sends the
    /// command `00001DCB` with `RE` cleared.
    fn set_display_control(&mut self, display_on: bool, cursor_on: bool, blink_on: bool) -> (r: GpioResult<()>)
        ensures
            Self::command_gives(old(self), final(self), display_control_byte(display_on, cursor_on, blink_on), None, Some(false), r),
    {
        self.send_command(
            display_control_command(display_on, cursor_on, blink_on),
            None,
            Some(false),
        )
    }

    /// Sets the font width, the cursor inversion and the number of lines:
    /// sends the command `00001FBL` with `RE` set.
    fn ext_function_set(&mut self, wide_font: bool, invert_cursor: bool, lines_3_or_4: bool) -> (r: GpioResult<()>)
        ensures
            Self::command_gives(old(self), final(self), ext_function_set_byte(wide_font, invert_cursor, lines_3_or_4), None, Some(true), r),
    {
        self.send_command(
            ext_function_set_command(wide_font, invert_cursor, lines_3_or_4),
            None,
            Some(true),
        )
    }

    /// Moves the cursor or shifts the display by one place: sends the command
    /// `0001DR00` with `IS` and `RE` cleared.
    fn cursor_shift(&mut self, display_shift: bool, direction: CursorDirection) -> (r: GpioResult<()>)
        ensures
            Self::command_gives(old(self), final(self), cursor_shift_byte(display_shift, direction), Some(false), Some(false), r),
    {
        self.send_command(cursor_shift_command(display_shift, direction), Some(false), Some(false))
    }

    /// Sets the double-height mode, the high bit of the bias divider and the
    /// kind of shift: sends the command `0001UUBD` with `IS` cleared and `RE`
    /// set.
    fn double_height_bias_dot_shift(
        &mut self,
        double_height: DoubleHeightMode,
        bias_divider: BiasDivider,
        dot_shift: bool,
    ) -> (r: GpioResult<()>)
        ensures
            Self::command_gives(old(self), final(self), double_height_byte(double_height, bias_divider, dot_shift), Some(false), Some(true), r),
    {
        self.send_command(
            double_height_command(double_height, bias_divider, dot_shift),
            Some(false),
            Some(true),
        )
    }

    /// Sets the low bit of the bias divider and the frequency of the
    /// oscillator: sends the command `0001BFFF` with `IS` set and `RE`
    /// cleared.
    fn internal_osc_frequency(
        &mut self,
        bias_divider: BiasDivider,
        frequency: InternalOscFrequency,
    ) -> (r: GpioResult<()>)
        ensures
            Self::command_gives(old(self), final(self), osc_frequency_byte(bias_divider, frequency), Some(true), Some(false), r),
    {
        self.send_command(osc_frequency_command(bias_divider, frequency), Some(true), Some(false))
    }

    /// Chooses the lines that shift: sends the command `0001SSSS` with `IS`
    /// and `RE` set.
    fn shift_enable(&mut self, shift_1: bool, shift_2: bool, shift_3: bool, shift_4: bool) -> (r: GpioResult<()>)
        ensures
            Self::command_gives(old(self), final(self), shift_enable_byte(shift_1, shift_2, shift_3, shift_4), Some(true), Some(true), r),
    {
        self.send_command(
            shift_enable_command(shift_1, shift_2, shift_3, shift_4),
            Some(true),
            Some(true),
        )
    }

    /// Sends the function set that clears `RE` and sets `IS` to `set_is`: the
    /// command `001BLD0I`, whatever `IS` and `RE` are.
    fn function_set_0(
        &mut self,
        data_length: bool,
        lines_2_or_4: bool,
        double_height_enabled: bool,
        set_is: bool,
    ) -> (r: GpioResult<()>)
        ensures
            Self::command_gives(old(self), final(self), function_set_0_byte(data_length, lines_2_or_4, double_height_enabled, set_is), None, None, r),
    {
        self.send_command(
            function_set_0_command(data_length, lines_2_or_4, double_height_enabled, set_is),
            None,
            None,
        )
    }

    /// Sends the function set that sets `RE`: the command `001BLb1r`, whatever
    /// `IS` and `RE` are.
    fn function_set_1(
        &mut self,
        data_length: bool,
        lines_2_or_4: bool,
        char_blink: bool,
        invert: bool,
    ) -> (r: GpioResult<()>)
        ensures
            Self::command_gives(old(self), final(self), function_set_1_byte(data_length, lines_2_or_4, char_blink, invert), None, None, r),
    {
        self.send_command(
            function_set_1_command(data_length, lines_2_or_4, char_blink, invert),
            None,
            None,
        )
    }

    /// Sets the address in the character generator: sends the command
    /// `01AAAAAA` with `IS` and `RE` cleared; `InvalidArgument`, with nothing
    /// sent, for an address above 63.
    fn set_cgram_address(&mut self, address: u8) -> (r: GpioResult<()>)
        ensures
            address > 0b0011_1111 ==> r == Err::<(), GpioError>(GpioError::InvalidArgument),
            address <= 0b0011_1111 ==> Self::command_gives(old(self), final(self), 0b0100_0000u8 | address, Some(false), Some(false), r),
    {
        let command: u8 = crate::lcd::hd44780::cgram_address_command(address)?;
        self.send_command(command, Some(false), Some(false))
    }

    /// Sets the address in the segment memory: sends the command `0100AAAA`
    /// with `IS` set and `RE` cleared; `InvalidArgument`, with nothing sent,
    /// for an address above 15.
    fn set_segram_address(&mut self, address: u8) -> (r: GpioResult<()>)
        ensures
            address > 0b0000_1111 ==> r == Err::<(), GpioError>(GpioError::InvalidArgument),
            address <= 0b0000_1111 ==> Self::command_gives(old(self), final(self), 0b0100_0000u8 | address, Some(true), Some(false), r),
    {
        let command: u8 = segram_address_command(address)?;
        self.send_command(command, Some(true), Some(false))
    }

    /// Switches the icons and the booster, and sets the two high bits of the
    /// contrast: sends the command `0101IBCC` with `IS` set and `RE` cleared;
    /// `InvalidArgument`, with nothing sent, for a contrast above 63.
    fn icon_booster_contrast(
        &mut self,
        icon_display: bool,
        booster_regulator_on: bool,
        contrast: u8,
    ) -> (r: GpioResult<()>)
        ensures
            contrast > SIX_BITS ==> r == Err::<(), GpioError>(GpioError::InvalidArgument),
            contrast <= SIX_BITS ==> Self::command_gives(old(self), final(self), icon_booster_contrast_byte(icon_display, booster_regulator_on, contrast), Some(true), Some(false), r),
    {
        let command: u8 = icon_booster_contrast_command(
            icon_display,
            booster_regulator_on,
            contrast,
        )?;
        self.send_command(command, Some(true), Some(false))
    }

    /// Switches the divider circuit and sets the resistor ratio: sends the
    /// command `0110DRRR` with `IS` set and `RE` cleared.
    fn follower_control(
        &mut self,
        divider_circuit: bool,
        internal_resistor_ratio: InternalResistorRatio,
    ) -> (r: GpioResult<()>)
        ensures
            Self::command_gives(old(self), final(self), follower_control_byte(divider_circuit, internal_resistor_ratio), Some(true), Some(false), r),
    {
        self.send_command(
            follower_control_command(divider_circuit, internal_resistor_ratio),
            Some(true),
            Some(false),
        )
    }

    /// Sets the four low bits of the contrast: sends the command `0111CCCC`
    /// with `IS` set and `RE` cleared; `InvalidArgument`, with nothing sent,
    /// for a contrast above 63.
    fn contrast_set(&mut self, contrast: u8) -> (r: GpioResult<()>)
        ensures
            contrast > SIX_BITS ==> r == Err::<(), GpioError>(GpioError::InvalidArgument),
            contrast <= SIX_BITS ==> Self::command_gives(old(self), final(self), 0b0111_0000u8 | (contrast & 0b1111), Some(true), Some(false), r),
    {
        let command: u8 = contrast_set_command(contrast)?;
        self.send_command(command, Some(true), Some(false))
    }

    /// Sets the address in the display data, and so the cursor: sends the
    /// command `1AAAAAAA` with `RE` cleared; `InvalidArgument`, with nothing
    /// sent, for an address above 127.
    fn set_ddram_address(&mut self, address: u8) -> (r: GpioResult<()>)
        ensures
            address > 0b0111_1111 ==> r == Err::<(), GpioError>(GpioError::InvalidArgument),
            address <= 0b0111_1111 ==> Self::command_gives(old(self), final(self), 0b1000_0000u8 | address, None, Some(false), r),
    {
        let command: u8 = ddram_address_command(address)?;
        self.send_command(command, None, Some(false))
    }

    /// Sets the scroll quantity: sends the command `10SSSSSS` with `RE` set;
    /// `InvalidArgument`, with nothing sent, for a quantity above 63.
    fn set_scroll_quantity(&mut self, quantity: u8) -> (r: GpioResult<()>)
        ensures
            quantity > SIX_BITS ==> r == Err::<(), GpioError>(GpioError::InvalidArgument),
            quantity <= SIX_BITS ==> Self::command_gives(old(self), final(self), 0b1000_0000u8 | quantity, None, Some(true), r),
    {
        let command: u8 = scroll_quantity_command(quantity)?;
        self.send_command(command, None, Some(true))
    }

    /// Reads the busy flag and the address counter: bit 7 and the seven bits
    /// below it of the byte that a command read gives. The error of the read
    /// is handed on.
    fn get_busy_flag_and_address(&mut self) -> (r: GpioResult<(bool, u8)>)
        ensures
            match r {
                Ok((busy_flag, address)) => exists|byte: u8| #[trigger]
                    Self::command_read(old(self), final(self), Ok(byte)) && busy_flag == (byte
                        & 0b1000_0000 != 0) && address == byte & 0b0111_1111,
                Err(error) => Self::command_read(old(self), final(self), Err(error)),
            },
    {
        let command: u8 = self.read_command()?;
        Ok(split_busy_flag_and_address(command))
    }

    /// Sets the temperature coefficient: the command `01110110` with `RE`
    /// set, then the coefficient as a data byte. The data byte is sent only
    /// where the command was.
    fn temp_coefficient_control(&mut self, temp_coefficient: TempCoefficient) -> (r: GpioResult<
        (),
    >)
        ensures
            (r is Err && Self::command_gives(
                old(self),
                final(self),
                TEMP_COEFFICIENT_CONTROL,
                None,
                Some(true),
                r,
            )) || (exists|mid: &Self| #[trigger]
                Self::command_gives(
                    old(self),
                    mid,
                    TEMP_COEFFICIENT_CONTROL,
                    None,
                    Some(true),
                    Ok(()),
                ) && Self::data_gives(mid, final(self), temp_coefficient.mask_of(), r)),
    {
        let sent: GpioResult<()> = self.send_command(TEMP_COEFFICIENT_CONTROL, None, Some(true));
        match sent {
            Ok(_) => {},
            Err(error) => {
                return Err(error);
            },
        }
        assert(sent->Ok_0 =~= ());
        self.send_data(temp_coefficient.to_mask())
    }

    /// Selects the character set: the command `01110010` with `RE` set, then
    /// the set as a data byte. The data byte is sent only where the command
    /// was.
    fn rom_selection(&mut self, rom: Rom) -> (r: GpioResult<()>)
        ensures
            (r is Err && Self::command_gives(
                old(self),
                final(self),
                ROM_SELECTION,
                None,
                Some(true),
                r,
            )) || (exists|mid: &Self| #[trigger]
                Self::command_gives(old(self), mid, ROM_SELECTION, None, Some(true), Ok(()))
                    && Self::data_gives(mid, final(self), rom.mask_of(), r)),
    {
        let sent: GpioResult<()> = self.send_command(ROM_SELECTION, None, Some(true));
        match sent {
            Ok(_) => {},
            Err(error) => {
                return Err(error);
            },
        }
        assert(sent->Ok_0 =~= ());
        self.send_data(rom.to_mask())
    }

    /// Sends a command byte, with `IS` and `RE` brought to the given values
    /// first where one is given.
    fn send_command(&mut self, data: u8, is: Option<bool>, re: Option<bool>) -> (r: GpioResult<
        (),
    >)
        ensures
            Self::command_gives(old(self), final(self), data, is, re, r),
    ;

    /// Sends a data byte.
    fn send_data(&mut self, data: u8) -> (r: GpioResult<()>)
        ensures
            Self::data_gives(old(self), final(self), data, r),
    ;

    /// Reads the busy flag and the address counter as one byte.
    fn read_command(&mut self) -> (r: GpioResult<u8>)
        ensures
            Self::command_read(old(self), final(self), r),
    ;

    /// Reads a data byte.
    fn read_data(&mut self) -> (r: GpioResult<u8>)
        ensures
            Self::data_read(old(self), final(self), r),
    ;
}

/// A display with an SSD1803A controller, used as one with an HD44780.
#[derive(Debug)]
pub struct AsHD44780<'a, D: SSD1803ADriver>(pub &'a mut D);

impl<'a, D: SSD1803ADriver> HD44780Driver for AsHD44780<'a, D> {
    /// Bringing the controller up is bringing it up for two lines, or for
    /// one.
    open spec fn init_gives(
        before: &Self,
        after: &Self,
        multiline: bool,
        alt_font: bool,
        r: GpioResult<()>,
    ) -> bool {
        D::init_gives(&*before.0, &*after.0, if multiline { 2u8 } else { 1u8 }, r)
    }

    /// A command is a command with `IS` and `RE` cleared.
    open spec fn command_gives(before: &Self, after: &Self, command: u8, r: GpioResult<()>)
        -> bool {
        D::command_gives(&*before.0, &*after.0, command, Some(false), Some(false), r)
    }

    /// A data byte is a data byte.
    open spec fn data_gives(before: &Self, after: &Self, data: u8, r: GpioResult<()>) -> bool {
        D::data_gives(&*before.0, &*after.0, data, r)
    }

    /// A command read is a command read.
    open spec fn command_read(before: &Self, after: &Self, r: GpioResult<u8>) -> bool {
        D::command_read(&*before.0, &*after.0, r)
    }

    /// A data read is a data read.
    open spec fn data_read(before: &Self, after: &Self, r: GpioResult<u8>) -> bool {
        D::data_read(&*before.0, &*after.0, r)
    }

    /// Brings the controller up for one line or for two. The controller has
    /// no other font.
    fn init(&mut self, multiline: bool, _alt_font: bool) -> (r: GpioResult<()>) {
        self.0.init(if multiline { 2 } else { 1 })
    }

    /// Sends a command with `IS` and `RE` cleared, as the HD44780 has it.
    fn send_command(&mut self, command: u8) -> (r: GpioResult<()>) {
        self.0.send_command(command, Some(false), Some(false))
    }

    fn send_data(&mut self, data: u8) -> (r: GpioResult<()>) {
        self.0.send_data(data)
    }

    fn read_command(&mut self) -> (r: GpioResult<u8>) {
        self.0.read_command()
    }

    fn read_data(&mut self) -> (r: GpioResult<u8>) {
        self.0.read_data()
    }
}

} // verus!
