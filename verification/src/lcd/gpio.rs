//! Drivers that put the commands of a display controller on a parallel bus.
//!
//! The bus has a data part of four or eight lines, an enable line `E`, a
//! register-select line `RS`, and, where it is wired, a read/write line
//! `R/W` and a reset line. A transfer needs pauses between its edges, so a
//! driver of this module does not move a line itself: it queues
//! [`LcdStep`]s, and the owner of the pins takes them from the queue and
//! performs them in order, stopping at the first that fails.

use crate::error::{GpioError, GpioResult};
use crate::lcd::hd44780::{
    display_control_byte, display_control_command, entry_mode_byte, entry_mode_command,
    function_set_byte, function_set_command, CursorDirection, HD44780Driver, CLEAR_DISPLAY,
};
use crate::lcd::ssd1803a::{
    contrast_set_command, double_height_byte, double_height_command, entry_mode_ex_byte,
    entry_mode_ex_command, ext_function_set_byte, ext_function_set_command,
    follower_control_byte, follower_control_command, function_set_0_byte,
    function_set_0_command, function_set_1_byte, function_set_1_command,
    icon_booster_contrast_byte, icon_booster_contrast_command, osc_frequency_byte,
    osc_frequency_command, BiasDivider, DoubleHeightMode, InternalOscFrequency,
    InternalResistorRatio, SSD1803ADriver,
};
use vstd::prelude::*;

verus! {

/// One thing to do with the pins of the display.
#[derive(Copy, Clone, Debug, PartialEq, Eq, Structural)]
pub enum LcdStep {
    /// Drive the reset line.
    SetReset(bool),
    /// Drive the enable line.
    SetEnable(bool),
    /// Drive the read/write line: `true` to read.
    SetReadWrite(bool),
    /// Drive the register-select line: `true` for data.
    SetRegisterSelect(bool),
    /// Switch the data lines to output.
    BusOutput,
    /// Switch the data lines to input.
    BusInput,
    /// Put a byte on eight data lines.
    WriteByte(u8),
    /// Put a nibble on four data lines.
    WriteNibble(u8),
    /// Sample eight data lines.
    ReadByte,
    /// Sample four data lines.
    ReadNibble,
    /// Wait for so many microseconds.
    DelayMicros(u32),
}

/// The width of the data part of the bus.
#[derive(Copy, Clone, Debug, PartialEq, Eq, Structural)]
pub enum GpioHD44780Bus {
    /// Eight data lines.
    Bus8Bit,
    /// Four data lines: a byte goes as two nibbles, the high one first.
    Bus4Bit,
}

impl GpioHD44780Bus {
    /// Whether the bus has eight data lines.
    pub fn is_8bit(&self) -> (eight: bool)
        ensures
            eight == (*self == GpioHD44780Bus::Bus8Bit),
    {
        matches!(self, GpioHD44780Bus::Bus8Bit)
    }

    /// Whether the bus has four data lines.
    pub fn is_4bit(&self) -> (four: bool)
        ensures
            four == (*self == GpioHD44780Bus::Bus4Bit),
    {
        matches!(self, GpioHD44780Bus::Bus4Bit)
    }
}

/// The pause after the rising edge of `E`, in microseconds.
pub const PULSE_HIGH_MICROS: u32 = 1;

/// The pause after the falling edge of `E`, in which the controller works,
/// in microseconds.
pub const PULSE_LOW_MICROS: u32 = 1000;

/// The pause after each edge of the reset line, in microseconds.
pub const RESET_MICROS: u32 = 10_000;

/// The high nibble of a byte.
pub open spec fn high_nibble(data: u8) -> u8 {
    (data >> 4) & 0x0F
}

/// The low nibble of a byte.
pub open spec fn low_nibble(data: u8) -> u8 {
    data & 0x0F
}

/// The steps of one pulse on `E`.
pub open spec fn pulse_script() -> Seq<LcdStep> {
    seq![
        LcdStep::SetEnable(true),
        LcdStep::DelayMicros(PULSE_HIGH_MICROS),
        LcdStep::SetEnable(false),
        LcdStep::DelayMicros(PULSE_LOW_MICROS),
    ]
}

#[verifier::opaque]
/// The steps that send one byte: `RS` is set, `R/W` is driven to write where
/// it is wired, and the byte goes out with one pulse on eight lines, or as
/// two nibbles with a pulse each on four.
pub open spec fn send_script(bus: GpioHD44780Bus, has_rw: bool, data: u8, rs: bool) -> Seq<
    LcdStep,
> {
    seq![LcdStep::SetRegisterSelect(rs)] + (if has_rw {
        seq![LcdStep::SetReadWrite(false)]
    } else {
        Seq::empty()
    }) + (match bus {
        GpioHD44780Bus::Bus8Bit => seq![LcdStep::BusOutput, LcdStep::WriteByte(data)]
            + pulse_script(),
        GpioHD44780Bus::Bus4Bit => seq![LcdStep::BusOutput, LcdStep::WriteNibble(high_nibble(data))]
            + pulse_script() + seq![LcdStep::BusOutput, LcdStep::WriteNibble(low_nibble(data))]
            + pulse_script(),
    })
}

/// The steps that send command bytes one after the other.
pub open spec fn commands_script(bus: GpioHD44780Bus, has_rw: bool, bytes: Seq<u8>) -> Seq<LcdStep>
    decreases bytes.len(),
{
    if bytes.len() == 0 {
        Seq::empty()
    } else {
        commands_script(bus, has_rw, bytes.drop_last()) + send_script(
            bus,
            has_rw,
            bytes.last(),
            false,
        )
    }
}

/// The steps of one sample of the bus, taken while `E` is high.
pub open spec fn sample_script(sample: LcdStep) -> Seq<LcdStep> {
    seq![
        LcdStep::SetEnable(true),
        LcdStep::DelayMicros(PULSE_HIGH_MICROS),
        sample,
        LcdStep::SetEnable(false),
        LcdStep::DelayMicros(PULSE_HIGH_MICROS),
    ]
}

#[verifier::opaque]
/// The steps that read one byte: the data lines become inputs, `RS` is set,
/// `R/W` is driven to read, the bus is sampled once on eight lines or twice
/// on four, and `R/W` is driven back to write.
pub open spec fn read_script(bus: GpioHD44780Bus, rs: bool) -> Seq<LcdStep> {
    seq![
        LcdStep::BusInput,
        LcdStep::SetRegisterSelect(rs),
        LcdStep::SetReadWrite(true),
        LcdStep::DelayMicros(PULSE_HIGH_MICROS),
    ] + (match bus {
        GpioHD44780Bus::Bus8Bit => sample_script(LcdStep::ReadByte),
        GpioHD44780Bus::Bus4Bit => sample_script(LcdStep::ReadNibble) + sample_script(
            LcdStep::ReadNibble,
        ),
    }) + seq![LcdStep::SetReadWrite(false)]
}

/// The byte that the samples of a read make up: the one sample of eight
/// lines, or two nibbles of four lines, the high one first.
pub open spec fn read_outcome(bus: GpioHD44780Bus, samples: Seq<u8>) -> Option<u8> {
    match bus {
        GpioHD44780Bus::Bus8Bit => if samples.len() == 1 {
            Some(samples[0])
        } else {
            None
        },
        GpioHD44780Bus::Bus4Bit => if samples.len() == 2 && samples[0] < 16 && samples[1] < 16 {
            Some((samples[0] << 4) | samples[1])
        } else {
            None
        },
    }
}

/// The steps that pulse the reset line.
pub open spec fn reset_script() -> Seq<LcdStep> {
    seq![
        LcdStep::SetReset(true),
        LcdStep::DelayMicros(RESET_MICROS),
        LcdStep::SetReset(false),
        LcdStep::DelayMicros(RESET_MICROS),
    ]
}

/// The bytes that bring a controller in any state to a known bus width.
pub open spec fn sync_bytes(bus: GpioHD44780Bus) -> Seq<u8> {
    match bus {
        GpioHD44780Bus::Bus8Bit => seq![0b0011_1000u8, 0b0011_1000u8, 0b0011_1000u8],
        GpioHD44780Bus::Bus4Bit => seq![0b0011_0011u8, 0b0011_0010u8],
    }
}

/// Queues the steps of one pulse on `E`.
fn push_pulse(steps: &mut Vec<LcdStep>)
    ensures
        final(steps)@ == old(steps)@ + pulse_script(),
{
    steps.push(LcdStep::SetEnable(true));
    steps.push(LcdStep::DelayMicros(PULSE_HIGH_MICROS));
    steps.push(LcdStep::SetEnable(false));
    steps.push(LcdStep::DelayMicros(PULSE_LOW_MICROS));
    assert(steps@ =~= old(steps)@ + pulse_script());
}

/// Queues the steps that send one byte.
fn push_send(steps: &mut Vec<LcdStep>, bus: GpioHD44780Bus, has_rw: bool, data: u8, rs: bool)
    ensures
        final(steps)@ == old(steps)@ + send_script(bus, has_rw, data, rs),
{
    reveal(send_script);
    steps.push(LcdStep::SetRegisterSelect(rs));
    if has_rw {
        steps.push(LcdStep::SetReadWrite(false));
    }
    let ghost head: Seq<LcdStep> = steps@;
    match bus {
        GpioHD44780Bus::Bus8Bit => {
            steps.push(LcdStep::BusOutput);
            steps.push(LcdStep::WriteByte(data));
            push_pulse(steps);
            assert(steps@ =~= head + (seq![LcdStep::BusOutput, LcdStep::WriteByte(data)]
                + pulse_script()));
        },
        GpioHD44780Bus::Bus4Bit => {
            let high: u8 = (data >> 4) & 0x0F;
            let low: u8 = data & 0x0F;
            steps.push(LcdStep::BusOutput);
            steps.push(LcdStep::WriteNibble(high));
            push_pulse(steps);
            steps.push(LcdStep::BusOutput);
            steps.push(LcdStep::WriteNibble(low));
            push_pulse(steps);
            assert(steps@ =~= head + (seq![LcdStep::BusOutput, LcdStep::WriteNibble(high)]
                + pulse_script() + seq![LcdStep::BusOutput, LcdStep::WriteNibble(low)]
                + pulse_script()));
        },
    }
    assert(steps@ =~= old(steps)@ + send_script(bus, has_rw, data, rs));
}

/// Queues the steps of one sample.
fn push_sample(steps: &mut Vec<LcdStep>, sample: LcdStep)
    ensures
        final(steps)@ == old(steps)@ + sample_script(sample),
{
    steps.push(LcdStep::SetEnable(true));
    steps.push(LcdStep::DelayMicros(PULSE_HIGH_MICROS));
    steps.push(sample);
    steps.push(LcdStep::SetEnable(false));
    steps.push(LcdStep::DelayMicros(PULSE_HIGH_MICROS));
    assert(steps@ =~= old(steps)@ + sample_script(sample));
}

/// Queues the steps that read one byte.
fn push_read(steps: &mut Vec<LcdStep>, bus: GpioHD44780Bus, rs: bool)
    ensures
        final(steps)@ == old(steps)@ + read_script(bus, rs),
{
    reveal(read_script);
    steps.push(LcdStep::BusInput);
    steps.push(LcdStep::SetRegisterSelect(rs));
    steps.push(LcdStep::SetReadWrite(true));
    steps.push(LcdStep::DelayMicros(PULSE_HIGH_MICROS));
    let ghost head: Seq<LcdStep> = steps@;
    match bus {
        GpioHD44780Bus::Bus8Bit => {
            push_sample(steps, LcdStep::ReadByte);
        },
        GpioHD44780Bus::Bus4Bit => {
            push_sample(steps, LcdStep::ReadNibble);
            push_sample(steps, LcdStep::ReadNibble);
            assert(steps@ =~= head + (sample_script(LcdStep::ReadNibble) + sample_script(
                LcdStep::ReadNibble,
            )));
        },
    }
    steps.push(LcdStep::SetReadWrite(false));
    assert(steps@ =~= old(steps)@ + read_script(bus, rs));
}

/// Queues the steps that send command bytes one after the other.
fn push_commands(steps: &mut Vec<LcdStep>, bus: GpioHD44780Bus, has_rw: bool, bytes: &[u8])
    ensures
        final(steps)@ == old(steps)@ + commands_script(bus, has_rw, bytes@),
{
    let mut k: usize = 0;
    assert(bytes@.take(0) =~= Seq::<u8>::empty());
    assert(steps@ =~= old(steps)@ + Seq::<LcdStep>::empty());
    while k < bytes.len()
        invariant
            k <= bytes.len(),
            steps@ == old(steps)@ + commands_script(bus, has_rw, bytes@.take(k as int)),
        decreases bytes.len() - k,
    {
        push_send(steps, bus, has_rw, bytes[k], false);
        proof {
            let done: Seq<u8> = bytes@.take(k as int);
            let next: Seq<u8> = bytes@.take(k as int + 1);
            assert(next.drop_last() =~= done);
            assert(next.last() == bytes@[k as int]);
            assert(steps@ =~= old(steps)@ + commands_script(bus, has_rw, next));
        }
        k += 1;
    }
    assert(bytes@.take(bytes@.len() as int) =~= bytes@);
}

/// The byte that the samples of a read make up: `InvalidArgument` where
/// they are not the one byte of eight lines or the two nibbles of four.
pub fn read_value(bus: GpioHD44780Bus, samples: &[u8]) -> (r: GpioResult<u8>)
    ensures
        match read_outcome(bus, samples@) {
            Some(value) => r == Ok::<u8, GpioError>(value),
            None => r == Err::<u8, GpioError>(GpioError::InvalidArgument),
        },
{
    match bus {
        GpioHD44780Bus::Bus8Bit => {
            if samples.len() != 1 {
                return Err(GpioError::InvalidArgument);
            }
            Ok(samples[0])
        },
        GpioHD44780Bus::Bus4Bit => {
            if samples.len() != 2 || samples[0] >= 16 || samples[1] >= 16 {
                return Err(GpioError::InvalidArgument);
            }
            let high: u8 = samples[0];
            assert(high < 16 ==> (high << 4) == (((high as u32) << 4u32) as u8)) by (bit_vector);
            assert(high < 16 ==> ((high as u32) << 4u32) < 256) by (bit_vector);
            Ok((high << 4) | samples[1])
        },
    }
}

/// A queueing driver of a display with an HD44780 controller.
#[derive(Debug)]
pub struct GpioHD44780Driver {
    has_rw: bool,
    data_bus: GpioHD44780Bus,
    steps: Vec<LcdStep>,
}

impl GpioHD44780Driver {
    /// The steps that wait in the queue.
    pub closed spec fn queued(&self) -> Seq<LcdStep> {
        self.steps@
    }

    /// The width of the data part of the bus.
    pub closed spec fn bus(&self) -> GpioHD44780Bus {
        self.data_bus
    }

    /// Whether the read/write line is wired.
    pub closed spec fn reads(&self) -> bool {
        self.has_rw
    }

    /// The bytes that bring the controller up: the bytes that synchronise the
    /// bus, the function set, a clear, the display switched on, and the
    /// cursor set to move right.
    pub open spec fn init_bytes(bus: GpioHD44780Bus, multiline: bool, alt_font: bool) -> Seq<u8> {
        sync_bytes(bus) + seq![
            function_set_byte(bus == GpioHD44780Bus::Bus8Bit, multiline, alt_font),
            CLEAR_DISPLAY,
            display_control_byte(true, false, false),
            entry_mode_byte(CursorDirection::Right, false),
        ]
    }

    /// A driver on four data lines, its queue empty.
    pub fn new_4bit(has_rw: bool) -> (driver: Self)
        ensures
            driver.bus() == GpioHD44780Bus::Bus4Bit,
            driver.reads() == has_rw,
            driver.queued() == Seq::<LcdStep>::empty(),
    {
        GpioHD44780Driver { has_rw, data_bus: GpioHD44780Bus::Bus4Bit, steps: Vec::new() }
    }

    /// A driver on eight data lines, its queue empty.
    pub fn new_8bit(has_rw: bool) -> (driver: Self)
        ensures
            driver.bus() == GpioHD44780Bus::Bus8Bit,
            driver.reads() == has_rw,
            driver.queued() == Seq::<LcdStep>::empty(),
    {
        GpioHD44780Driver { has_rw, data_bus: GpioHD44780Bus::Bus8Bit, steps: Vec::new() }
    }

    /// Takes the queued steps, which leaves the queue empty.
    pub fn take_steps(&mut self) -> (steps: Vec<LcdStep>)
        ensures
            steps@ == old(self).queued(),
            final(self).queued() == Seq::<LcdStep>::empty(),
            final(self).bus() == old(self).bus(),
            final(self).reads() == old(self).reads(),
    {
        let mut steps: Vec<LcdStep> = Vec::new();
        std::mem::swap(&mut steps, &mut self.steps);
        steps
    }

    /// Queues the steps that send one byte, as a command or, with `rs`, as
    /// data.
    pub fn send(&mut self, data: u8, rs: bool) -> (r: GpioResult<()>)
        ensures
            r is Ok,
            final(self).queued() == old(self).queued() + send_script(
                old(self).bus(),
                old(self).reads(),
                data,
                rs,
            ),
            final(self).bus() == old(self).bus(),
            final(self).reads() == old(self).reads(),
    {
        push_send(&mut self.steps, self.data_bus, self.has_rw, data, rs);
        Ok(())
    }

    /// Queues the steps that read one byte: `NotSupported`, with nothing
    /// queued, where the read/write line is not wired. The samples that the
    /// steps yield go to [`read_value`].
    pub fn read(&mut self, rs: bool) -> (r: GpioResult<()>)
        ensures
            final(self).bus() == old(self).bus(),
            final(self).reads() == old(self).reads(),
            !old(self).reads() <==> r == Err::<(), GpioError>(GpioError::NotSupported),
            old(self).reads() <==> r is Ok,
            final(self).queued() == if old(self).reads() {
                old(self).queued() + read_script(old(self).bus(), rs)
            } else {
                old(self).queued()
            },
    {
        if !self.has_rw {
            return Err(GpioError::NotSupported);
        }
        push_read(&mut self.steps, self.data_bus, rs);
        Ok(())
    }

    /// Queues the steps that send command bytes one after the other.
    fn send_commands(&mut self, bytes: &[u8])
        ensures
            final(self).queued() == old(self).queued() + commands_script(
                old(self).bus(),
                old(self).reads(),
                bytes@,
            ),
            final(self).bus() == old(self).bus(),
            final(self).reads() == old(self).reads(),
    {
        push_commands(&mut self.steps, self.data_bus, self.has_rw, bytes);
    }

    /// Queues the steps that bring the controller up.
    pub fn initialize(&mut self, multiline: bool, alt_font: bool) -> (r: GpioResult<()>)
        ensures
            r is Ok,
            final(self).queued() == old(self).queued() + commands_script(
                old(self).bus(),
                old(self).reads(),
                Self::init_bytes(old(self).bus(), multiline, alt_font),
            ),
            final(self).bus() == old(self).bus(),
            final(self).reads() == old(self).reads(),
    {
        let function_set: u8 = function_set_command(self.data_bus.is_8bit(), multiline, alt_font);
        let display_control: u8 = display_control_command(true, false, false);
        let entry_mode: u8 = entry_mode_command(CursorDirection::Right, false);
        match self.data_bus {
            GpioHD44780Bus::Bus8Bit => {
                let bytes: [u8; 7] = [
                    0b0011_1000,
                    0b0011_1000,
                    0b0011_1000,
                    function_set,
                    CLEAR_DISPLAY,
                    display_control,
                    entry_mode,
                ];
                assert(bytes@ =~= Self::init_bytes(self.data_bus, multiline, alt_font));
                self.send_commands(bytes.as_slice());
            },
            GpioHD44780Bus::Bus4Bit => {
                let bytes: [u8; 6] = [
                    0b0011_0011,
                    0b0011_0010,
                    function_set,
                    CLEAR_DISPLAY,
                    display_control,
                    entry_mode,
                ];
                assert(bytes@ =~= Self::init_bytes(self.data_bus, multiline, alt_font));
                self.send_commands(bytes.as_slice());
            },
        }
        Ok(())
    }
}

impl HD44780Driver for GpioHD44780Driver {
    /// Bringing the controller up queues the steps that send the bytes that
    /// bring it up, and succeeds.
    open spec fn init_gives(
        before: &Self,
        after: &Self,
        multiline: bool,
        alt_font: bool,
        r: GpioResult<()>,
    ) -> bool {
        &&& r is Ok
        &&& after.bus() == before.bus()
        &&& after.reads() == before.reads()
        &&& after.queued() == before.queued() + commands_script(
            before.bus(),
            before.reads(),
            Self::init_bytes(before.bus(), multiline, alt_font),
        )
    }

    /// Sending a command byte queues the steps that send it with `RS` low,
    /// and succeeds.
    open spec fn command_gives(before: &Self, after: &Self, command: u8, r: GpioResult<()>)
        -> bool {
        &&& r is Ok
        &&& after.bus() == before.bus()
        &&& after.reads() == before.reads()
        &&& after.queued() == before.queued() + send_script(
            before.bus(),
            before.reads(),
            command,
            false,
        )
    }

    /// Sending a data byte queues the steps that send it with `RS` high, and
    /// succeeds.
    open spec fn data_gives(before: &Self, after: &Self, data: u8, r: GpioResult<()>) -> bool {
        &&& r is Ok
        &&& after.bus() == before.bus()
        &&& after.reads() == before.reads()
        &&& after.queued() == before.queued() + send_script(
            before.bus(),
            before.reads(),
            data,
            true,
        )
    }

    /// A queueing driver has no byte to return: a read through this
    /// interface fails with `NotSupported` and queues nothing.
    open spec fn command_read(before: &Self, after: &Self, r: GpioResult<u8>) -> bool {
        &&& r == Err::<u8, GpioError>(GpioError::NotSupported)
        &&& after.bus() == before.bus()
        &&& after.reads() == before.reads()
        &&& after.queued() == before.queued()
    }

    /// A queueing driver has no byte to return: a read through this
    /// interface fails with `NotSupported` and queues nothing.
    open spec fn data_read(before: &Self, after: &Self, r: GpioResult<u8>) -> bool {
        &&& r == Err::<u8, GpioError>(GpioError::NotSupported)
        &&& after.bus() == before.bus()
        &&& after.reads() == before.reads()
        &&& after.queued() == before.queued()
    }

    fn init(&mut self, multiline: bool, alt_font: bool) -> (r: GpioResult<()>) {
        self.initialize(multiline, alt_font)
    }

    fn send_command(&mut self, command: u8) -> (r: GpioResult<()>) {
        self.send(command, false)
    }

    fn send_data(&mut self, data: u8) -> (r: GpioResult<()>) {
        self.send(data, true)
    }

    /// A queueing driver has no byte to return: the read is queued with
    /// [`GpioHD44780Driver::read`], and this call is not supported.
    fn read_command(&mut self) -> (r: GpioResult<u8>) {
        Err(GpioError::NotSupported)
    }

    /// A queueing driver has no byte to return: the read is queued with
    /// [`GpioHD44780Driver::read`], and this call is not supported.
    fn read_data(&mut self) -> (r: GpioResult<u8>) {
        Err(GpioError::NotSupported)
    }
}

/// What a driver remembers of the state of an SSD1803A controller.
#[derive(Copy, Clone, Debug, PartialEq, Eq, Structural)]
pub struct ControllerState {
    /// The number of lines of the display, from 1 to 4.
    pub lines: u8,
    /// The bit `RE`.
    pub re: bool,
    /// The bit `IS`.
    pub is: bool,
    /// Whether characters blink.
    pub blink: bool,
    /// Whether the display is inverted.
    pub invert: bool,
    /// Whether double height is enabled.
    pub double_height: bool,
}

impl ControllerState {
    /// Whether the display has two or four lines.
    pub open spec fn two_or_four(self) -> bool {
        self.lines == 2 || self.lines == 4
    }

    /// The number of lines after a function set: of the pair 1 and 2, or of
    /// the pair 3 and 4, the one that the command names. `None` where the
    /// number of lines is not from 1 to 4.
    pub open spec fn relined(self, lines_2_or_4: bool) -> Option<u8> {
        if self.lines == 1 || self.lines == 2 {
            Some(if lines_2_or_4 { 2u8 } else { 1u8 })
        } else if self.lines == 3 || self.lines == 4 {
            Some(if lines_2_or_4 { 4u8 } else { 3u8 })
        } else {
            None
        }
    }

    /// The state after the function set that clears `RE`.
    pub open spec fn after_function_set_0(
        self,
        lines_2_or_4: bool,
        double_height_enabled: bool,
        set_is: bool,
    ) -> Option<ControllerState> {
        match self.relined(lines_2_or_4) {
            Some(lines) => Some(
                ControllerState {
                    lines,
                    double_height: double_height_enabled,
                    re: false,
                    is: set_is,
                    ..self
                },
            ),
            None => None,
        }
    }

    /// The state after the function set that sets `RE`.
    pub open spec fn after_function_set_1(self, lines_2_or_4: bool, char_blink: bool, invert: bool)
        -> Option<ControllerState> {
        match self.relined(lines_2_or_4) {
            Some(lines) => Some(
                ControllerState { lines, blink: char_blink, invert, re: true, ..self },
            ),
            None => None,
        }
    }

    /// The state after `IS` is brought to the value that a command needs, and
    /// the byte that does it: a function set that clears `RE` and disables
    /// double height, sent only where `IS` has to change.
    pub open spec fn switch_is(self, eight: bool, is: Option<bool>) -> Option<
        (ControllerState, Seq<u8>),
    > {
        if is is Some && is->Some_0 != self.is {
            match self.after_function_set_0(self.two_or_four(), false, is->Some_0) {
                Some(state) => Some(
                    (
                        state,
                        seq![function_set_0_byte(eight, self.two_or_four(), false, is->Some_0)],
                    ),
                ),
                None => None,
            }
        } else {
            Some((self, Seq::empty()))
        }
    }

    /// The state after `RE` is brought to the value that a command needs, and
    /// the byte that does it: the function set for that value, with the other
    /// settings as they are, sent only where `RE` has to change.
    pub open spec fn switch_re(self, eight: bool, re: Option<bool>) -> Option<
        (ControllerState, Seq<u8>),
    > {
        if re is Some && re->Some_0 != self.re {
            if re->Some_0 {
                match self.after_function_set_1(self.two_or_four(), self.blink, self.invert) {
                    Some(state) => Some(
                        (
                            state,
                            seq![
                                function_set_1_byte(
                                    eight,
                                    self.two_or_four(),
                                    self.blink,
                                    self.invert,
                                ),
                            ],
                        ),
                    ),
                    None => None,
                }
            } else {
                match self.after_function_set_0(self.two_or_four(), self.double_height, self.is) {
                    Some(state) => Some(
                        (
                            state,
                            seq![
                                function_set_0_byte(
                                    eight,
                                    self.two_or_four(),
                                    self.double_height,
                                    self.is,
                                ),
                            ],
                        ),
                    ),
                    None => None,
                }
            }
        } else {
            Some((self, Seq::empty()))
        }
    }

    /// The state after a command, and the bytes that go out for it: the
    /// function sets that bring `IS`, then `RE`, to the values that it needs,
    /// and the command itself. `None` where a function set is needed and the
    /// number of lines is not from 1 to 4.
    pub open spec fn command_outcome(self, eight: bool, data: u8, is: Option<bool>, re: Option<bool>)
        -> Option<(ControllerState, Seq<u8>)> {
        match self.switch_is(eight, is) {
            Some((first, is_bytes)) => match first.switch_re(eight, re) {
                Some((second, re_bytes)) => Some((second, is_bytes + re_bytes + seq![data])),
                None => None,
            },
            None => None,
        }
    }

    /// The state and the bytes sent so far, after one more command.
    #[verifier::opaque]
    pub open spec fn chain(
        so_far: (ControllerState, Seq<u8>),
        eight: bool,
        data: u8,
        is: Option<bool>,
        re: Option<bool>,
    ) -> (ControllerState, Seq<u8>) {
        match so_far.0.command_outcome(eight, data, is, re) {
            Some((state, bytes)) => (state, so_far.1 + bytes),
            None => so_far,
        }
    }

    /// The state after the controller is brought up for a display of `lines`
    /// lines, and the bytes that bring it up: the bytes that synchronise the
    /// bus, then the settings of a four-line display seen from below, with
    /// the bias, the oscillator, the follower, the booster and the contrast
    /// at their defaults, the display switched on and cleared.
    pub open spec fn init_outcome(self, bus: GpioHD44780Bus, lines: u8) -> (
        ControllerState,
        Seq<u8>,
    ) {
        let eight = bus == GpioHD44780Bus::Bus8Bit;
        let a0 = (ControllerState { lines, ..self }, sync_bytes(bus));
        let a1 = Self::chain(
            a0,
            eight,
            ext_function_set_byte(false, false, lines >= 3),
            None,
            Some(true),
        );
        let a2 = Self::chain(a1, eight, entry_mode_ex_byte(false, true), None, Some(true));
        let a3 = Self::chain(
            a2,
            eight,
            double_height_byte(DoubleHeightMode::DoubleTop, BiasDivider::Bias1_6, false),
            Some(false),
            Some(true),
        );
        let a4 = Self::chain(
            a3,
            eight,
            osc_frequency_byte(BiasDivider::Bias1_6, InternalOscFrequency::Freq540kHz),
            Some(true),
            Some(false),
        );
        let a5 = Self::chain(
            a4,
            eight,
            follower_control_byte(true, InternalResistorRatio::IR6),
            Some(true),
            Some(false),
        );
        let a6 = Self::chain(
            a5,
            eight,
            icon_booster_contrast_byte(false, true, DEFAULT_CONTRAST),
            Some(true),
            Some(false),
        );
        let a7 = Self::chain(
            a6,
            eight,
            0b0111_0000u8 | (DEFAULT_CONTRAST & 0b1111),
            Some(true),
            Some(false),
        );
        let a8 = (
            a7.0.after_function_set_0(lines == 2 || lines == 4, false, false)->Some_0,
            a7.1 + seq![function_set_0_byte(eight, lines == 2 || lines == 4, false, false)],
        );
        let a9 = Self::chain(a8, eight, display_control_byte(true, false, false), None, Some(false));
        Self::chain(a9, eight, CLEAR_DISPLAY, None, None)
    }

    /// The state of a controller after power-up, for a display of one line.
    pub fn new() -> (state: ControllerState)
        ensures
            state == (ControllerState {
                lines: 1,
                re: false,
                is: false,
                blink: false,
                invert: false,
                double_height: false,
            }),
    {
        ControllerState {
            lines: 1,
            re: false,
            is: false,
            blink: false,
            invert: false,
            double_height: false,
        }
    }

    /// Whether the display has two or four lines.
    pub fn lines_2_or_4(&self) -> (even: bool)
        ensures
            even == self.two_or_four(),
    {
        self.lines == 2 || self.lines == 4
    }

    /// The state after a command and the bytes that go out for it:
    /// `InvalidArgument` where a function set is needed and the number of
    /// lines is not from 1 to 4.
    #[verifier::rlimit(60)]
    #[verifier::spinoff_prover]
    pub fn plan_command(&self, eight: bool, data: u8, is: Option<bool>, re: Option<bool>) -> (r:
        GpioResult<(ControllerState, Vec<u8>)>)
        ensures
            match self.command_outcome(eight, data, is, re) {
                Some((state, bytes)) => r matches Ok((planned, out)) && planned == state && out@
                    == bytes,
                None => r matches Err(GpioError::InvalidArgument),
            },
    {
        let mut state: ControllerState = *self;
        let mut bytes: Vec<u8> = Vec::new();
        let needs_is_set: bool = match is {
            Some(value) => value != state.is,
            None => false,
        };
        if needs_is_set {
            let value: bool = match is {
                Some(value) => value,
                None => false,
            };
            let even: bool = state.lines_2_or_4();
            let lines: u8 = state.reline(even)?;
            bytes.push(function_set_0_command(eight, even, false, value));
            state =
            ControllerState { lines, double_height: false, re: false, is: value, ..state };
        }
        let ghost first: ControllerState = state;
        let ghost is_bytes: Seq<u8> = bytes@;
        assert(self.switch_is(eight, is) == Some((first, is_bytes)));
        let needs_re_set: bool = match re {
            Some(value) => value != state.re,
            None => false,
        };
        if needs_re_set {
            let value: bool = match re {
                Some(value) => value,
                None => false,
            };
            let even: bool = state.lines_2_or_4();
            let lines: u8 = state.reline(even)?;
            if value {
                bytes.push(function_set_1_command(eight, even, state.blink, state.invert));
                state = ControllerState { lines, re: true, ..state };
            } else {
                bytes.push(function_set_0_command(eight, even, state.double_height, state.is));
                state = ControllerState { lines, re: false, ..state };
            }
        }
        let ghost re_bytes: Seq<u8> = bytes@.skip(is_bytes.len() as int);
        assert(first.switch_re(eight, re) == Some((state, re_bytes))) by {
            assert(bytes@ =~= is_bytes + re_bytes);
            if needs_re_set {
                assert(re_bytes =~= seq![bytes@.last()]);
            } else {
                assert(re_bytes =~= Seq::<u8>::empty());
            }
        }
        bytes.push(data);
        assert(bytes@ =~= is_bytes + re_bytes + seq![data]);
        Ok((state, bytes))
    }

    /// Adds one command to a run for a display whose number of lines is from
    /// 1 to 4.
    fn extend(&mut self, bytes: &mut Vec<u8>, eight: bool, data: u8, is: Option<bool>, re: Option<
        bool,
    >)
        requires
            1 <= old(self).lines <= 4,
        ensures
            (*final(self), final(bytes)@) == ControllerState::chain(
                (*old(self), old(bytes)@),
                eight,
                data,
                is,
                re,
            ),
            final(self).lines == old(self).lines,
    {
        reveal(ControllerState::chain);
        match self.plan_command(eight, data, is, re) {
            Ok((state, more)) => {
                *self = state;
                let mut k: usize = 0;
                while k < more.len()
                    invariant
                        k <= more.len(),
                        bytes@ == old(bytes)@ + more@.take(k as int),
                    decreases more.len() - k,
                {
                    bytes.push(more[k]);
                    assert(more@.take(k as int + 1) =~= more@.take(k as int).push(more@[k as int]));
                    k += 1;
                }
                assert(more@.take(more@.len() as int) =~= more@);
            },
            Err(_) => {},
        }
    }

    /// The state after the controller is brought up for a display of `lines`
    /// lines, and the bytes that bring it up.
    pub fn plan_init(&self, bus: GpioHD44780Bus, lines: u8) -> (r: (ControllerState, Vec<u8>))
        requires
            1 <= lines <= 4,
        ensures
            r.0 == self.init_outcome(bus, lines).0,
            r.1@ == self.init_outcome(bus, lines).1,
    {
        let eight: bool = bus.is_8bit();
        let mut state: ControllerState = ControllerState { lines, ..*self };
        let mut bytes: Vec<u8> = Vec::new();
        match bus {
            GpioHD44780Bus::Bus8Bit => {
                bytes.push(0b0011_1000);
                bytes.push(0b0011_1000);
                bytes.push(0b0011_1000);
            },
            GpioHD44780Bus::Bus4Bit => {
                bytes.push(0b0011_0011);
                bytes.push(0b0011_0010);
            },
        }
        assert(bytes@ =~= sync_bytes(bus));
        state.extend(
            &mut bytes,
            eight,
            ext_function_set_command(false, false, lines >= 3),
            None,
            Some(true),
        );
        state.extend(&mut bytes, eight, entry_mode_ex_command(false, true), None, Some(true));
        state.extend(
            &mut bytes,
            eight,
            double_height_command(DoubleHeightMode::DoubleTop, BiasDivider::Bias1_6, false),
            Some(false),
            Some(true),
        );
        state.extend(
            &mut bytes,
            eight,
            osc_frequency_command(BiasDivider::Bias1_6, InternalOscFrequency::Freq540kHz),
            Some(true),
            Some(false),
        );
        state.extend(
            &mut bytes,
            eight,
            follower_control_command(true, InternalResistorRatio::IR6),
            Some(true),
            Some(false),
        );
        let booster: u8 = match icon_booster_contrast_command(false, true, DEFAULT_CONTRAST) {
            Ok(command) => command,
            Err(_) => 0,
        };
        state.extend(&mut bytes, eight, booster, Some(true), Some(false));
        let contrast: u8 = match contrast_set_command(DEFAULT_CONTRAST) {
            Ok(command) => command,
            Err(_) => 0,
        };
        state.extend(&mut bytes, eight, contrast, Some(true), Some(false));
        let even: bool = lines == 2 || lines == 4;
        let relined: u8 = match state.reline(even) {
            Ok(relined) => relined,
            Err(_) => lines,
        };
        let ghost before: (ControllerState, Seq<u8>) = (state, bytes@);
        state =
        ControllerState { lines: relined, double_height: false, re: false, is: false, ..state };
        bytes.push(function_set_0_command(eight, even, false, false));
        assert(bytes@ =~= before.1 + seq![function_set_0_byte(eight, even, false, false)]);
        assert(state == before.0.after_function_set_0(even, false, false)->Some_0);
        state.extend(&mut bytes, eight, display_control_command(true, false, false), None, Some(false));
        state.extend(&mut bytes, eight, CLEAR_DISPLAY, None, None);
        (state, bytes)
    }

    /// The number of lines after a function set: `InvalidArgument` where the
    /// number of lines is not from 1 to 4.
    fn reline(&self, lines_2_or_4: bool) -> (r: GpioResult<u8>)
        ensures
            match self.relined(lines_2_or_4) {
                Some(lines) => r == Ok::<u8, GpioError>(lines),
                None => r == Err::<u8, GpioError>(GpioError::InvalidArgument),
            },
    {
        if self.lines == 1 || self.lines == 2 {
            Ok(if lines_2_or_4 { 2 } else { 1 })
        } else if self.lines == 3 || self.lines == 4 {
            Ok(if lines_2_or_4 { 4 } else { 3 })
        } else {
            Err(GpioError::InvalidArgument)
        }
    }
}

/// The contrast that a controller is brought up with.
pub const DEFAULT_CONTRAST: u8 = 0b11010;

/// The steps of a run of one command are the steps that send it.
proof fn lemma_commands_script_one(bus: GpioHD44780Bus, has_rw: bool, byte: u8)
    ensures
        commands_script(bus, has_rw, seq![byte]) == send_script(bus, has_rw, byte, false),
{
    reveal_with_fuel(commands_script, 2);
    assert(seq![byte].drop_last() =~= Seq::<u8>::empty());
    assert(seq![byte].last() == byte);
    assert(commands_script(bus, has_rw, seq![byte]) =~= send_script(bus, has_rw, byte, false));
}

/// A queueing driver of a display with an SSD1803A controller.
#[derive(Debug)]
pub struct GpioSSD1803ADriver {
    has_reset: bool,
    has_rw: bool,
    data_bus: GpioHD44780Bus,
    state: ControllerState,
    steps: Vec<LcdStep>,
}

impl GpioSSD1803ADriver {
    /// The steps that wait in the queue.
    pub closed spec fn queued(&self) -> Seq<LcdStep> {
        self.steps@
    }

    /// The width of the data part of the bus.
    pub closed spec fn bus(&self) -> GpioHD44780Bus {
        self.data_bus
    }

    /// Whether the read/write line is wired.
    pub closed spec fn reads(&self) -> bool {
        self.has_rw
    }

    /// Whether the reset line is wired.
    pub closed spec fn resets(&self) -> bool {
        self.has_reset
    }

    /// What the driver remembers of the state of the controller.
    pub closed spec fn controller(&self) -> ControllerState {
        self.state
    }

    /// Whether two drivers are wired alike.
    pub open spec fn same_wiring(&self, other: &Self) -> bool {
        &&& self.bus() == other.bus()
        &&& self.reads() == other.reads()
        &&& self.resets() == other.resets()
    }

    /// A driver on four data lines, its queue empty, for a controller after
    /// power-up.
    pub fn new_4bit(has_reset: bool, has_rw: bool) -> (driver: Self)
        ensures
            driver.bus() == GpioHD44780Bus::Bus4Bit,
            driver.resets() == has_reset,
            driver.reads() == has_rw,
            driver.queued() == Seq::<LcdStep>::empty(),
            driver.controller() == (ControllerState {
                lines: 1,
                re: false,
                is: false,
                blink: false,
                invert: false,
                double_height: false,
            }),
    {
        GpioSSD1803ADriver {
            has_reset,
            has_rw,
            data_bus: GpioHD44780Bus::Bus4Bit,
            state: ControllerState::new(),
            steps: Vec::new(),
        }
    }

    /// A driver on eight data lines, its queue empty, for a controller after
    /// power-up.
    pub fn new_8bit(has_reset: bool, has_rw: bool) -> (driver: Self)
        ensures
            driver.bus() == GpioHD44780Bus::Bus8Bit,
            driver.resets() == has_reset,
            driver.reads() == has_rw,
            driver.queued() == Seq::<LcdStep>::empty(),
            driver.controller() == (ControllerState {
                lines: 1,
                re: false,
                is: false,
                blink: false,
                invert: false,
                double_height: false,
            }),
    {
        GpioSSD1803ADriver {
            has_reset,
            has_rw,
            data_bus: GpioHD44780Bus::Bus8Bit,
            state: ControllerState::new(),
            steps: Vec::new(),
        }
    }

    /// What the driver remembers of the state of the controller.
    pub fn controller_state(&self) -> (state: ControllerState)
        ensures
            state == self.controller(),
    {
        self.state
    }

    /// The width of the data part of the bus.
    pub fn data_bus(&self) -> (bus: GpioHD44780Bus)
        ensures
            bus == self.bus(),
    {
        self.data_bus
    }

    /// Takes the queued steps, which leaves the queue empty.
    pub fn take_steps(&mut self) -> (steps: Vec<LcdStep>)
        ensures
            steps@ == old(self).queued(),
            final(self).queued() == Seq::<LcdStep>::empty(),
            final(self).same_wiring(old(self)),
            final(self).controller() == old(self).controller(),
    {
        let mut steps: Vec<LcdStep> = Vec::new();
        std::mem::swap(&mut steps, &mut self.steps);
        steps
    }

    /// Queues the steps that send one byte, as a command or, with `rs`, as
    /// data, whatever the state of the controller.
    pub fn send(&mut self, data: u8, rs: bool) -> (r: GpioResult<()>)
        ensures
            r is Ok,
            final(self).queued() == old(self).queued() + send_script(
                old(self).bus(),
                old(self).reads(),
                data,
                rs,
            ),
            final(self).same_wiring(old(self)),
            final(self).controller() == old(self).controller(),
    {
        push_send(&mut self.steps, self.data_bus, self.has_rw, data, rs);
        Ok(())
    }

    /// Queues the steps that read one byte: `NotSupported`, with nothing
    /// queued, where the read/write line is not wired. The samples that the
    /// steps yield go to [`read_value`].
    pub fn read(&mut self, rs: bool) -> (r: GpioResult<()>)
        ensures
            final(self).same_wiring(old(self)),
            final(self).controller() == old(self).controller(),
            !old(self).reads() <==> r == Err::<(), GpioError>(GpioError::NotSupported),
            old(self).reads() <==> r is Ok,
            final(self).queued() == if old(self).reads() {
                old(self).queued() + read_script(old(self).bus(), rs)
            } else {
                old(self).queued()
            },
    {
        if !self.has_rw {
            return Err(GpioError::NotSupported);
        }
        push_read(&mut self.steps, self.data_bus, rs);
        Ok(())
    }

    /// Sends the function set that clears `RE` and sets `IS`, and remembers
    /// what it does to the controller: `InvalidArgument`, with nothing sent,
    /// where the number of lines is not from 1 to 4.
    pub fn apply_function_set_0(
        &mut self,
        data_length: bool,
        lines_2_or_4: bool,
        double_height_enabled: bool,
        set_is: bool,
    ) -> (r: GpioResult<()>)
        ensures
            final(self).same_wiring(old(self)),
            match old(self).controller().after_function_set_0(
                lines_2_or_4,
                double_height_enabled,
                set_is,
            ) {
                Some(state) => {
                    &&& r is Ok
                    &&& final(self).controller() == state
                    &&& final(self).queued() == old(self).queued() + commands_script(
                        old(self).bus(),
                        old(self).reads(),
                        seq![
                            function_set_0_byte(
                                data_length,
                                lines_2_or_4,
                                double_height_enabled,
                                set_is,
                            ),
                        ],
                    )
                },
                None => {
                    &&& r == Err::<(), GpioError>(GpioError::InvalidArgument)
                    &&& final(self).controller() == old(self).controller()
                    &&& final(self).queued() == old(self).queued()
                },
            },
    {
        let command: u8 = function_set_0_command(
            data_length,
            lines_2_or_4,
            double_height_enabled,
            set_is,
        );
        let lines: u8 = self.state.reline(lines_2_or_4)?;
        self.state =
        ControllerState {
            lines,
            double_height: double_height_enabled,
            re: false,
            is: set_is,
            blink: self.state.blink,
            invert: self.state.invert,
        };
        proof {
            lemma_commands_script_one(self.data_bus, self.has_rw, command);
        }
        self.send(command, false)
    }

    /// Sends the function set that sets `RE`, and remembers what it does to
    /// the controller: `InvalidArgument`, with nothing sent, where the number
    /// of lines is not from 1 to 4.
    pub fn apply_function_set_1(
        &mut self,
        data_length: bool,
        lines_2_or_4: bool,
        char_blink: bool,
        invert: bool,
    ) -> (r: GpioResult<()>)
        ensures
            final(self).same_wiring(old(self)),
            match old(self).controller().after_function_set_1(lines_2_or_4, char_blink, invert) {
                Some(state) => {
                    &&& r is Ok
                    &&& final(self).controller() == state
                    &&& final(self).queued() == old(self).queued() + commands_script(
                        old(self).bus(),
                        old(self).reads(),
                        seq![function_set_1_byte(data_length, lines_2_or_4, char_blink, invert)],
                    )
                },
                None => {
                    &&& r == Err::<(), GpioError>(GpioError::InvalidArgument)
                    &&& final(self).controller() == old(self).controller()
                    &&& final(self).queued() == old(self).queued()
                },
            },
    {
        let command: u8 = function_set_1_command(data_length, lines_2_or_4, char_blink, invert);
        let lines: u8 = self.state.reline(lines_2_or_4)?;
        self.state =
        ControllerState {
            lines,
            blink: char_blink,
            invert,
            re: true,
            is: self.state.is,
            double_height: self.state.double_height,
        };
        proof {
            lemma_commands_script_one(self.data_bus, self.has_rw, command);
        }
        self.send(command, false)
    }

    /// Sends a command with `IS` and `RE` brought to the values that it
    /// needs first: the function sets that are needed go out before it, and
    /// the driver remembers what they do. `InvalidArgument`, with nothing
    /// sent, where a function set is needed and the number of lines is not
    /// from 1 to 4.
    pub fn command(&mut self, data: u8, is: Option<bool>, re: Option<bool>) -> (r: GpioResult<()>)
        ensures
            final(self).same_wiring(old(self)),
            match old(self).controller().command_outcome(
                old(self).bus() == GpioHD44780Bus::Bus8Bit,
                data,
                is,
                re,
            ) {
                Some((state, bytes)) => {
                    &&& r is Ok
                    &&& final(self).controller() == state
                    &&& final(self).queued() == old(self).queued() + commands_script(
                        old(self).bus(),
                        old(self).reads(),
                        bytes,
                    )
                },
                None => {
                    &&& r == Err::<(), GpioError>(GpioError::InvalidArgument)
                    &&& final(self).controller() == old(self).controller()
                    &&& final(self).queued() == old(self).queued()
                },
            },
    {
        let (state, bytes): (ControllerState, Vec<u8>) = self.state.plan_command(
            self.data_bus.is_8bit(),
            data,
            is,
            re,
        )?;
        self.state = state;
        push_commands(&mut self.steps, self.data_bus, self.has_rw, bytes.as_slice());
        Ok(())
    }

    /// Queues the steps that bring the controller up for a display of
    /// `lines` lines: `InvalidArgument`, with nothing queued, where `lines`
    /// is not from 1 to 4. The reset line is pulsed first where it is wired.
    pub fn initialize(&mut self, lines: u8) -> (r: GpioResult<()>)
        ensures
            final(self).same_wiring(old(self)),
            (lines < 1 || lines > 4) <==> r == Err::<(), GpioError>(GpioError::InvalidArgument),
            (1 <= lines <= 4) <==> r is Ok,
            r is Err ==> final(self).controller() == old(self).controller(),
            r is Err ==> final(self).queued() == old(self).queued(),
            r is Ok ==> final(self).controller() == old(self).controller().init_outcome(
                old(self).bus(),
                lines,
            ).0,
            r is Ok ==> final(self).queued() == old(self).queued() + (if old(self).resets() {
                reset_script()
            } else {
                Seq::empty()
            }) + commands_script(
                old(self).bus(),
                old(self).reads(),
                old(self).controller().init_outcome(old(self).bus(), lines).1,
            ),
    {
        if lines < 1 || lines > 4 {
            return Err(GpioError::InvalidArgument);
        }
        let (state, bytes): (ControllerState, Vec<u8>) = self.state.plan_init(
            self.data_bus,
            lines,
        );
        self.state = state;
        if self.has_reset {
            self.steps.push(LcdStep::SetReset(true));
            self.steps.push(LcdStep::DelayMicros(RESET_MICROS));
            self.steps.push(LcdStep::SetReset(false));
            self.steps.push(LcdStep::DelayMicros(RESET_MICROS));
            assert(self.steps@ =~= old(self).steps@ + reset_script());
        } else {
            assert(self.steps@ =~= old(self).steps@ + Seq::<LcdStep>::empty());
        }
        push_commands(&mut self.steps, self.data_bus, self.has_rw, bytes.as_slice());
        Ok(())
    }
}

impl GpioSSD1803ADriver {
    /// Whether a command, with `IS` and `RE` brought to the values that it
    /// needs, can take the driver from one state to another and give a
    /// result: what [`command`](Self::command) does.
    pub open spec fn commanded(
        before: &Self,
        after: &Self,
        data: u8,
        is: Option<bool>,
        re: Option<bool>,
        r: GpioResult<()>,
    ) -> bool {
        match before.controller().command_outcome(
            before.bus() == GpioHD44780Bus::Bus8Bit,
            data,
            is,
            re,
        ) {
            Some((state, bytes)) => {
                &&& r is Ok
                &&& after.controller() == state
                &&& after.queued() == before.queued() + commands_script(
                    before.bus(),
                    before.reads(),
                    bytes,
                )
            },
            None => {
                &&& r == Err::<(), GpioError>(GpioError::InvalidArgument)
                &&& after.controller() == before.controller()
                &&& after.queued() == before.queued()
            },
        }
    }

    /// Whether a function set, given as the state that the controller has
    /// after it and the byte that does it, can take the driver from one state
    /// to another and give a result: what
    /// [`apply_function_set_0`](Self::apply_function_set_0) and
    /// [`apply_function_set_1`](Self::apply_function_set_1) do.
    pub open spec fn function_set_done(
        before: &Self,
        after: &Self,
        outcome: Option<ControllerState>,
        byte: u8,
        r: GpioResult<()>,
    ) -> bool {
        match outcome {
            Some(state) => {
                &&& r is Ok
                &&& after.controller() == state
                &&& after.queued() == before.queued() + commands_script(
                    before.bus(),
                    before.reads(),
                    seq![byte],
                )
            },
            None => {
                &&& r == Err::<(), GpioError>(GpioError::InvalidArgument)
                &&& after.controller() == before.controller()
                &&& after.queued() == before.queued()
            },
        }
    }

    /// Whether a byte sent without regard to `IS` and `RE` is a function set
    /// whose effect on the controller the driver remembers.
    pub open spec fn function_set_sent(before: &Self, after: &Self, data: u8, r: GpioResult<()>)
        -> bool {
        (exists|data_length: bool, lines_2_or_4: bool, third: bool, fourth: bool|
            data == #[trigger] function_set_0_byte(data_length, lines_2_or_4, third, fourth)
                && Self::function_set_done(
                before,
                after,
                before.controller().after_function_set_0(lines_2_or_4, third, fourth),
                data,
                r,
            )) || (exists|data_length: bool, lines_2_or_4: bool, third: bool, fourth: bool|
            data == #[trigger] function_set_1_byte(data_length, lines_2_or_4, third, fourth)
                && Self::function_set_done(
                before,
                after,
                before.controller().after_function_set_1(lines_2_or_4, third, fourth),
                data,
                r,
            ))
    }
}

impl SSD1803ADriver for GpioSSD1803ADriver {
    /// Bringing the controller up rejects a number of lines that is not from
    /// 1 to 4, and else queues the steps of
    /// [`ControllerState::init_outcome`], after a pulse on the reset line
    /// where it is wired.
    open spec fn init_gives(before: &Self, after: &Self, lines: u8, r: GpioResult<()>) -> bool {
        &&& after.same_wiring(before)
        &&& if 1 <= lines <= 4 {
            &&& r is Ok
            &&& after.controller() == before.controller().init_outcome(before.bus(), lines).0
            &&& after.queued() == before.queued() + (if before.resets() {
                reset_script()
            } else {
                Seq::empty()
            }) + commands_script(
                before.bus(),
                before.reads(),
                before.controller().init_outcome(before.bus(), lines).1,
            )
        } else {
            &&& r == Err::<(), GpioError>(GpioError::InvalidArgument)
            &&& after.controller() == before.controller()
            &&& after.queued() == before.queued()
        }
    }

    /// A command goes out after the function sets that bring `IS` and `RE`
    /// to the values that it needs; a function set sent without regard to
    /// them is remembered for what it does to the controller.
    open spec fn command_gives(
        before: &Self,
        after: &Self,
        data: u8,
        is: Option<bool>,
        re: Option<bool>,
        r: GpioResult<()>,
    ) -> bool {
        &&& after.same_wiring(before)
        &&& Self::commanded(before, after, data, is, re, r) || (is is None && re is None
            && Self::function_set_sent(before, after, data, r))
    }

    /// Sending a data byte queues the steps that send it with `RS` high, and
    /// succeeds.
    open spec fn data_gives(before: &Self, after: &Self, data: u8, r: GpioResult<()>) -> bool {
        &&& r is Ok
        &&& after.same_wiring(before)
        &&& after.controller() == before.controller()
        &&& after.queued() == before.queued() + send_script(
            before.bus(),
            before.reads(),
            data,
            true,
        )
    }

    /// A queueing driver has no byte to return: a read through this
    /// interface fails with `NotSupported` and queues nothing.
    open spec fn command_read(before: &Self, after: &Self, r: GpioResult<u8>) -> bool {
        &&& r == Err::<u8, GpioError>(GpioError::NotSupported)
        &&& after.same_wiring(before)
        &&& after.controller() == before.controller()
        &&& after.queued() == before.queued()
    }

    /// A queueing driver has no byte to return: a read through this
    /// interface fails with `NotSupported` and queues nothing.
    open spec fn data_read(before: &Self, after: &Self, r: GpioResult<u8>) -> bool {
        &&& r == Err::<u8, GpioError>(GpioError::NotSupported)
        &&& after.same_wiring(before)
        &&& after.controller() == before.controller()
        &&& after.queued() == before.queued()
    }

    fn init(&mut self, lines: u8) -> (r: GpioResult<()>) {
        self.initialize(lines)
    }

    fn function_set_0(
        &mut self,
        data_length: bool,
        lines_2_or_4: bool,
        double_height_enabled: bool,
        set_is: bool,
    ) -> (r: GpioResult<()>) {
        let r: GpioResult<()> = self.apply_function_set_0(
            data_length,
            lines_2_or_4,
            double_height_enabled,
            set_is,
        );
        proof {
            let byte: u8 = function_set_0_byte(
                data_length,
                lines_2_or_4,
                double_height_enabled,
                set_is,
            );
            assert(Self::function_set_done(
                old(self),
                self,
                old(self).controller().after_function_set_0(
                    lines_2_or_4,
                    double_height_enabled,
                    set_is,
                ),
                byte,
                r,
            ));
            assert(Self::function_set_sent(old(self), self, byte, r));
        }
        r
    }

    fn function_set_1(
        &mut self,
        data_length: bool,
        lines_2_or_4: bool,
        char_blink: bool,
        invert: bool,
    ) -> (r: GpioResult<()>) {
        let r: GpioResult<()> = self.apply_function_set_1(
            data_length,
            lines_2_or_4,
            char_blink,
            invert,
        );
        proof {
            let byte: u8 = function_set_1_byte(data_length, lines_2_or_4, char_blink, invert);
            assert(Self::function_set_done(
                old(self),
                self,
                old(self).controller().after_function_set_1(lines_2_or_4, char_blink, invert),
                byte,
                r,
            ));
            assert(Self::function_set_sent(old(self), self, byte, r));
        }
        r
    }

    fn send_command(&mut self, data: u8, is: Option<bool>, re: Option<bool>) -> (r: GpioResult<
        (),
    >) {
        self.command(data, is, re)
    }

    fn send_data(&mut self, data: u8) -> (r: GpioResult<()>) {
        self.send(data, true)
    }

    /// A queueing driver has no byte to return: the read is queued with
    /// [`GpioSSD1803ADriver::read`], and this call is not supported.
    fn read_command(&mut self) -> (r: GpioResult<u8>) {
        Err(GpioError::NotSupported)
    }

    /// A queueing driver has no byte to return: the read is queued with
    /// [`GpioSSD1803ADriver::read`], and this call is not supported.
    fn read_data(&mut self) -> (r: GpioResult<u8>) {
        Err(GpioError::NotSupported)
    }
}

} // verus!
