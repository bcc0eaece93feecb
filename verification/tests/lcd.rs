use pilock::error::GpioError;
use pilock::lcd::gpio::{
    read_value, ControllerState, GpioHD44780Bus, GpioHD44780Driver, GpioSSD1803ADriver, LcdStep,
};
use pilock::lcd::hd44780::{CursorDirection, HD44780Driver};
use pilock::lcd::ssd1803a::{
    AsHD44780, BiasDivider, DoubleHeightMode, InternalOscFrequency, InternalResistorRatio, Rom,
    SSD1803ADriver, TempCoefficient,
};
use pilock::utils::DisplayExt;

#[test]
fn masks() {
    assert_eq!(DoubleHeightMode::DoubleBottom.to_mask(), 0b0000);
    assert_eq!(DoubleHeightMode::DoubleMiddle.to_mask(), 0b0100);
    assert_eq!(DoubleHeightMode::DoubleBoth.to_mask(), 0b1000);
    assert_eq!(DoubleHeightMode::DoubleTop.to_mask(), 0b1100);
    assert_eq!(DoubleHeightMode::default(), DoubleHeightMode::DoubleTop);
    let dividers =
        [BiasDivider::Bias1_5, BiasDivider::Bias1_4, BiasDivider::Bias1_7, BiasDivider::Bias1_6];
    for (code, divider) in dividers.iter().enumerate() {
        assert_eq!(divider.bs1(), code & 2 != 0);
        assert_eq!(divider.bs0(), code & 1 != 0);
    }
    assert_eq!(BiasDivider::default(), BiasDivider::Bias1_6);
    let frequencies = [
        InternalOscFrequency::Freq420kHz,
        InternalOscFrequency::Freq460kHz,
        InternalOscFrequency::Freq500kHz,
        InternalOscFrequency::Freq540kHz,
        InternalOscFrequency::Freq580kHz,
        InternalOscFrequency::Freq620kHz,
        InternalOscFrequency::Freq640kHz,
        InternalOscFrequency::Freq680kHz,
    ];
    for (code, frequency) in frequencies.iter().enumerate() {
        assert_eq!(frequency.to_mask(), code as u8);
    }
    assert_eq!(InternalOscFrequency::default(), InternalOscFrequency::Freq540kHz);
    let ratios = [
        InternalResistorRatio::IR0,
        InternalResistorRatio::IR1,
        InternalResistorRatio::IR2,
        InternalResistorRatio::IR3,
        InternalResistorRatio::IR4,
        InternalResistorRatio::IR5,
        InternalResistorRatio::IR6,
        InternalResistorRatio::IR7,
    ];
    for (code, ratio) in ratios.iter().enumerate() {
        assert_eq!(ratio.to_mask(), code as u8);
    }
    assert_eq!(InternalResistorRatio::default(), InternalResistorRatio::IR2);
    assert_eq!(TempCoefficient::C0_05.to_mask(), 0b010);
    assert_eq!(TempCoefficient::C0_10.to_mask(), 0b100);
    assert_eq!(TempCoefficient::C0_15.to_mask(), 0b110);
    assert_eq!(TempCoefficient::C0_20.to_mask(), 0b111);
    assert_eq!(TempCoefficient::default(), TempCoefficient::C0_05);
    assert_eq!(Rom::RomA.to_mask(), 0b0000);
    assert_eq!(Rom::RomB.to_mask(), 0b0100);
    assert_eq!(Rom::RomC.to_mask(), 0b1000);
}

#[derive(Debug, PartialEq)]
enum Sent {
    Command(u8, Option<bool>, Option<bool>),
    Data(u8),
}

/// A controller that writes down what it is sent.
#[derive(Debug, Default)]
struct Recorder {
    sent: Vec<Sent>,
    reply: u8,
}

impl Recorder {
    fn last(&mut self) -> Sent {
        assert_eq!(self.sent.len(), 1);
        self.sent.pop().unwrap()
    }
}

impl SSD1803ADriver for Recorder {
    fn init(&mut self, _lines: u8) -> Result<(), GpioError> {
        Ok(())
    }
    fn send_command(
        &mut self,
        data: u8,
        is: Option<bool>,
        re: Option<bool>,
    ) -> Result<(), GpioError> {
        self.sent.push(Sent::Command(data, is, re));
        Ok(())
    }
    fn send_data(&mut self, data: u8) -> Result<(), GpioError> {
        self.sent.push(Sent::Data(data));
        Ok(())
    }
    fn read_command(&mut self) -> Result<u8, GpioError> {
        Ok(self.reply)
    }
    fn read_data(&mut self) -> Result<u8, GpioError> {
        Ok(self.reply)
    }
}

#[test]
fn ssd1803a_commands() {
    let mut lcd = Recorder::default();
    lcd.clear_display().unwrap();
    assert_eq!(lcd.last(), Sent::Command(0b0000_0001, None, None));
    lcd.return_home().unwrap();
    assert_eq!(lcd.last(), Sent::Command(0b0000_0010, None, Some(false)));
    lcd.power_down_mode(true).unwrap();
    assert_eq!(lcd.last(), Sent::Command(0b0000_0011, None, Some(true)));
    lcd.set_entry_mode(CursorDirection::Right, false).unwrap();
    assert_eq!(lcd.last(), Sent::Command(0b0000_0110, None, Some(false)));
    lcd.set_entry_mode(CursorDirection::Left, true).unwrap();
    assert_eq!(lcd.last(), Sent::Command(0b0000_0101, None, Some(false)));
    lcd.set_entry_mode_ex(false, true).unwrap();
    assert_eq!(lcd.last(), Sent::Command(0b0000_0110, None, Some(true)));
    lcd.set_entry_mode_ex(true, false).unwrap();
    assert_eq!(lcd.last(), Sent::Command(0b0000_0101, None, Some(true)));
    lcd.set_display_control(true, false, true).unwrap();
    assert_eq!(lcd.last(), Sent::Command(0b0000_1101, None, Some(false)));
    lcd.ext_function_set(true, false, true).unwrap();
    assert_eq!(lcd.last(), Sent::Command(0b0000_1101, None, Some(true)));
    lcd.cursor_shift(true, CursorDirection::Right).unwrap();
    assert_eq!(lcd.last(), Sent::Command(0b0001_1100, Some(false), Some(false)));
    lcd.double_height_bias_dot_shift(DoubleHeightMode::DoubleMiddle, BiasDivider::Bias1_6, false)
        .unwrap();
    assert_eq!(lcd.last(), Sent::Command(0b0001_0111, Some(false), Some(true)));
    lcd.double_height_bias_dot_shift(DoubleHeightMode::DoubleBoth, BiasDivider::Bias1_4, true)
        .unwrap();
    assert_eq!(lcd.last(), Sent::Command(0b0001_1000, Some(false), Some(true)));
    lcd.internal_osc_frequency(BiasDivider::Bias1_6, InternalOscFrequency::Freq540kHz).unwrap();
    assert_eq!(lcd.last(), Sent::Command(0b0001_1011, Some(true), Some(false)));
    lcd.shift_enable(true, false, false, true).unwrap();
    assert_eq!(lcd.last(), Sent::Command(0b0001_1001, Some(true), Some(true)));
    lcd.function_set_0(false, true, true, false).unwrap();
    assert_eq!(lcd.last(), Sent::Command(0b0010_1100, None, None));
    lcd.function_set_0(true, false, false, true).unwrap();
    assert_eq!(lcd.last(), Sent::Command(0b0011_0001, None, None));
    lcd.function_set_1(false, true, true, true).unwrap();
    assert_eq!(lcd.last(), Sent::Command(0b0010_1111, None, None));
    lcd.set_cgram_address(0b11_1111).unwrap();
    assert_eq!(lcd.last(), Sent::Command(0b0111_1111, Some(false), Some(false)));
    lcd.set_segram_address(0b1111).unwrap();
    assert_eq!(lcd.last(), Sent::Command(0b0100_1111, Some(true), Some(false)));
    lcd.icon_booster_contrast(false, true, 0b11_0101).unwrap();
    assert_eq!(lcd.last(), Sent::Command(0b0101_0111, Some(true), Some(false)));
    lcd.follower_control(true, InternalResistorRatio::IR6).unwrap();
    assert_eq!(lcd.last(), Sent::Command(0b0110_1110, Some(true), Some(false)));
    lcd.contrast_set(0b11_0101).unwrap();
    assert_eq!(lcd.last(), Sent::Command(0b0111_0101, Some(true), Some(false)));
    lcd.set_ddram_address(0x60).unwrap();
    assert_eq!(lcd.last(), Sent::Command(0b1110_0000, None, Some(false)));
    lcd.set_scroll_quantity(48).unwrap();
    assert_eq!(lcd.last(), Sent::Command(0b1011_0000, None, Some(true)));
    lcd.temp_coefficient_control(TempCoefficient::C0_15).unwrap();
    assert_eq!(
        lcd.sent,
        [Sent::Command(0b0111_0110, None, Some(true)), Sent::Data(0b110)]
    );
    lcd.sent.clear();
    lcd.rom_selection(Rom::RomC).unwrap();
    assert_eq!(
        lcd.sent,
        [Sent::Command(0b0111_0010, None, Some(true)), Sent::Data(0b1000)]
    );
    lcd.sent.clear();
    lcd.reply = 0b1010_0101;
    assert_eq!(lcd.get_busy_flag_and_address(), Ok((true, 0b010_0101)));
    lcd.reply = 0b0111_1111;
    assert_eq!(lcd.get_busy_flag_and_address(), Ok((false, 0b111_1111)));
}

#[test]
fn an_ssd1803a_takes_the_commands_of_an_hd44780() {
    let mut lcd = Recorder::default();
    let mut compat = AsHD44780(&mut lcd);
    compat.set_entry_mode(CursorDirection::Right, true).unwrap();
    compat.send_data(b'a').unwrap();
    compat.function_set(false, true, false).unwrap();
    compat.init(true, true).unwrap();
    assert_eq!(
        lcd.sent,
        [
            Sent::Command(0b0000_0111, Some(false), Some(false)),
            Sent::Data(b'a'),
            Sent::Command(0b0010_1000, Some(false), Some(false)),
        ]
    );
    lcd.reply = 0x85;
    assert_eq!(AsHD44780(&mut lcd).get_busy_flag_and_address(), Ok((true, 5)));
    assert_eq!(AsHD44780(&mut lcd).read_data(), Ok(0x85));
}

#[test]
fn ssd1803a_arguments_out_of_range() {
    let mut lcd = Recorder::default();
    assert_eq!(lcd.set_cgram_address(64), Err(GpioError::InvalidArgument));
    assert_eq!(lcd.set_segram_address(16), Err(GpioError::InvalidArgument));
    assert_eq!(lcd.icon_booster_contrast(true, true, 64), Err(GpioError::InvalidArgument));
    assert_eq!(lcd.contrast_set(64), Err(GpioError::InvalidArgument));
    assert_eq!(lcd.set_ddram_address(128), Err(GpioError::InvalidArgument));
    assert_eq!(lcd.set_scroll_quantity(64), Err(GpioError::InvalidArgument));
    assert_eq!(lcd.set_cursor(4, 0), Err(GpioError::InvalidArgument));
    assert_eq!(lcd.set_cursor(0, 20), Err(GpioError::InvalidArgument));
    assert!(lcd.sent.is_empty());
}

#[test]
fn text_and_cursor() {
    let mut lcd = Recorder::default();
    lcd.set_cursor(1, 7).unwrap();
    assert_eq!(lcd.last(), Sent::Command(0b1000_0000 | 0x27, None, Some(false)));
    lcd.print("Hi é").unwrap();
    assert_eq!(
        lcd.sent,
        [Sent::Data(b'H'), Sent::Data(b'i'), Sent::Data(b' '), Sent::Data(b'?')]
    );
}

/// The bytes that a run of steps puts on the bus, with the level of `RS` for
/// each, checked against the protocol on the way.
fn bytes_on_bus(steps: &[LcdStep], bus: GpioHD44780Bus, has_rw: bool) -> Vec<(u8, bool)> {
    let pulse = [
        LcdStep::SetEnable(true),
        LcdStep::DelayMicros(1),
        LcdStep::SetEnable(false),
        LcdStep::DelayMicros(1000),
    ];
    let mut bytes = Vec::new();
    let mut at = 0;
    while at < steps.len() {
        let rs = match steps[at] {
            LcdStep::SetRegisterSelect(rs) => rs,
            other => panic!("{other:?} at {at}"),
        };
        at += 1;
        if has_rw {
            assert_eq!(steps[at], LcdStep::SetReadWrite(false));
            at += 1;
        }
        let mut byte = 0;
        let parts = if bus.is_8bit() { 1 } else { 2 };
        for _ in 0..parts {
            assert_eq!(steps[at], LcdStep::BusOutput);
            match steps[at + 1] {
                LcdStep::WriteByte(value) if bus.is_8bit() => byte = value,
                LcdStep::WriteNibble(value) if bus.is_4bit() => {
                    assert!(value < 16);
                    byte = (byte << 4) | value;
                }
                other => panic!("{other:?} at {at}"),
            }
            assert_eq!(steps[at + 2..at + 6], pulse);
            at += 6;
        }
        bytes.push((byte, rs));
    }
    bytes
}

fn commands(bytes: &[u8]) -> Vec<(u8, bool)> {
    bytes.iter().map(|byte| (*byte, false)).collect()
}

#[test]
fn a_byte_on_four_lines_goes_high_nibble_first() {
    let mut lcd = GpioSSD1803ADriver::new_4bit(false, true);
    lcd.send(0xA5, true).unwrap();
    assert_eq!(
        lcd.take_steps(),
        [
            LcdStep::SetRegisterSelect(true),
            LcdStep::SetReadWrite(false),
            LcdStep::BusOutput,
            LcdStep::WriteNibble(0xA),
            LcdStep::SetEnable(true),
            LcdStep::DelayMicros(1),
            LcdStep::SetEnable(false),
            LcdStep::DelayMicros(1000),
            LcdStep::BusOutput,
            LcdStep::WriteNibble(0x5),
            LcdStep::SetEnable(true),
            LcdStep::DelayMicros(1),
            LcdStep::SetEnable(false),
            LcdStep::DelayMicros(1000),
        ]
    );
    assert!(lcd.take_steps().is_empty());
}

#[test]
fn a_byte_on_eight_lines_goes_at_once() {
    let mut lcd = GpioHD44780Driver::new_8bit(false);
    lcd.send(0xA5, false).unwrap();
    assert_eq!(
        lcd.take_steps(),
        [
            LcdStep::SetRegisterSelect(false),
            LcdStep::BusOutput,
            LcdStep::WriteByte(0xA5),
            LcdStep::SetEnable(true),
            LcdStep::DelayMicros(1),
            LcdStep::SetEnable(false),
            LcdStep::DelayMicros(1000),
        ]
    );
}

#[test]
fn reading_needs_the_read_write_line() {
    let mut lcd = GpioSSD1803ADriver::new_4bit(false, false);
    assert_eq!(lcd.read(false), Err(GpioError::NotSupported));
    assert!(lcd.take_steps().is_empty());
    assert_eq!(lcd.read_command(), Err(GpioError::NotSupported));
    let mut lcd = GpioHD44780Driver::new_4bit(true);
    assert_eq!(lcd.read(true), Ok(()));
    let sample = |step| {
        [
            LcdStep::SetEnable(true),
            LcdStep::DelayMicros(1),
            step,
            LcdStep::SetEnable(false),
            LcdStep::DelayMicros(1),
        ]
    };
    let mut expected = vec![
        LcdStep::BusInput,
        LcdStep::SetRegisterSelect(true),
        LcdStep::SetReadWrite(true),
        LcdStep::DelayMicros(1),
    ];
    expected.extend(sample(LcdStep::ReadNibble));
    expected.extend(sample(LcdStep::ReadNibble));
    expected.push(LcdStep::SetReadWrite(false));
    assert_eq!(lcd.take_steps(), expected);
    let mut lcd = GpioSSD1803ADriver::new_8bit(false, true);
    assert_eq!(lcd.read(false), Ok(()));
    let mut expected = vec![
        LcdStep::BusInput,
        LcdStep::SetRegisterSelect(false),
        LcdStep::SetReadWrite(true),
        LcdStep::DelayMicros(1),
    ];
    expected.extend(sample(LcdStep::ReadByte));
    expected.push(LcdStep::SetReadWrite(false));
    assert_eq!(lcd.take_steps(), expected);
}

#[test]
fn samples_make_up_a_byte() {
    assert_eq!(read_value(GpioHD44780Bus::Bus8Bit, &[0xA5]), Ok(0xA5));
    assert_eq!(read_value(GpioHD44780Bus::Bus8Bit, &[]), Err(GpioError::InvalidArgument));
    assert_eq!(read_value(GpioHD44780Bus::Bus8Bit, &[1, 2]), Err(GpioError::InvalidArgument));
    assert_eq!(read_value(GpioHD44780Bus::Bus4Bit, &[0xA, 0x5]), Ok(0xA5));
    assert_eq!(read_value(GpioHD44780Bus::Bus4Bit, &[0xF, 0xF]), Ok(0xFF));
    assert_eq!(read_value(GpioHD44780Bus::Bus4Bit, &[0x10, 0]), Err(GpioError::InvalidArgument));
    assert_eq!(read_value(GpioHD44780Bus::Bus4Bit, &[0, 0x10]), Err(GpioError::InvalidArgument));
    assert_eq!(read_value(GpioHD44780Bus::Bus4Bit, &[1]), Err(GpioError::InvalidArgument));
}

#[test]
fn hd44780_comes_up() {
    let mut lcd = GpioHD44780Driver::new_4bit(true);
    lcd.init(true, false).unwrap();
    assert_eq!(
        bytes_on_bus(&lcd.take_steps(), GpioHD44780Bus::Bus4Bit, true),
        commands(&[0x33, 0x32, 0b0010_1000, 0x01, 0b0000_1100, 0b0000_0110])
    );
    let mut lcd = GpioHD44780Driver::new_8bit(false);
    lcd.init(false, true).unwrap();
    assert_eq!(
        bytes_on_bus(&lcd.take_steps(), GpioHD44780Bus::Bus8Bit, false),
        commands(&[0x38, 0x38, 0x38, 0b0011_0100, 0x01, 0b0000_1100, 0b0000_0110])
    );
    lcd.set_ddram_address(0x40).unwrap();
    lcd.send_data(b'x').unwrap();
    lcd.cursor_shift(false, CursorDirection::Left).unwrap();
    lcd.function_set(true, true, false).unwrap();
    lcd.set_cgram_address(1).unwrap();
    lcd.clear_display().unwrap();
    lcd.return_home().unwrap();
    assert_eq!(
        bytes_on_bus(&lcd.take_steps(), GpioHD44780Bus::Bus8Bit, false),
        [
            (0xC0, false),
            (b'x', true),
            (0b0001_0000, false),
            (0b0011_1000, false),
            (0b0100_0001, false),
            (0x01, false),
            (0x02, false)
        ]
    );
    assert_eq!(lcd.set_ddram_address(128), Err(GpioError::InvalidArgument));
    assert_eq!(lcd.set_cgram_address(64), Err(GpioError::InvalidArgument));
    assert_eq!(lcd.read_data(), Err(GpioError::NotSupported));
    assert!(lcd.take_steps().is_empty());
}

#[test]
fn ssd1803a_comes_up() {
    let mut lcd = GpioSSD1803ADriver::new_4bit(false, true);
    assert_eq!(lcd.init(0), Err(GpioError::InvalidArgument));
    assert_eq!(lcd.init(5), Err(GpioError::InvalidArgument));
    assert!(lcd.take_steps().is_empty());
    lcd.init(4).unwrap();
    assert_eq!(
        bytes_on_bus(&lcd.take_steps(), GpioHD44780Bus::Bus4Bit, true),
        commands(&[
            0x33, 0x32, 0x2A, 0x09, 0x06, 0x1F, 0x29, 0x1B, 0x6E, 0x55, 0x7A, 0x28, 0x0C, 0x01
        ])
    );
    assert_eq!(
        lcd.controller_state(),
        ControllerState {
            lines: 4,
            re: false,
            is: false,
            blink: false,
            invert: false,
            double_height: false
        }
    );
    let mut lcd = GpioSSD1803ADriver::new_8bit(true, false);
    lcd.init(1).unwrap();
    let steps = lcd.take_steps();
    assert_eq!(
        steps[..4],
        [
            LcdStep::SetReset(true),
            LcdStep::DelayMicros(10_000),
            LcdStep::SetReset(false),
            LcdStep::DelayMicros(10_000)
        ]
    );
    assert_eq!(
        bytes_on_bus(&steps[4..], GpioHD44780Bus::Bus8Bit, false),
        commands(&[
            0x38, 0x38, 0x38, 0x32, 0x08, 0x06, 0x1F, 0x31, 0x1B, 0x6E, 0x55, 0x7A, 0x30, 0x0C,
            0x01
        ])
    );
}

#[test]
fn function_sets_go_out_where_is_or_re_has_to_change() {
    let mut lcd = GpioSSD1803ADriver::new_4bit(false, false);
    lcd.init(4).unwrap();
    lcd.take_steps();
    // RE has to be set: the function set with RE goes first.
    lcd.power_down_mode(false).unwrap();
    // RE is set already.
    lcd.set_scroll_quantity(1).unwrap();
    // IS has to be set, which clears RE, as the command needs.
    lcd.contrast_set(5).unwrap();
    // IS has to be cleared and RE set: two function sets.
    lcd.double_height_bias_dot_shift(DoubleHeightMode::DoubleMiddle, BiasDivider::Bias1_6, false)
        .unwrap();
    // Neither matters.
    lcd.clear_display().unwrap();
    // RE has to be cleared.
    lcd.return_home().unwrap();
    assert_eq!(
        bytes_on_bus(&lcd.take_steps(), GpioHD44780Bus::Bus4Bit, false),
        commands(&[0x2A, 0x02, 0x81, 0x29, 0x75, 0x28, 0x2A, 0x17, 0x01, 0x28, 0x02])
    );
    assert!(!lcd.controller_state().re && !lcd.controller_state().is);
    // The settings that a function set carries are remembered.
    lcd.function_set_0(false, true, true, false).unwrap();
    lcd.function_set_1(false, true, true, true).unwrap();
    lcd.return_home().unwrap();
    lcd.power_down_mode(true).unwrap();
    assert_eq!(
        bytes_on_bus(&lcd.take_steps(), GpioHD44780Bus::Bus4Bit, false),
        commands(&[0x2C, 0x2F, 0x2C, 0x02, 0x2F, 0x03])
    );
    assert_eq!(
        lcd.controller_state(),
        ControllerState {
            lines: 4,
            re: true,
            is: false,
            blink: true,
            invert: true,
            double_height: true
        }
    );
    // A function set for an odd number of lines takes the display from four
    // lines to three.
    lcd.function_set_0(false, false, false, false).unwrap();
    assert_eq!(lcd.controller_state().lines, 3);
    lcd.take_steps();
}

#[test]
fn plans_without_a_driver() {
    let fresh = ControllerState::new();
    assert_eq!(
        fresh.plan_command(true, 0x81, None, Some(true)),
        Ok((ControllerState { re: true, ..fresh }, vec![0x32, 0x81]))
    );
    let broken = ControllerState { lines: 0, ..fresh };
    assert_eq!(broken.plan_command(true, 0x01, None, None), Ok((broken, vec![0x01])));
    assert_eq!(
        broken.plan_command(true, 0x81, None, Some(true)),
        Err(GpioError::InvalidArgument)
    );
    let (state, bytes) = fresh.plan_init(GpioHD44780Bus::Bus4Bit, 2);
    assert_eq!(state.lines, 2);
    assert_eq!(
        bytes,
        [0x33, 0x32, 0x2A, 0x08, 0x06, 0x1F, 0x29, 0x1B, 0x6E, 0x55, 0x7A, 0x28, 0x0C, 0x01]
    );
    let (state, bytes) = fresh.plan_init(GpioHD44780Bus::Bus4Bit, 3);
    assert_eq!(state.lines, 3);
    assert_eq!(bytes[2..4], [0x22, 0x09]);
    assert_eq!(bytes[11], 0x20);
}
