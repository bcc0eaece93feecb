use pilock::error::GpioError;
use pilock::gpio::{
    byte_to_lines, lines_to_byte, lines_to_nibble, nibble_to_lines, read_byte, read_nibble,
    write_byte, write_nibble, GpioActiveLevel, GpioBias, GpioBusInput, GpioBusOutput,
    GpioDriveMode,
};
use pilock::raw::{RawGpioBus, RawGpioDriver};
use pilock::registers::RegisterOp;
use std::cell::RefCell;

/// A pin block in memory: the set and clear registers act on the levels of
/// the pins that are outputs, every other register stores what is written.
struct Block {
    words: Vec<u32>,
}

impl Block {
    fn new() -> Self {
        Block { words: vec![0; 1024] }
    }

    fn function(&self, pin: usize) -> u32 {
        (self.words[pin / 10] >> ((pin % 10) * 3)) & 0b111
    }

    fn level(&self, pin: usize) -> bool {
        (self.words[0x34 / 4 + pin / 32] >> (pin % 32)) & 1 != 0
    }

    fn pull_external(&mut self, pin: usize, high: bool) {
        let word = &mut self.words[0x34 / 4 + pin / 32];
        if high {
            *word |= 1 << (pin % 32);
        } else {
            *word &= !(1 << (pin % 32));
        }
    }

    fn perform(&mut self, op: &RegisterOp) {
        let offset = op.offset();
        assert_eq!(offset % 4, 0);
        let index = offset / 4;
        let stored = op.apply(self.words[index]);
        match offset {
            0x1C | 0x20 | 0x28 | 0x2C => {
                assert!(!op.reads());
                let bank = if offset == 0x1C || offset == 0x28 { 0 } else { 1 };
                for bit in 0..32 {
                    let pin = bank * 32 + bit;
                    if stored & (1 << bit) != 0 && pin < 58 && self.function(pin) == 1 {
                        self.pull_external(pin, offset < 0x28);
                    }
                }
            }
            _ => self.words[index] = stored,
        }
    }

    fn perform_all(&mut self, ops: &[RegisterOp]) {
        for op in ops {
            self.perform(op);
        }
    }
}

#[test]
fn active_level_maps_both_ways() {
    assert!(GpioActiveLevel::High.get_state(true));
    assert!(!GpioActiveLevel::High.get_state(false));
    assert!(!GpioActiveLevel::Low.get_state(true));
    assert!(GpioActiveLevel::Low.get_state(false));
    assert_eq!(GpioActiveLevel::default(), GpioActiveLevel::High);
    assert_eq!(GpioBias::default(), GpioBias::NoBias);
    assert_eq!(GpioDriveMode::default(), GpioDriveMode::PushPull);
}

#[test]
fn drive_mode_floats_the_level_it_cannot_drive() {
    assert_eq!(GpioDriveMode::PushPull.get_state(true), Some(true));
    assert_eq!(GpioDriveMode::PushPull.get_state(false), Some(false));
    assert_eq!(GpioDriveMode::OpenDrain.get_state(true), None);
    assert_eq!(GpioDriveMode::OpenDrain.get_state(false), Some(false));
    assert_eq!(GpioDriveMode::OpenSource.get_state(true), Some(true));
    assert_eq!(GpioDriveMode::OpenSource.get_state(false), None);
}

#[test]
fn lines_carry_bit_i_on_line_i() {
    assert_eq!(byte_to_lines(0b1000_0001), [true, false, false, false, false, false, false, true]);
    assert_eq!(nibble_to_lines(0b1010), Ok([false, true, false, true]));
    assert_eq!(lines_to_nibble(&[false, true, false, true]), 0b1010);
    assert_eq!(lines_to_byte(&[true, true, false, false, false, false, false, false]), 3);
    for value in 0u8..=255 {
        assert_eq!(lines_to_byte(&byte_to_lines(value)), value);
    }
    for value in 0u8..16 {
        assert_eq!(lines_to_nibble(&nibble_to_lines(value).unwrap()), value);
    }
    assert_eq!(nibble_to_lines(16), Err(GpioError::InvalidArgument));
    assert_eq!(nibble_to_lines(255), Err(GpioError::InvalidArgument));
}

#[test]
fn function_select_encoding() {
    assert_eq!(
        RawGpioDriver::raw_set_pin_function(18, 0b010),
        Ok(RegisterOp::Update { offset: 4, mask: 0b111 << 24, bits: 0b010 << 24 })
    );
    assert_eq!(
        RawGpioDriver::raw_set_pin_function(57, 1),
        Ok(RegisterOp::Update { offset: 20, mask: 0b111 << 21, bits: 1 << 21 })
    );
    assert_eq!(RawGpioDriver::raw_set_pin_function(58, 0), Err(GpioError::InvalidArgument));
    assert_eq!(RawGpioDriver::raw_set_pin_function(0, 8), Err(GpioError::InvalidArgument));
    assert_eq!(RawGpioDriver::pin_function_offset(29), Ok(8));
    assert_eq!(RawGpioDriver::raw_get_pin_function(18, 0b010 << 24), Ok(0b010));
    assert_eq!(RawGpioDriver::raw_get_pin_function(58, 0), Err(GpioError::InvalidArgument));
    let mut block = Block::new();
    block.words[1] = 0xFFFF_FFFF;
    block.perform(&RawGpioDriver::raw_set_pin_function(18, 0b010).unwrap());
    assert_eq!(block.words[1], 0xFFFF_FFFF & !(0b111 << 24) | (0b010 << 24));
    assert_eq!(block.function(18), 0b010);
    assert_eq!(block.function(17), 0b111);
    assert_eq!(block.function(19), 0b111);
}

#[test]
fn output_level_and_bias_encoding() {
    assert_eq!(
        RawGpioDriver::raw_set_pin_output(5, true),
        Ok(RegisterOp::Write { offset: 0x1C, value: 1 << 5 })
    );
    assert_eq!(
        RawGpioDriver::raw_set_pin_output(40, true),
        Ok(RegisterOp::Write { offset: 0x20, value: 1 << 8 })
    );
    assert_eq!(
        RawGpioDriver::raw_set_pin_output(40, false),
        Ok(RegisterOp::Write { offset: 0x2C, value: 1 << 8 })
    );
    assert_eq!(RawGpioDriver::raw_set_pin_output(58, false), Err(GpioError::InvalidArgument));
    assert_eq!(RawGpioDriver::pin_level_offset(31), Ok(0x34));
    assert_eq!(RawGpioDriver::pin_level_offset(32), Ok(0x38));
    assert_eq!(RawGpioDriver::raw_get_pin_level(33, 0b10), Ok(true));
    assert_eq!(RawGpioDriver::raw_get_pin_level(33, 0b01), Ok(false));
    assert_eq!(RawGpioDriver::raw_get_pin_level(58, 0), Err(GpioError::InvalidArgument));
    assert_eq!(
        RawGpioDriver::raw_set_bias(17, GpioBias::PullDown),
        Ok(RegisterOp::Update { offset: 0xE8, mask: 0b11 << 2, bits: 0b10 << 2 })
    );
    assert_eq!(RawGpioDriver::raw_set_bias(58, GpioBias::PullUp), Err(GpioError::InvalidArgument));
    assert_eq!(RawGpioDriver::pin_bias_offset(17), Ok(0xE8));
    assert_eq!(RawGpioDriver::raw_get_bias(17, 0b01 << 2), Ok(GpioBias::PullUp));
    assert_eq!(RawGpioDriver::raw_get_bias(17, 0b00), Ok(GpioBias::NoBias));
    assert_eq!(RawGpioDriver::raw_get_bias(17, 0b11 << 2), Err(GpioError::NotSupported));
    assert_eq!(RawGpioDriver::raw_get_bias(58, 0), Err(GpioError::InvalidArgument));
}

#[test]
fn reset_is_input_no_bias_low() {
    assert_eq!(
        RawGpioDriver::raw_reset(12),
        Ok(vec![
            RegisterOp::Update { offset: 4, mask: 0b111 << 6, bits: 0 },
            RegisterOp::Update { offset: 0xE4, mask: 0b11 << 24, bits: 0 },
            RegisterOp::Write { offset: 0x28, value: 1 << 12 },
        ])
    );
    assert_eq!(RawGpioDriver::raw_reset(58), Err(GpioError::InvalidArgument));
}

#[test]
fn open_drain_switches_to_input_for_high() {
    assert_eq!(
        RawGpioDriver::drive_pin(3, true, GpioDriveMode::OpenDrain),
        Ok(vec![RegisterOp::Update { offset: 0, mask: 0b111 << 9, bits: 0 }])
    );
    assert_eq!(
        RawGpioDriver::drive_pin(3, false, GpioDriveMode::OpenDrain),
        Ok(vec![
            RegisterOp::Update { offset: 0, mask: 0b111 << 9, bits: 1 << 9 },
            RegisterOp::Write { offset: 0x28, value: 1 << 3 },
        ])
    );
    assert_eq!(
        RawGpioDriver::drive_pin(3, false, GpioDriveMode::OpenSource),
        Ok(vec![RegisterOp::Update { offset: 0, mask: 0b111 << 9, bits: 0 }])
    );
    assert_eq!(
        RawGpioDriver::drive_pin(3, true, GpioDriveMode::PushPull),
        Ok(vec![
            RegisterOp::Update { offset: 0, mask: 0b111 << 9, bits: 1 << 9 },
            RegisterOp::Write { offset: 0x1C, value: 1 << 3 },
        ])
    );
    assert_eq!(
        RawGpioDriver::drive_pin(58, true, GpioDriveMode::PushPull),
        Err(GpioError::InvalidArgument)
    );
}

#[test]
fn pin_views_apply_the_policies() {
    let mut driver = RawGpioDriver::new();
    let mut block = Block::new();
    let (mut pin, ops) = driver.get_pin(25).unwrap();
    block.perform_all(&ops);
    assert!(pin.supports_active_level() && pin.supports_bias() && pin.supports_drive_mode());
    assert_eq!(pin.active_level(), GpioActiveLevel::High);
    assert_eq!(pin.drive_mode(), GpioDriveMode::PushPull);
    pin.set_active_level(GpioActiveLevel::Low).unwrap();
    let op = pin.set_bias(GpioBias::PullUp).unwrap();
    block.perform(&op);
    assert_eq!(pin.bias_offset(), 0xE8);
    assert_eq!(pin.bias(block.words[0xE8 / 4]), GpioBias::PullUp);
    let (input, op) = pin.as_input().unwrap();
    block.perform(&op);
    assert_eq!(block.function(25), 0);
    assert_eq!(input.level_offset(), 0x34);
    block.pull_external(25, false);
    assert_eq!(input.read(block.words[0x34 / 4]), Ok(true));
    block.pull_external(25, true);
    assert_eq!(input.read(block.words[0x34 / 4]), Ok(false));
    pin.set_drive_mode(GpioDriveMode::OpenDrain).unwrap();
    let (output, op) = pin.as_output().unwrap();
    block.perform(&op);
    assert_eq!(block.function(25), 1);
    // Active low, open drain: logical true is a driven low line.
    block.perform_all(&output.write(true).unwrap());
    assert_eq!(block.function(25), 1);
    assert!(!block.level(25));
    // Logical false is a high line, which open drain leaves floating.
    block.perform_all(&output.write(false).unwrap());
    assert_eq!(block.function(25), 0);
    block.perform_all(&driver.release_pin(pin));
    assert!(!driver.is_leased(25));
    assert_eq!(block.function(25), 0);
    assert_eq!(block.words[0xE8 / 4] & (0b11 << 18), 0);
}

fn output_bus(block: &mut Block, driver: &mut RawGpioDriver) -> RawGpioBus<4> {
    let (bus, ops) = driver.get_pin_bus([26, 16, 20, 21]).unwrap();
    block.perform_all(&ops);
    bus
}

#[test]
fn bus_write_nibble_reads_back_through_input_view() {
    let mut driver = RawGpioDriver::new();
    let mut block = Block::new();
    let mut bus = output_bus(&mut block, &mut driver);
    assert_eq!(bus.active_level(), GpioActiveLevel::High);
    let (output, ops) = bus.as_output().unwrap();
    block.perform_all(&ops);
    let lines = nibble_to_lines(0b1010).unwrap();
    block.perform_all(&output.write(&lines).unwrap());
    assert!(!block.level(26) && block.level(16) && !block.level(20) && block.level(21));
    let (input, _) = bus.as_input().unwrap();
    let offsets = input.level_offsets();
    assert_eq!(offsets, [0x34, 0x34, 0x34, 0x34]);
    let words = [
        block.words[offsets[0] / 4],
        block.words[offsets[1] / 4],
        block.words[offsets[2] / 4],
        block.words[offsets[3] / 4],
    ];
    let read = input.read(&words).unwrap();
    assert_eq!(lines_to_nibble(&read), 0b1010);
    assert_eq!(nibble_to_lines(0b10000), Err(GpioError::InvalidArgument));
    let ops = driver.release_bus(bus);
    block.perform_all(&ops);
    for pin in [26, 16, 20, 21] {
        assert_eq!(block.function(pin), 0);
        assert!(!driver.is_leased(pin));
    }
}

#[test]
fn bus_policies() {
    let mut driver = RawGpioDriver::new();
    let mut block = Block::new();
    let (mut bus, ops) = driver.get_pin_bus([5, 6, 8, 7, 40, 41, 42, 43]).unwrap();
    block.perform_all(&ops);
    assert!(bus.supports_active_level() && bus.supports_bias() && bus.supports_drive_mode());
    bus.set_active_level(GpioActiveLevel::Low).unwrap();
    let ops = bus.set_bias(GpioBias::PullUp).unwrap();
    assert_eq!(ops.len(), 8);
    assert_eq!(ops[4], RegisterOp::Update { offset: 0xEC, mask: 0b11 << 16, bits: 0b01 << 16 });
    assert_eq!(bus.bias_offset(), 0xE4);
    assert_eq!(bus.bias(0b01 << 10), GpioBias::PullUp);
    assert_eq!(bus.bias(0b11 << 10), GpioBias::NoBias);
    assert_eq!(bus.bias(0b01 << 12), GpioBias::NoBias);
    let ops = bus.set_drive_mode(GpioDriveMode::OpenDrain).unwrap();
    assert_eq!(ops.len(), 16);
    assert_eq!(bus.drive_mode(), GpioDriveMode::OpenDrain);
    let (output, ops) = bus.as_output().unwrap();
    assert_eq!(ops.len(), 8);
    // Active low and open drain: the bits that are set are driven low, the
    // others float.
    let ops = output.write(&byte_to_lines(0b0000_0001)).unwrap();
    assert_eq!(ops.len(), 2 + 7);
    assert_eq!(ops[0], RegisterOp::Update { offset: 0, mask: 0b111 << 15, bits: 1 << 15 });
    assert_eq!(ops[1], RegisterOp::Write { offset: 0x28, value: 1 << 5 });
    assert_eq!(ops[2], RegisterOp::Update { offset: 0, mask: 0b111 << 18, bits: 0 });
    let (input, _) = bus.as_input().unwrap();
    assert_eq!(input.level_offsets(), [0x34, 0x34, 0x34, 0x34, 0x38, 0x38, 0x38, 0x38]);
    let read = input.read(&[0, 1 << 6, 0, 0, 1 << 8, 0, 0, 0]).unwrap();
    assert_eq!(read, [true, false, true, true, false, true, true, true]);
}

#[derive(Debug)]
struct Wires<const N: usize> {
    lines: RefCell<[bool; N]>,
    fail: bool,
}

impl<const N: usize> GpioBusInput<N> for Wires<N> {
    fn read(&self) -> Result<[bool; N], GpioError> {
        if self.fail {
            Err(GpioError::Other("broken".to_string()))
        } else {
            Ok(*self.lines.borrow())
        }
    }
}

impl<const N: usize> GpioBusOutput<N> for Wires<N> {
    fn write(&self, values: &[bool; N]) -> Result<(), GpioError> {
        if self.fail {
            Err(GpioError::NotSupported)
        } else {
            *self.lines.borrow_mut() = *values;
            Ok(())
        }
    }
}

#[test]
fn byte_and_nibble_helpers_on_a_bus() {
    let byte = Wires::<8> { lines: RefCell::new([false; 8]), fail: false };
    assert_eq!(write_byte(&byte, 0xA5), Ok(()));
    assert_eq!(
        *byte.lines.borrow(),
        [true, false, true, false, false, true, false, true]
    );
    assert_eq!(read_byte(&byte), Ok(0xA5));
    let nibble = Wires::<4> { lines: RefCell::new([false; 4]), fail: false };
    assert_eq!(write_nibble(&nibble, 0b1010), Ok(()));
    assert_eq!(read_nibble(&nibble), Ok(0b1010));
    assert_eq!(write_nibble(&nibble, 0b10000), Err(GpioError::InvalidArgument));
    assert_eq!(read_nibble(&nibble), Ok(0b1010));
    let broken = Wires::<4> { lines: RefCell::new([false; 4]), fail: true };
    assert_eq!(write_nibble(&broken, 1), Err(GpioError::NotSupported));
    assert_eq!(read_nibble(&broken), Err(GpioError::Other("broken".to_string())));
}

#[test]
fn error_messages() {
    assert_eq!(GpioError::AlreadyInUse.message(), "pin already in use");
    assert_eq!(GpioError::InvalidArgument.message(), "invalid argument");
    assert_eq!(
        GpioError::NotSupported.message(),
        "the feature is not supported on this backend"
    );
    assert_eq!(GpioError::Other("boom".to_string()).message(), "error: boom");
    let io = GpioError::from_io_kind(std::io::ErrorKind::NotFound);
    assert_eq!(io, GpioError::Io(std::io::ErrorKind::NotFound));
    assert_eq!(io.message(), format!("IO error: {}", std::io::ErrorKind::NotFound));
}
