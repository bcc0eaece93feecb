use pilock::error::GpioError;
use pilock::pwm::ext::truncate_nanos;
use pilock::pwm::raw::{cycles_to_ns, RawPwmDriver};
use pilock::pwm::{PwmExtension, PwmPin, PwmPolarity};
use pilock::registers::RegisterOp;
use std::time::Duration;

#[test]
fn channel_lease() {
    assert!(matches!(RawPwmDriver::new(2), Err(GpioError::InvalidArgument)));
    let mut chip = RawPwmDriver::new(1).unwrap();
    assert_eq!(chip.window_address(), 0x3F20_C800);
    assert_eq!(chip.count(), Ok(2));
    let pin = chip.get_pin(0).unwrap();
    assert!(matches!(chip.get_pin(0), Err(GpioError::AlreadyInUse)));
    assert!(matches!(chip.get_pin(2), Err(GpioError::InvalidArgument)));
    let other = chip.get_pin(1).unwrap();
    assert_eq!(other.pin_index(), 1);
    assert_eq!(pin.chip_index(), 1);
    let mut first = RawPwmDriver::new(0).unwrap();
    let held = first.get_pin(0).unwrap();
    // A channel of chip 1 is not released on chip 0: it comes back.
    let pin = first.release_pin(pin).unwrap_err();
    assert!(matches!(first.get_pin(0), Err(GpioError::AlreadyInUse)));
    assert!(matches!(chip.get_pin(0), Err(GpioError::AlreadyInUse)));
    assert!(chip.release_pin(pin).is_ok());
    let again = chip.get_pin(0).unwrap();
    assert_eq!(again.pin_index(), 0);
    assert!(first.release_pin(held).is_ok());
}

#[test]
fn enabling_channel_1_keeps_channel_0() {
    for control in [0u32, 0x0000_0081, 0x0000_00FF, 0xFFFF_FFFF, 0x1234_5678] {
        let op = RawPwmDriver::init_channel(1).unwrap();
        assert_eq!(op, RegisterOp::Update { offset: 0, mask: 0xFF00, bits: 0x8100 });
        let after = op.apply(control);
        assert_eq!(after & 0xFF, control & 0xFF);
        assert_eq!(after & 0xFFFF_0000, control & 0xFFFF_0000);
        assert_eq!((after >> 8) & 0xFF, 0x81);
        assert_eq!(RawPwmDriver::get_enabled(1, after), Ok(true));
        assert_eq!(RawPwmDriver::get_enabled(0, after), Ok(control & 1 != 0));
        let stopped = RawPwmDriver::reset_channel(1).unwrap().apply(after);
        assert_eq!(stopped & 0xFF, control & 0xFF);
        assert_eq!((stopped >> 8) & 0xFF, 0);
        assert_eq!(RawPwmDriver::get_enabled(1, stopped), Ok(false));
    }
    assert_eq!(RawPwmDriver::init_channel(0).unwrap().apply(0xAB00), 0xAB81);
    assert_eq!(RawPwmDriver::init_channel(2), Err(GpioError::InvalidArgument));
    assert_eq!(RawPwmDriver::reset_channel(2), Err(GpioError::InvalidArgument));
    assert_eq!(RawPwmDriver::get_enabled(2, 0), Err(GpioError::InvalidArgument));
}

#[test]
fn period_and_duty_in_cycles_of_50_ns() {
    let mut chip = RawPwmDriver::new(0).unwrap();
    let mut pin = chip.get_pin(1).unwrap();
    assert_eq!(pin.period_offset(), 0x20);
    assert_eq!(pin.duty_offset(), 0x24);
    let op = pin.set_period_ns(1_000_049).unwrap();
    assert_eq!(op, RegisterOp::Update { offset: 0x20, mask: 0xFFFF_FFFF, bits: 20_000 });
    assert_eq!(op.apply(0xDEAD_BEEF), 20_000);
    assert!(op.reads());
    assert_eq!(pin.period_ns(20_000), Ok(1_000_000));
    let op = pin.set_duty_ns(99).unwrap();
    assert_eq!(op, RegisterOp::Update { offset: 0x24, mask: 0xFFFF_FFFF, bits: 1 });
    assert_eq!(pin.duty_ns(1), Ok(50));
    assert_eq!(RawPwmDriver::period_offset(0), Ok(0x10));
    assert_eq!(RawPwmDriver::duty_offset(0), Ok(0x14));
    assert_eq!(RawPwmDriver::period_offset(2), Err(GpioError::InvalidArgument));
    assert_eq!(RawPwmDriver::set_period(2, 1), Err(GpioError::InvalidArgument));
    assert_eq!(RawPwmDriver::set_duty(2, 1), Err(GpioError::InvalidArgument));
    assert_eq!(RawPwmDriver::get_period(2, 1), Err(GpioError::InvalidArgument));
    assert_eq!(RawPwmDriver::get_duty(0, 7), Ok(7));
    assert_eq!(cycles_to_ns(85_899_345), Some(4_294_967_250));
    assert_eq!(cycles_to_ns(85_899_346), None);
    assert_eq!(pin.enable(), Ok(RegisterOp::Update { offset: 0, mask: 0xFF00, bits: 0x8100 }));
    assert_eq!(pin.disable(), Ok(RegisterOp::Update { offset: 0, mask: 0xFF00, bits: 0 }));
    assert_eq!(pin.is_enabled(0x0100), Ok(true));
    assert_eq!(pin.is_enabled(0x0001), Ok(false));
}

#[test]
fn polarity_is_normal_and_cannot_be_set() {
    let mut chip = RawPwmDriver::new(0).unwrap();
    let mut pin = chip.get_pin(0).unwrap();
    assert_eq!(pin.polarity(), Ok(PwmPolarity::Normal));
    assert_eq!(pin.set_polarity(PwmPolarity::Inversed), Err(GpioError::NotSupported));
    assert_eq!(pin.set_polarity(PwmPolarity::Normal), Err(GpioError::NotSupported));
    assert_eq!(PwmPolarity::default(), PwmPolarity::Normal);
}

#[test]
fn polarity_names() {
    assert_eq!(PwmPolarity::parse("normal"), Ok(PwmPolarity::Normal));
    assert_eq!(PwmPolarity::parse("inversed"), Ok(PwmPolarity::Inversed));
    assert_eq!(
        PwmPolarity::parse("inverted"),
        Err(GpioError::Other("parsing PWM polarity failed".to_string()))
    );
    assert_eq!("inversed".parse(), Ok(PwmPolarity::Inversed));
    assert!("Normal".parse::<PwmPolarity>().is_err());
    assert_eq!(PwmPolarity::Normal.name(), "normal");
    assert_eq!(PwmPolarity::Inversed.name(), "inversed");
}

#[derive(Debug, Default)]
struct Channel {
    period: u32,
    duty: u32,
}

impl PwmPin for Channel {
    fn period_ns(&self) -> Result<u32, GpioError> {
        Ok(self.period)
    }
    fn set_period_ns(&mut self, period_ns: u32) -> Result<(), GpioError> {
        self.period = period_ns;
        Ok(())
    }
    fn duty_ns(&self) -> Result<u32, GpioError> {
        Ok(self.duty)
    }
    fn set_duty_ns(&mut self, duty_ns: u32) -> Result<(), GpioError> {
        self.duty = duty_ns;
        Ok(())
    }
    fn polarity(&self) -> Result<PwmPolarity, GpioError> {
        Ok(PwmPolarity::Normal)
    }
    fn set_polarity(&mut self, _polarity: PwmPolarity) -> Result<(), GpioError> {
        Err(GpioError::NotSupported)
    }
    fn is_enabled(&self) -> Result<bool, GpioError> {
        Ok(false)
    }
    fn enable(&mut self) -> Result<(), GpioError> {
        Ok(())
    }
    fn disable(&mut self) -> Result<(), GpioError> {
        Ok(())
    }
}

#[test]
fn durations_go_by_their_nanoseconds() {
    let mut channel = Channel::default();
    channel.set_period(Duration::from_millis(500)).unwrap();
    assert_eq!(channel.period, 500_000_000);
    assert_eq!(channel.period(), Ok(Duration::from_millis(500)));
    channel.set_duty(Duration::from_micros(3)).unwrap();
    assert_eq!(channel.duty, 3_000);
    assert_eq!(channel.duty(), Ok(Duration::from_nanos(3_000)));
    assert_eq!(truncate_nanos(u128::MAX), u32::MAX);
    assert_eq!(truncate_nanos(1 << 32), 0);
    assert_eq!(truncate_nanos(7), 7);
    // Five seconds do not fit 32 bits: the low 32 bits are kept.
    channel.set_period(Duration::from_secs(5)).unwrap();
    assert_eq!(channel.period, (5_000_000_000u64 % (1 << 32)) as u32);
}
