use pilock::config::{Config, Contrast};
use pilock::error::GpioError;
use pilock::gpio::{
    GpioActiveLevel, GpioBias, GpioBusInput, GpioBusOutput, GpioDriveMode, GpioInput, GpioOutput,
    GpioPin,
};
use pilock::soft::{SoftGpioBus, SoftGpioBusInput, SoftGpioBusOutput};
use pilock::utils::{
    cursor_address, display_bytes, CollectionExt, TryGetSingleError, WithinExt,
};
use std::cell::Cell;

#[test]
fn contrast_is_at_most_63() {
    assert_eq!(Contrast::new(0).value(), 0);
    assert_eq!(Contrast::new(63).value(), 63);
    assert_eq!(Contrast::try_new(63), Some(Contrast::new(63)));
    assert_eq!(Contrast::try_new(64), None);
    assert_eq!(Contrast::default().value(), 32);
}

#[test]
fn default_config() {
    let config = Config::default();
    assert_eq!(config.password, ['1', '2', '3', '4']);
    assert_eq!(config.unlock_seconds, 5);
    assert_eq!(config.contrast.value(), 32);
    assert!(config.is_valid());
    let broken = Config { unlock_seconds: 0, ..config };
    assert!(!broken.is_valid());
}

#[test]
fn the_single_item_of_a_collection() {
    let none: Vec<u8> = vec![];
    assert_eq!(none.try_get_single(), Err(TryGetSingleError::Empty));
    assert_eq!(vec![7u8].try_get_single(), Ok(&7));
    assert_eq!(vec![7u8, 8].try_get_single(), Err(TryGetSingleError::MoreThanOne));
    assert_eq!(TryGetSingleError::Empty.message(), "collection is empty");
    assert_eq!(TryGetSingleError::MoreThanOne.message(), "collection has more than one item");
}

#[test]
fn the_single_item_can_be_changed() {
    let mut one = vec![7u8];
    *one.try_get_single_mut().unwrap() = 9;
    assert_eq!(one, [9]);
    let mut none: Vec<u8> = vec![];
    assert_eq!(none.try_get_single_mut(), Err(TryGetSingleError::Empty));
    let mut two = vec![1u8, 2];
    assert_eq!(two.try_get_single_mut(), Err(TryGetSingleError::MoreThanOne));
}

#[test]
fn within_a_range() {
    assert!(0usize.within(0..4));
    assert!(3usize.within(0..4));
    assert!(!4usize.within(0..4));
    assert!(!1usize.within(2..4));
    assert!(!1usize.within(1..1));
}

#[test]
fn cursor_addresses() {
    assert_eq!(cursor_address(0, 0), Ok(0x00));
    assert_eq!(cursor_address(1, 7), Ok(0x27));
    assert_eq!(cursor_address(2, 0), Ok(0x40));
    assert_eq!(cursor_address(3, 19), Ok(0x73));
    assert_eq!(cursor_address(4, 0), Err(GpioError::InvalidArgument));
    assert_eq!(cursor_address(0, 20), Err(GpioError::InvalidArgument));
    assert_eq!(cursor_address(usize::MAX, usize::MAX), Err(GpioError::InvalidArgument));
}

#[test]
fn text_for_the_display() {
    assert_eq!(display_bytes("PiLock"), b"PiLock");
    assert_eq!(display_bytes(""), b"");
    assert_eq!(display_bytes("zażółć 7"), b"za???? 7");
    assert_eq!(display_bytes("\u{7f}\u{80}"), [0x7F, b'?']);
}

#[derive(Debug)]
struct Pin {
    level: Cell<bool>,
    active: GpioActiveLevel,
    bias: GpioBias,
    mode: GpioDriveMode,
    flexible: bool,
}

impl Pin {
    fn new(flexible: bool) -> Self {
        Pin {
            level: Cell::new(false),
            active: GpioActiveLevel::High,
            bias: GpioBias::NoBias,
            mode: GpioDriveMode::PushPull,
            flexible,
        }
    }
}

#[derive(Debug)]
struct View<'a>(&'a Pin);

impl GpioInput for View<'_> {
    fn read(&self) -> Result<bool, GpioError> {
        Ok(self.0.level.get())
    }
}

impl GpioOutput for View<'_> {
    fn write(&self, value: bool) -> Result<(), GpioError> {
        self.0.level.set(value);
        Ok(())
    }
}

impl GpioPin for Pin {
    type Input<'a> = View<'a>;
    type Output<'a> = View<'a>;

    fn as_input(&mut self) -> Result<View<'_>, GpioError> {
        Ok(View(self))
    }
    fn as_output(&mut self) -> Result<View<'_>, GpioError> {
        Ok(View(self))
    }
    fn supports_active_level(&self) -> bool {
        self.flexible
    }
    fn active_level(&self) -> GpioActiveLevel {
        self.active
    }
    fn set_active_level(&mut self, level: GpioActiveLevel) -> Result<(), GpioError> {
        self.active = level;
        Ok(())
    }
    fn supports_bias(&self) -> bool {
        self.flexible
    }
    fn bias(&self) -> GpioBias {
        self.bias
    }
    fn set_bias(&mut self, bias: GpioBias) -> Result<(), GpioError> {
        self.bias = bias;
        Ok(())
    }
    fn supports_drive_mode(&self) -> bool {
        self.flexible
    }
    fn drive_mode(&self) -> GpioDriveMode {
        self.mode
    }
    fn set_drive_mode(&mut self, mode: GpioDriveMode) -> Result<(), GpioError> {
        self.mode = mode;
        Ok(())
    }
}

/// A pin that keeps the defaults of the interface.
#[derive(Debug)]
struct Plain;

impl GpioPin for Plain {
    type Input<'a> = View<'a>;
    type Output<'a> = View<'a>;

    fn as_input(&mut self) -> Result<View<'_>, GpioError> {
        Err(GpioError::NotSupported)
    }
    fn as_output(&mut self) -> Result<View<'_>, GpioError> {
        Err(GpioError::NotSupported)
    }
}

#[test]
fn a_pin_supports_nothing_by_default() {
    let mut pin = Plain;
    assert!(!pin.supports_active_level() && !pin.supports_bias() && !pin.supports_drive_mode());
    assert_eq!(pin.active_level(), GpioActiveLevel::High);
    assert_eq!(pin.bias(), GpioBias::NoBias);
    assert_eq!(pin.drive_mode(), GpioDriveMode::PushPull);
    assert_eq!(pin.set_active_level(GpioActiveLevel::Low), Err(GpioError::NotSupported));
    assert_eq!(pin.set_bias(GpioBias::PullUp), Err(GpioError::NotSupported));
    assert_eq!(pin.set_drive_mode(GpioDriveMode::OpenDrain), Err(GpioError::NotSupported));
}

#[test]
fn pins_are_built_with_their_policies() {
    let pin = Pin::new(true)
        .with_active_level(GpioActiveLevel::Low)
        .and_then(|pin| pin.with_bias(GpioBias::PullUp))
        .unwrap();
    assert_eq!(pin.active, GpioActiveLevel::Low);
    assert_eq!(pin.bias, GpioBias::PullUp);
    assert!(matches!(Plain.with_bias(GpioBias::PullUp), Err(GpioError::NotSupported)));
    assert!(matches!(
        Plain.with_active_level(GpioActiveLevel::Low),
        Err(GpioError::NotSupported)
    ));
}

#[test]
fn a_bus_of_single_pins() {
    let mut a = Pin::new(true);
    let mut b = Pin::new(true);
    {
        let mut bus = SoftGpioBus::new([&mut a, &mut b]);
        assert!(bus.supports_active_level() && bus.supports_bias() && bus.supports_drive_mode());
        assert_eq!(bus.set_active_level(GpioActiveLevel::Low), Ok(()));
        assert_eq!(bus.set_bias(GpioBias::PullDown), Ok(()));
        assert_eq!(bus.set_drive_mode(GpioDriveMode::OpenSource), Ok(()));
        assert_eq!(bus.active_level(), GpioActiveLevel::Low);
        assert_eq!(bus.bias(), GpioBias::PullDown);
        assert_eq!(bus.drive_mode(), GpioDriveMode::OpenSource);
    }
    assert_eq!(b.active, GpioActiveLevel::Low);
    assert_eq!(b.bias, GpioBias::PullDown);
    assert_eq!(b.mode, GpioDriveMode::OpenSource);
    let mut c = Pin::new(false);
    let mut bus = SoftGpioBus::new([&mut a, &mut c]);
    assert!(!bus.supports_bias());
    assert_eq!(bus.set_bias(GpioBias::PullUp), Err(GpioError::NotSupported));
    assert_eq!(bus.set_active_level(GpioActiveLevel::High), Err(GpioError::NotSupported));
    assert_eq!(bus.set_drive_mode(GpioDriveMode::PushPull), Err(GpioError::NotSupported));
    assert_eq!(bus.bias(), GpioBias::PullDown);
}

#[test]
fn buses_of_views() {
    let a = Pin::new(true);
    let b = Pin::new(true);
    let (va, vb) = (View(&a), View(&b));
    let output = SoftGpioBusOutput::new([&va, &vb]);
    assert_eq!(output.write(&[true, false]), Ok(()));
    assert!(a.level.get() && !b.level.get());
    let input = SoftGpioBusInput::new([&vb, &va]);
    assert_eq!(input.read(), Ok([false, true]));
}
