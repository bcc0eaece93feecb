use pilock::error::GpioError;
use pilock::raw::RawGpioDriver;

#[test]
fn second_lease_of_a_pin_is_refused_until_release() {
    let mut driver = RawGpioDriver::new();
    for index in [0usize, 17, 57] {
        let (pin, ops) = driver.get_pin(index).expect("free pin");
        assert_eq!(pin.pin_index(), index);
        assert_eq!(ops.len(), 3);
        assert!(matches!(driver.get_pin(index), Err(GpioError::AlreadyInUse)));
        assert_eq!(driver.release_pin(pin), RawGpioDriver::raw_reset(index).unwrap());
        let (again, _) = driver.get_pin(index).expect("released pin");
        assert_eq!(driver.release_pin(again).len(), 3);
    }
}

#[test]
fn pin_out_of_range_is_invalid() {
    let mut driver = RawGpioDriver::new();
    assert!(matches!(driver.get_pin(58), Err(GpioError::InvalidArgument)));
    assert!(matches!(driver.get_pin(usize::MAX), Err(GpioError::InvalidArgument)));
    assert_eq!(driver.count(), Ok(58));
}

#[test]
fn bus_lease_is_all_or_nothing() {
    let mut driver = RawGpioDriver::new();
    let (held, _) = driver.get_pin(20).expect("free pin");
    assert!(matches!(driver.get_pin_bus([26, 16, 20, 21]), Err(GpioError::AlreadyInUse)));
    for index in [26usize, 16, 21] {
        assert!(!driver.is_leased(index));
    }
    assert!(driver.is_leased(20));
    assert!(matches!(driver.get_pin_bus([26, 16, 58, 21]), Err(GpioError::InvalidArgument)));
    assert!(!driver.is_leased(26));
    driver.release_pin(held);
    assert!(!driver.is_leased(20));
    let (bus, ops) = driver.get_pin_bus([26, 16, 20, 21]).expect("free bus");
    assert_eq!(bus.pin_indices(), [26, 16, 20, 21]);
    assert_eq!(ops.len(), 12);
    for index in [26usize, 16, 20, 21] {
        assert!(driver.is_leased(index));
        assert!(matches!(driver.get_pin(index), Err(GpioError::AlreadyInUse)));
    }
    let ops = driver.release_bus(bus);
    assert_eq!(ops.len(), 4);
    for index in [26usize, 16, 20, 21] {
        assert!(!driver.is_leased(index));
    }
}
