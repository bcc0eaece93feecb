use pilock::clock::raw::RawClockDriver;
use pilock::clock::{ClockSource, MashMode};
use pilock::error::GpioError;
use pilock::registers::RegisterOp;

#[test]
fn mash_mode_codes() {
    assert_eq!(MashMode::from_index(0), Ok(MashMode::NoMash));
    assert_eq!(MashMode::from_index(1), Ok(MashMode::Mash1));
    assert_eq!(MashMode::from_index(2), Ok(MashMode::Mash2));
    assert_eq!(MashMode::from_index(3), Ok(MashMode::Mash3));
    assert_eq!(MashMode::from_index(4), Err(GpioError::InvalidArgument));
    assert_eq!(MashMode::from_index(255), Err(GpioError::InvalidArgument));
    for index in 0u8..4 {
        assert_eq!(MashMode::from_index(index).unwrap().to_index(), index);
    }
}

#[test]
fn clock_source_codes() {
    let sources = [
        ClockSource::Ground,
        ClockSource::Oscillator,
        ClockSource::TestDebug0,
        ClockSource::TestDebug1,
        ClockSource::PllA,
        ClockSource::PllC,
        ClockSource::PllD,
        ClockSource::HdmiAuxiliary,
    ];
    for (index, source) in sources.iter().enumerate() {
        assert_eq!(source.to_index(), index as u32);
        assert_eq!(ClockSource::from_index(index as u32), Ok(*source));
    }
    assert_eq!(ClockSource::from_index(8), Ok(ClockSource::Ground));
    assert_eq!(ClockSource::from_index(15), Ok(ClockSource::Ground));
}

#[test]
fn divisor_round_trip() {
    for divi in [1u16, 2, 50, 4095] {
        for divf in [0u16, 1, 512, 1023] {
            let divisor = RawClockDriver::divi_divf_to_divisor(divi, divf).unwrap();
            assert_eq!(divisor, divi as u32 * 1024 + divf as u32);
            assert_eq!(RawClockDriver::divisor_to_divi_divf(divisor), Ok((divi, divf)));
        }
    }
    assert_eq!(RawClockDriver::divisor_to_divi_divf(0), Err(GpioError::InvalidArgument));
    assert_eq!(RawClockDriver::divisor_to_divi_divf(1023), Err(GpioError::InvalidArgument));
    assert_eq!(RawClockDriver::divisor_to_divi_divf(1024), Ok((1, 0)));
    assert_eq!(RawClockDriver::divisor_to_divi_divf(50 * 1024), Ok((50, 0)));
    assert_eq!(RawClockDriver::divisor_to_divi_divf(4096 * 1024 - 1), Ok((4095, 1023)));
    assert_eq!(RawClockDriver::divisor_to_divi_divf(4096 * 1024), Err(GpioError::InvalidArgument));
    assert_eq!(RawClockDriver::divisor_to_divi_divf(u32::MAX), Err(GpioError::InvalidArgument));
}

#[test]
fn a_fraction_of_a_whole_or_more_is_not_recovered() {
    let divisor = RawClockDriver::divi_divf_to_divisor(1, 1024).unwrap();
    assert_eq!(divisor, 2048);
    assert_eq!(RawClockDriver::divisor_to_divi_divf(divisor), Ok((2, 0)));
}

#[test]
fn parts_out_of_range() {
    assert_eq!(RawClockDriver::divi_divf_to_divisor(0, 0), Err(GpioError::InvalidArgument));
    assert_eq!(RawClockDriver::divi_divf_to_divisor(4096, 0), Err(GpioError::InvalidArgument));
    assert_eq!(RawClockDriver::divi_divf_to_divisor(1, 4096), Err(GpioError::InvalidArgument));
    assert_eq!(RawClockDriver::divi_divf_to_divisor(4095, 4095), Ok(4095 * 1024 + 4095));
}

#[test]
fn channels_and_windows() {
    assert_eq!(RawClockDriver::get_gp0().unwrap().offset(), 0x70);
    assert_eq!(RawClockDriver::get_gp1().unwrap().offset(), 0x78);
    assert_eq!(RawClockDriver::get_gp2().unwrap().offset(), 0x80);
    assert_eq!(RawClockDriver::get_pcm().unwrap().offset(), 0x98);
    let (pwm, op) = RawClockDriver::get_pwm().unwrap();
    assert_eq!(pwm.offset(), 0xA0);
    assert_eq!(pwm.window_address(), 0x3F10_10A0);
    assert_eq!(op, RegisterOp::Update { offset: 0, mask: 1 << 4, bits: 0x5A00_0000 });
}

#[test]
fn every_write_carries_the_password() {
    let (mut clock, _) = RawClockDriver::get_pwm().unwrap();
    let control = 0x0000_0296;
    let op = clock.set_enabled(true).unwrap();
    assert_eq!(op.offset(), 0);
    let written = op.apply(control);
    assert_eq!(written, 0x5A00_0296);
    assert_eq!(clock.enabled(written), Ok(true));
    let written = clock.set_enabled(false).unwrap().apply(written);
    assert_eq!(written, 0x5A00_0286);
    assert_eq!(clock.enabled(written), Ok(false));
    assert_eq!(clock.get_busy(written), Ok(true));
    assert_eq!(clock.get_busy(0), Ok(false));
    let written = clock.set_mash_mode(MashMode::Mash3).unwrap().apply(0x10);
    assert_eq!(written, 0x5A00_0610);
    assert_eq!(clock.mash_mode(written), Ok(MashMode::Mash3));
    assert_eq!(clock.set_mash_mode(MashMode::NoMash).unwrap().apply(written), 0x5A00_0010);
    let written = clock.set_source(ClockSource::PllC).unwrap().apply(0x0000_061F);
    assert_eq!(written, 0x5A00_0615);
    assert_eq!(clock.source(written), Ok(ClockSource::PllC));
    assert_eq!(clock.source(0xF), Ok(ClockSource::Ground));
    let op = clock.set_divisor(50 * 1024 + 512).unwrap();
    assert_eq!(op.offset(), 4);
    let written = op.apply(0x00FF_FFFF);
    assert_eq!(written, 0x5A00_0000 | (50 << 12) | 512);
    assert_eq!(clock.divisor(written), Ok(50 * 1024 + 512));
    assert_eq!(clock.divisor(0x0000_0FFF), Err(GpioError::InvalidArgument));
    assert_eq!(clock.set_divisor(0), Err(GpioError::InvalidArgument));
    assert_eq!(clock.set_divisor(512), Err(GpioError::InvalidArgument));
}
