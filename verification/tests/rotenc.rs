use pilock::error::GpioError;
use pilock::gpio::GpioInput;
use pilock::rotenc::{RotEnc, RotEncRotation, RotEncState};
use std::cell::Cell;

const LL: (bool, bool) = (false, false);
const HL: (bool, bool) = (true, false);
const HH: (bool, bool) = (true, true);
const LH: (bool, bool) = (false, true);

#[test]
fn two_clockwise_steps_are_one_rotation() {
    let mut decoder = RotEncState::new(LL);
    assert_eq!(decoder.poll(LL), None);
    assert_eq!(decoder.poll(HL), None);
    assert_eq!(decoder.tick_count(), 1);
    assert_eq!(decoder.poll(HH), Some(RotEncRotation::Clockwise));
    assert_eq!(decoder.tick_count(), 0);
    assert_eq!(decoder.state(), HH);
}

#[test]
fn a_full_cycle_is_two_rotations() {
    let mut decoder = RotEncState::new(LL);
    let events: Vec<_> = [HL, HH, LH, LL].iter().map(|s| decoder.poll(*s)).collect();
    assert_eq!(
        events,
        [None, Some(RotEncRotation::Clockwise), None, Some(RotEncRotation::Clockwise)]
    );
    let events: Vec<_> = [LH, HH, HL, LL].iter().map(|s| decoder.poll(*s)).collect();
    assert_eq!(
        events,
        [
            None,
            Some(RotEncRotation::CounterClockwise),
            None,
            Some(RotEncRotation::CounterClockwise)
        ]
    );
}

#[test]
fn a_stale_step_is_dropped() {
    let mut decoder = RotEncState::new(LL);
    assert_eq!(decoder.poll(HL), None);
    for _ in 0..200 {
        assert_eq!(decoder.poll(HL), None);
    }
    assert_eq!(decoder.tick_count(), 1);
    assert_eq!(decoder.poll(LL), None);
    assert_eq!(decoder.tick_count(), 0);
    // A clockwise step after the timeout does not complete the stale run
    // either.
    let mut decoder = RotEncState::new(LL);
    assert_eq!(decoder.poll(HL), None);
    for _ in 0..199 {
        assert_eq!(decoder.poll(HL), None);
    }
    assert_eq!(decoder.poll(HH), None);
    assert_eq!(decoder.tick_count(), 0);
    // One poll earlier the run is still open.
    let mut decoder = RotEncState::new(LL);
    assert_eq!(decoder.poll(HL), None);
    for _ in 0..198 {
        assert_eq!(decoder.poll(HL), None);
    }
    assert_eq!(decoder.poll(HH), Some(RotEncRotation::Clockwise));
}

#[test]
fn a_step_back_undoes_a_step() {
    let mut decoder = RotEncState::new(LL);
    assert_eq!(decoder.poll(HL), None);
    assert_eq!(decoder.poll(LL), None);
    assert_eq!(decoder.tick_count(), 0);
    assert_eq!(decoder.poll(LH), None);
    assert_eq!(decoder.tick_count(), -1);
    assert_eq!(decoder.poll(HH), Some(RotEncRotation::CounterClockwise));
}

#[test]
fn a_skipped_state_is_not_counted() {
    let mut decoder = RotEncState::new(LL);
    assert_eq!(decoder.poll(HH), None);
    assert_eq!(decoder.tick_count(), 0);
    assert_eq!(decoder.state(), HH);
    assert_eq!(decoder.poll(LL), None);
    assert_eq!(decoder.poll(HL), None);
    assert_eq!(decoder.poll(LH), None);
    assert_eq!(decoder.tick_count(), 1);
}

#[test]
fn settings() {
    assert!(matches!(
        RotEncState::with_settings(LL, 0, 200),
        Err(GpioError::InvalidArgument)
    ));
    assert!(matches!(
        RotEncState::with_settings(LL, 128, 200),
        Err(GpioError::InvalidArgument)
    ));
    let mut decoder = RotEncState::with_settings(LL, 1, 200).unwrap();
    assert_eq!(decoder.poll(HL), Some(RotEncRotation::Clockwise));
    let mut decoder = RotEncState::with_settings(LL, 4, 2).unwrap();
    assert_eq!(decoder.poll(HL), None);
    assert_eq!(decoder.poll(HH), None);
    assert_eq!(decoder.poll(LH), None);
    assert_eq!(decoder.tick_count(), 0);
    let mut decoder = RotEncState::with_settings(LL, 127, u32::MAX).unwrap();
    let cycle = [HL, HH, LH, LL];
    for k in 0..126 {
        assert_eq!(decoder.poll(cycle[k % 4]), None);
    }
    assert_eq!(decoder.poll(cycle[126 % 4]), Some(RotEncRotation::Clockwise));
}

#[test]
fn the_poll_counter_starts_at_1() {
    let mut decoder = RotEncState::new(HL);
    assert_eq!(decoder.ticks(), 1);
    decoder.tick();
    assert_eq!(decoder.ticks(), 2);
    assert_eq!(decoder.step(HL), None);
    assert_eq!(decoder.ticks(), 2);
}

#[derive(Debug)]
struct Line {
    level: Cell<bool>,
    fail: Cell<bool>,
}

impl Line {
    fn new() -> Self {
        Line { level: Cell::new(false), fail: Cell::new(false) }
    }
}

impl GpioInput for Line {
    fn read(&self) -> Result<bool, GpioError> {
        if self.fail.get() {
            Err(GpioError::NotSupported)
        } else {
            Ok(self.level.get())
        }
    }
}

#[test]
fn an_encoder_on_two_pins() {
    let a = Line::new();
    let b = Line::new();
    let mut encoder = RotEnc::new(&a, &b);
    assert_eq!(encoder.read_raw(), Ok(LL));
    assert_eq!(encoder.read(), Ok(None));
    a.level.set(true);
    assert_eq!(encoder.read_raw(), Ok(HL));
    assert_eq!(encoder.read(), Ok(None));
    b.fail.set(true);
    assert_eq!(encoder.read(), Err(GpioError::NotSupported));
    b.fail.set(false);
    b.level.set(true);
    assert_eq!(encoder.read(), Ok(Some(RotEncRotation::Clockwise)));
    assert_eq!(encoder.read(), Ok(None));
}

#[test]
fn an_encoder_whose_pins_fail_at_first_starts_low() {
    let a = Line::new();
    let b = Line::new();
    a.level.set(true);
    a.fail.set(true);
    let mut encoder = RotEnc::new(&a, &b);
    a.fail.set(false);
    assert_eq!(encoder.read(), Ok(None));
    b.level.set(true);
    assert_eq!(encoder.read(), Ok(Some(RotEncRotation::Clockwise)));
}
