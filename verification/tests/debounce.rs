use pilock::debounce::timed::{DebounceState, TimedDebounce};
use pilock::error::GpioError;
use pilock::gpio::GpioInput;
use std::cell::RefCell;
use std::collections::VecDeque;
use std::time::Duration;

#[derive(Debug)]
struct Samples {
    queue: RefCell<VecDeque<Result<bool, GpioError>>>,
}

impl Samples {
    fn of(samples: &[bool]) -> Self {
        Samples { queue: RefCell::new(samples.iter().map(|s| Ok(*s)).collect()) }
    }
}

impl GpioInput for Samples {
    fn read(&self) -> Result<bool, GpioError> {
        self.queue.borrow_mut().pop_front().expect("a sample")
    }
}

const MS: u128 = 1_000_000;
const HOLD: u128 = 50 * MS;

#[test]
fn a_change_is_reported_once_the_hold_time_has_passed() {
    let mut state = DebounceState::new(false);
    // The hold begins at the first read; the next reads come 10 ms, 20 ms
    // and 60 ms after it.
    assert!(!state.step(true, 0, HOLD));
    assert_eq!(state, DebounceState { stable: false, holding: true });
    assert!(!state.step(true, 10 * MS, HOLD));
    assert!(!state.step(true, 20 * MS, HOLD));
    assert!(state.step(true, 60 * MS, HOLD));
    assert_eq!(state, DebounceState { stable: true, holding: false });
    assert!(state.step(true, 0, HOLD));
}

#[test]
fn the_hold_expires_when_its_time_is_reached() {
    let mut state = DebounceState { stable: false, holding: true };
    assert!(!state.step(true, HOLD - 1, HOLD));
    assert!(state.holding);
    assert!(state.step(true, HOLD, HOLD));
    assert!(!state.holding);
    let mut state = DebounceState { stable: false, holding: true };
    assert!(state.step(true, u128::MAX, HOLD));
    let mut state = DebounceState { stable: false, holding: true };
    assert!(state.step(true, 0, 0));
}

#[test]
fn a_bounce_back_cancels_the_hold() {
    let mut state = DebounceState::new(false);
    // true at 0 ms, true at 10 ms, false at 20 ms: the glitch went back.
    assert!(!state.step(true, 0, HOLD));
    assert!(!state.step(true, 10 * MS, HOLD));
    assert!(!state.step(false, 20 * MS, HOLD));
    assert_eq!(state, DebounceState { stable: false, holding: false });
    // true at 80 ms starts a new hold, whatever the clock says.
    assert!(!state.step(true, 80 * MS, HOLD));
    assert_eq!(state, DebounceState { stable: false, holding: true });
    // The first read after the new hold has passed confirms it.
    assert!(!state.step(true, 49 * MS, HOLD));
    assert!(state.step(true, 50 * MS, HOLD));
    assert_eq!(state, DebounceState { stable: true, holding: false });
}

#[test]
fn the_value_at_expiry_is_committed() {
    let mut state = DebounceState { stable: true, holding: true };
    assert!(state.step(true, 60 * MS, HOLD));
    assert_eq!(state, DebounceState { stable: true, holding: false });
    let mut state = DebounceState { stable: true, holding: true };
    assert!(!state.step(false, 60 * MS, HOLD));
    assert_eq!(state, DebounceState { stable: false, holding: false });
}

#[test]
fn a_filter_with_no_hold_time_confirms_at_the_next_read() {
    let input = Samples::of(&[true, true, true, false, false]);
    let mut filter = TimedDebounce::new(&input).with_debounce_time(Duration::ZERO);
    assert_eq!(filter.debounce_time, Duration::ZERO);
    assert_eq!(filter.read(), Ok(false));
    assert_eq!(filter.read(), Ok(true));
    assert_eq!(filter.read(), Ok(true));
    assert_eq!(filter.read(), Ok(true));
    assert_eq!(filter.read(), Ok(false));
}

#[test]
fn a_filter_with_a_long_hold_time_keeps_its_value() {
    let input = Samples::of(&[true, true, false, true, true]);
    let mut filter = TimedDebounce::new(&input).with_debounce_time(Duration::from_secs(3600));
    for _ in 0..5 {
        assert_eq!(filter.read(), Ok(false));
    }
}

#[test]
fn the_default_hold_time_is_50_ms() {
    let input = Samples::of(&[]);
    let filter = TimedDebounce::new(&input);
    assert_eq!(filter.debounce_time, Duration::from_millis(50));
}

#[test]
fn an_error_of_the_input_leaves_the_filter_alone() {
    let input = Samples {
        queue: RefCell::new(VecDeque::from(vec![
            Ok(true),
            Err(GpioError::NotSupported),
            Ok(true),
        ])),
    };
    let mut filter = TimedDebounce::new(&input).with_debounce_time(Duration::ZERO);
    assert_eq!(filter.read(), Ok(false));
    assert_eq!(filter.read(), Err(GpioError::NotSupported));
    assert_eq!(filter.read(), Ok(true));
}
