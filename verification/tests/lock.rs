use pilock::app::{seconds_of, turn_digit, App, AppState, AudioPlayer, AudioStep, Inputs, MelodyKind, Reaction};
use pilock::config::{Config, Contrast};
use pilock::error::GpioError;
use pilock::lcd::ssd1803a::SSD1803ADriver;
use pilock::notes::{Melody, MusicalNote};
use pilock::pins::{parse_pin_bus, PinBusError};
use pilock::rotenc::RotEncRotation;

const QUIET: Reaction = Reaction { redraw: false, melody: None };
const DRAWN: Reaction = Reaction { redraw: true, melody: None };

fn idle() -> Inputs {
    Inputs { rotation: None, ok_pressed: false, forced_unlock: false, elapsed_ns: 1_000_000 }
}

fn turn(rotation: RotEncRotation) -> Inputs {
    Inputs { rotation: Some(rotation), ..idle() }
}

fn press() -> Inputs {
    Inputs { ok_pressed: true, ..idle() }
}

fn locked(input: &str) -> AppState {
    AppState::Locked { input: input.chars().collect() }
}

fn config(password: &str) -> Config {
    Config { password: password.chars().collect(), unlock_seconds: 5, contrast: Contrast::new(32) }
}

/// Enters a digit: a press adds a 0, and turning brings it to its value.
fn enter(app: &mut App, digit: u32) {
    assert_eq!(app.update(press()), DRAWN);
    assert_eq!(app.update(idle()), QUIET);
    for _ in 0..digit {
        assert_eq!(app.update(turn(RotEncRotation::Clockwise)), DRAWN);
    }
}

#[test]
fn pin_lines() {
    assert_eq!(parse_pin_bus("26,16,20,21"), Ok([26, 16, 20, 21]));
    assert_eq!(parse_pin_bus(" 26 ; 16,, 20 \t,+21;"), Ok([26, 16, 20, 21]));
    assert_eq!(parse_pin_bus("0 00 007 18446744073709551615"), Ok([0, 0, 7, usize::MAX]));
    assert_eq!(parse_pin_bus("1\u{a0},2,3,\n4"), Ok([1, 2, 3, 4]));
    assert_eq!(parse_pin_bus(""), Err(PinBusError::WrongCount));
    assert_eq!(parse_pin_bus("1,2,3"), Err(PinBusError::WrongCount));
    assert_eq!(parse_pin_bus("1,2,3,4,5"), Err(PinBusError::WrongCount));
    assert_eq!(parse_pin_bus("1,2,x,4"), Err(PinBusError::InvalidNumber));
    assert_eq!(parse_pin_bus("1,2,x"), Err(PinBusError::InvalidNumber));
    assert_eq!(parse_pin_bus("1,2,-3,4"), Err(PinBusError::InvalidNumber));
    assert_eq!(parse_pin_bus("1,2,+,4"), Err(PinBusError::InvalidNumber));
    assert_eq!(parse_pin_bus("1,2,3\t3,4"), Err(PinBusError::InvalidNumber));
    assert_eq!(parse_pin_bus("1,2,3+,4"), Err(PinBusError::InvalidNumber));
    assert_eq!(parse_pin_bus("1,2,++3,4"), Err(PinBusError::InvalidNumber));
    assert_eq!(parse_pin_bus("1,2,3,18446744073709551616"), Err(PinBusError::InvalidNumber));
    assert_eq!(parse_pin_bus("1.2.3.4"), Err(PinBusError::InvalidNumber));
    for text in ["26,16,20,21", " 5 6;8,7", "1,2,x,4", "1,2,-3,4", "+1 2 3 4", "1,2,+,4"] {
        let std: Result<Vec<usize>, _> = text
            .split([',', ' ', ';'])
            .map(|s| s.trim())
            .filter(|s| !s.is_empty())
            .map(|s| s.parse())
            .collect();
        assert_eq!(parse_pin_bus(text).ok().map(|pins| pins.to_vec()), std.ok(), "{text}");
    }
}

#[test]
fn digits_turn_round() {
    assert_eq!(turn_digit('0', RotEncRotation::Clockwise), '1');
    assert_eq!(turn_digit('9', RotEncRotation::Clockwise), '0');
    assert_eq!(turn_digit('0', RotEncRotation::CounterClockwise), '9');
    assert_eq!(turn_digit('5', RotEncRotation::CounterClockwise), '4');
    assert_eq!(turn_digit('x', RotEncRotation::Clockwise), '1');
    assert_eq!(seconds_of(4_999_999_999), 4);
    assert_eq!(seconds_of(5_000_000_000), 5);
    assert_eq!(seconds_of(-1), 0);
    assert_eq!(seconds_of(-1_000_000_001), -1);
}

#[test]
fn the_password_opens_the_lock() {
    let mut app = App::new(config("1204"));
    assert_eq!(*app.state(), AppState::Starting);
    assert_eq!(app.screen(), None);
    assert_eq!(app.update(idle()), DRAWN);
    assert_eq!(*app.state(), locked(""));
    assert_eq!(app.update(idle()), QUIET);
    for digit in [1, 2, 0, 4] {
        enter(&mut app, digit);
    }
    assert_eq!(*app.state(), locked("1204"));
    assert_eq!(
        app.screen(),
        Some(("Enter password:".to_string(), "1204".to_string()))
    );
    // Holding the button down is no new press.
    assert_eq!(app.update(press()), Reaction { redraw: true, melody: Some(MelodyKind::Unlock) });
    assert_eq!(*app.state(), AppState::Unlocked { remaining_ns: 5_000_000_000 });
    assert_eq!(app.screen(), Some(("Unlocked!".to_string(), "5s remaining".to_string())));
}

#[test]
fn a_wrong_password_clears_the_input() {
    let mut app = App::new(config("1204"));
    app.update(idle());
    for digit in [1, 2, 0, 5] {
        enter(&mut app, digit);
    }
    assert_eq!(app.update(press()), Reaction { redraw: true, melody: Some(MelodyKind::Fail) });
    assert_eq!(*app.state(), locked(""));
    assert_eq!(app.update(press()), QUIET);
    assert_eq!(app.update(idle()), QUIET);
    for digit in [0, 9, 1, 5] {
        enter(&mut app, digit);
    }
    assert_eq!(
        app.update(press()),
        Reaction { redraw: true, melody: Some(MelodyKind::Megalovania) }
    );
    assert_eq!(*app.state(), locked(""));
}

#[test]
fn the_encoder_turns_the_last_digit() {
    let mut app = App::new(config("1234"));
    app.update(idle());
    assert_eq!(app.update(turn(RotEncRotation::CounterClockwise)), DRAWN);
    assert_eq!(*app.state(), locked("0"));
    assert_eq!(app.update(turn(RotEncRotation::CounterClockwise)), DRAWN);
    assert_eq!(*app.state(), locked("9"));
    // A rotation comes before the button.
    let both = Inputs { ok_pressed: true, ..turn(RotEncRotation::Clockwise) };
    assert_eq!(app.update(both), DRAWN);
    assert_eq!(*app.state(), locked("0"));
    assert_eq!(app.update(press()), QUIET);
}

#[test]
fn the_lock_closes_when_the_time_is_up() {
    let mut app = App::new(config(""));
    app.update(idle());
    assert_eq!(app.update(press()), Reaction { redraw: true, melody: Some(MelodyKind::Unlock) });
    let wait = |ns| Inputs { elapsed_ns: ns, ..idle() };
    assert_eq!(app.update(wait(1)), DRAWN);
    assert_eq!(*app.state(), AppState::Unlocked { remaining_ns: 4_999_999_999 });
    assert_eq!(app.update(wait(999_999_998)), QUIET);
    assert_eq!(app.update(wait(2)), DRAWN);
    assert_eq!(app.screen(), Some(("Unlocked!".to_string(), "3s remaining".to_string())));
    assert_eq!(app.update(wait(3_999_999_999)), DRAWN);
    assert_eq!(*app.state(), AppState::Unlocked { remaining_ns: 0 });
    assert_eq!(app.update(wait(0)), QUIET);
    assert_eq!(app.update(wait(1)), DRAWN);
    assert_eq!(*app.state(), locked(""));
    assert_eq!(app.update(press()), Reaction { redraw: true, melody: Some(MelodyKind::Unlock) });
    assert_eq!(app.update(wait(u64::MAX)), DRAWN);
    assert_eq!(*app.state(), locked(""));
}

#[test]
fn forcing_and_easy_access() {
    let mut app = App::new(config("1234"));
    app.update(idle());
    let forced = Inputs { forced_unlock: true, ..idle() };
    assert_eq!(app.update(forced), Reaction { redraw: true, melody: Some(MelodyKind::Unlock) });
    assert!(matches!(app.state(), AppState::Unlocked { .. }));
    let mut app = App::new(config("1234"));
    app.set_easy_access(true);
    assert_eq!(app.update(idle()), DRAWN);
    assert_eq!(*app.state(), AppState::LockedInEasyAccess);
    assert_eq!(
        app.screen(),
        Some(("Easy access".to_string(), "Press # to unlock".to_string()))
    );
    assert_eq!(app.update(press()), QUIET);
    assert_eq!(app.update(idle()), DRAWN);
    assert!(matches!(app.state(), AppState::Unlocked { .. }));
    assert_eq!(app.update(Inputs { elapsed_ns: 6_000_000_000, ..idle() }), DRAWN);
    assert_eq!(*app.state(), AppState::LockedInEasyAccess);
    assert_eq!(app.update(forced), Reaction { redraw: true, melody: Some(MelodyKind::Unlock) });
    app.update(Inputs { elapsed_ns: 6_000_000_000, ..idle() });
    app.set_easy_access(false);
    assert_eq!(app.update(idle()), DRAWN);
    assert_eq!(*app.state(), locked(""));
    app.set_easy_access(true);
    assert_eq!(app.update(forced), DRAWN);
    assert_eq!(*app.state(), AppState::LockedInEasyAccess);
    assert_eq!(app.config().unlock_seconds, 5);
}

#[derive(Debug, Default)]
struct Screen {
    log: Vec<String>,
    fail_data: bool,
}

impl SSD1803ADriver for Screen {
    fn init(&mut self, _lines: u8) -> Result<(), GpioError> {
        Ok(())
    }
    fn send_command(&mut self, data: u8, _is: Option<bool>, _re: Option<bool>) -> Result<(), GpioError> {
        self.log.push(format!("c{data:02x}"));
        Ok(())
    }
    fn send_data(&mut self, data: u8) -> Result<(), GpioError> {
        if self.fail_data {
            return Err(GpioError::NotSupported);
        }
        self.log.push((data as char).to_string());
        Ok(())
    }
    fn read_command(&mut self) -> Result<u8, GpioError> {
        Err(GpioError::NotSupported)
    }
    fn read_data(&mut self) -> Result<u8, GpioError> {
        Err(GpioError::NotSupported)
    }
}

#[test]
fn drawing() {
    let mut app = App::new(config("1234"));
    let mut screen = Screen::default();
    app.draw(&mut screen).unwrap();
    assert_eq!(screen.log.concat(), "c01");
    app.update(idle());
    app.update(turn(RotEncRotation::Clockwise));
    app.update(turn(RotEncRotation::Clockwise));
    screen.log.clear();
    app.draw(&mut screen).unwrap();
    assert_eq!(screen.log.concat(), "c01c80Enter password:ca01");
    screen.fail_data = true;
    assert_eq!(app.draw(&mut screen), Err(GpioError::NotSupported));
}

#[test]
fn playing_a_melody() {
    let mut player = AudioPlayer::new();
    assert!(!player.is_playing());
    assert_eq!(player.update_audio(10), AudioStep::Idle);
    let melody: Melody = vec![(Some(MusicalNote::G4), 150), (None, 50), (Some(MusicalNote::G5), 150)];
    player.start_melody(melody.clone());
    assert!(player.is_playing());
    assert_eq!(player.step(), AudioStep::Note(MusicalNote::G4));
    assert_eq!(player.update_audio(149_999_999), AudioStep::Note(MusicalNote::G4));
    assert_eq!(player.update_audio(1), AudioStep::Note(MusicalNote::G4));
    assert_eq!(player.update_audio(50_000_000), AudioStep::Pause);
    assert_eq!(player.update_audio(149_999_999), AudioStep::Note(MusicalNote::G5));
    assert_eq!(player.update_audio(1), AudioStep::Note(MusicalNote::G5));
    assert_eq!(player.step(), AudioStep::Finished);
    assert_eq!(player.update_audio(1), AudioStep::Finished);
    assert!(!player.is_playing());
    assert_eq!(player.update_audio(1), AudioStep::Idle);
    player.start_melody(melody);
    assert_eq!(player.update_audio(u64::MAX), AudioStep::Note(MusicalNote::G4));
    assert_eq!(player.update_audio(u64::MAX), AudioStep::Finished);
    player.start_melody(Vec::new());
    assert_eq!(player.update_audio(0), AudioStep::Finished);
    assert!(!player.is_playing());
}
