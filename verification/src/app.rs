//! The lock: what it does with its inputs, what it shows and what it plays.
//!
//! The lock is polled. At each poll it is told what the encoder and the
//! buttons did and how much time has passed, and it says whether the display
//! has to be drawn again and whether a melody has to start. It touches no
//! pin itself.

use crate::config::Config;
use crate::error::{GpioError, GpioResult};
use crate::lcd::ssd1803a::SSD1803ADriver;
use crate::notes::{playing_at, total_ms, Melody, MelodyExt, MusicalNote};
use crate::rotenc::RotEncRotation;
use crate::lcd::hd44780::CLEAR_DISPLAY;
use crate::utils::{cursor_byte, display_text, text_sent, DisplayExt};
use vstd::prelude::*;
use vstd::string::StringExecFns;

verus! {

/// The nanoseconds in a second.
pub const NS_PER_SECOND: i64 = 1_000_000_000;

/// The nanoseconds in a millisecond.
pub const NS_PER_MS: u64 = 1_000_000;

/// The state of the lock.
#[derive(Debug, PartialEq, Eq)]
pub enum AppState {
    /// Before the first poll.
    Starting,
    /// Locked, to be opened with the button alone.
    LockedInEasyAccess,
    /// Locked, with the digits that were entered.
    Locked { input: Vec<char> },
    /// Open, for so many nanoseconds more.
    Unlocked { remaining_ns: i64 },
}

/// The state of the lock, as a mathematical value.
pub enum StateModel {
    /// Before the first poll.
    Starting,
    /// Locked, to be opened with the button alone.
    LockedInEasyAccess,
    /// Locked, with the digits that were entered.
    Locked { input: Seq<char> },
    /// Open, for so many nanoseconds more.
    Unlocked { remaining_ns: int },
}

impl AppState {
    /// The state as a mathematical value.
    pub open spec fn view(&self) -> StateModel {
        match self {
            AppState::Starting => StateModel::Starting,
            AppState::LockedInEasyAccess => StateModel::LockedInEasyAccess,
            AppState::Locked { input } => StateModel::Locked { input: input@ },
            AppState::Unlocked { remaining_ns } => StateModel::Unlocked {
                remaining_ns: *remaining_ns as int,
            },
        }
    }
}

/// A melody of the lock.
#[derive(Copy, Clone, Debug, PartialEq, Eq, Structural)]
pub enum MelodyKind {
    /// The lock has opened.
    Unlock,
    /// The password was wrong.
    Fail,
    /// The secret code was entered.
    Megalovania,
}

/// What happened since the last poll.
#[derive(Copy, Clone, Debug, PartialEq, Eq, Structural)]
pub struct Inputs {
    /// The rotation that the encoder reported.
    pub rotation: Option<RotEncRotation>,
    /// Whether the button is down.
    pub ok_pressed: bool,
    /// Whether the pin that forces the lock open is active.
    pub forced_unlock: bool,
    /// The time that has passed, in nanoseconds.
    pub elapsed_ns: u64,
}

/// What the owner of the pins has to do after a poll.
#[derive(Copy, Clone, Debug, PartialEq, Eq, Structural)]
pub struct Reaction {
    /// Whether the display has to be drawn again.
    pub redraw: bool,
    /// The melody that has to start.
    pub melody: Option<MelodyKind>,
}

/// The digits that play the secret melody.
pub open spec fn secret_code() -> Seq<char> {
    seq!['0', '9', '1', '5']
}

/// The value of a digit, and 0 for any other character.
pub open spec fn digit_of(c: char) -> int {
    if '0' <= c <= '9' {
        c as u32 - '0' as u32
    } else {
        0
    }
}

/// The character of a digit from 0 to 9.
pub open spec fn char_of(digit: int) -> char {
    if digit == 0 {
        '0'
    } else if digit == 1 {
        '1'
    } else if digit == 2 {
        '2'
    } else if digit == 3 {
        '3'
    } else if digit == 4 {
        '4'
    } else if digit == 5 {
        '5'
    } else if digit == 6 {
        '6'
    } else if digit == 7 {
        '7'
    } else if digit == 8 {
        '8'
    } else {
        '9'
    }
}

/// A digit turned by one step of the encoder: up clockwise and down
/// counter-clockwise, from 9 on to 0 and from 0 back to 9.
pub open spec fn turned(c: char, rotation: RotEncRotation) -> char {
    match rotation {
        RotEncRotation::Clockwise => char_of((digit_of(c) + 1) % 10),
        RotEncRotation::CounterClockwise => char_of((digit_of(c) + 9) % 10),
    }
}

/// The input after a step of the encoder: the first digit appears as 0, and
/// afterwards the last digit turns.
pub open spec fn input_turned(input: Seq<char>, rotation: RotEncRotation) -> Seq<char> {
    if input.len() < 1 {
        seq!['0']
    } else {
        input.update(input.len() - 1, turned(input.last(), rotation))
    }
}

/// The whole seconds of a time in nanoseconds, rounded towards zero.
pub open spec fn whole_seconds(ns: int) -> int {
    if ns >= 0 {
        ns / 1_000_000_000
    } else {
        -((-ns) / 1_000_000_000)
    }
}

/// What the lock knows between two polls.
pub struct LockModel {
    /// The state.
    pub state: StateModel,
    /// Whether the button alone opens the lock.
    pub easy_access: bool,
    /// Whether the button was down at the last poll.
    pub prev_ok: bool,
    /// The password.
    pub password: Seq<char>,
    /// The seconds that the lock stays open.
    pub unlock_seconds: int,
    /// The contrast of the display.
    pub contrast: u8,
}

impl LockModel {
    /// The state of a lock that is locked.
    pub open spec fn locked(self) -> StateModel {
        if self.easy_access {
            StateModel::LockedInEasyAccess
        } else {
            StateModel::Locked { input: Seq::empty() }
        }
    }

    /// The state of a lock that has just opened.
    pub open spec fn opened(self) -> StateModel {
        StateModel::Unlocked { remaining_ns: self.unlock_seconds * 1_000_000_000 }
    }

    /// The state after a poll and what the poll asks for.
    ///
    /// - Before the first poll the lock locks itself. A lock that is locked
    ///   in the way that does not fit its setting changes to the other.
    /// - A locked lock opens, with the opening melody, when it is forced.
    /// - A lock in easy access opens when the button is released.
    /// - A lock that waits for the password turns its last digit with the
    ///   encoder. Without a rotation, a press of the button adds a digit
    ///   while the input is shorter than the password, and else compares:
    ///   the password opens the lock with the opening melody; anything else
    ///   clears the input, with the secret melody for the secret code and
    ///   the failing melody else.
    /// - An open lock counts its time down, is drawn again when the whole
    ///   seconds change, and locks itself when the time is up.
    pub open spec fn next(self, inputs: Inputs) -> (LockModel, Reaction) {
        let released = self.prev_ok && !inputs.ok_pressed;
        let pressed = !self.prev_ok && inputs.ok_pressed;
        let polled = LockModel { prev_ok: inputs.ok_pressed, ..self };
        let quiet = Reaction { redraw: false, melody: None };
        let drawn = Reaction { redraw: true, melody: None };
        let welcome = Reaction { redraw: true, melody: Some(MelodyKind::Unlock) };
        match self.state {
            StateModel::Starting => (LockModel { state: self.locked(), ..polled }, drawn),
            StateModel::LockedInEasyAccess => if !self.easy_access {
                (LockModel { state: self.locked(), ..polled }, drawn)
            } else if inputs.forced_unlock {
                (LockModel { state: self.opened(), ..polled }, welcome)
            } else if released {
                (LockModel { state: self.opened(), ..polled }, drawn)
            } else {
                (polled, quiet)
            },
            StateModel::Locked { input } => if self.easy_access {
                (LockModel { state: self.locked(), ..polled }, drawn)
            } else if inputs.forced_unlock {
                (LockModel { state: self.opened(), ..polled }, welcome)
            } else if inputs.rotation is Some {
                (
                    LockModel {
                        state: StateModel::Locked {
                            input: input_turned(input, inputs.rotation->Some_0),
                        },
                        ..polled
                    },
                    drawn,
                )
            } else if !pressed {
                (polled, quiet)
            } else if input.len() < self.password.len() {
                (LockModel { state: StateModel::Locked { input: input.push('0') }, ..polled }, drawn)
            } else if input == self.password {
                (LockModel { state: self.opened(), ..polled }, welcome)
            } else {
                (
                    LockModel { state: StateModel::Locked { input: Seq::empty() }, ..polled },
                    Reaction {
                        redraw: true,
                        melody: Some(
                            if input == secret_code() {
                                MelodyKind::Megalovania
                            } else {
                                MelodyKind::Fail
                            },
                        ),
                    },
                )
            },
            StateModel::Unlocked { remaining_ns } => {
                let left = remaining_ns - inputs.elapsed_ns;
                if left < 0 {
                    (LockModel { state: self.locked(), ..polled }, drawn)
                } else {
                    (
                        LockModel { state: StateModel::Unlocked { remaining_ns: left }, ..polled },
                        Reaction {
                            redraw: whole_seconds(remaining_ns) != whole_seconds(left),
                            melody: None,
                        },
                    )
                }
            },
        }
    }
}

/// Whenever the lock opens or locks itself, the display is drawn again; and a
/// melody starts only together with a drawing.
pub proof fn law_every_change_is_drawn(model: LockModel, inputs: Inputs)
    ensures
        (model.next(inputs).0.state is Unlocked) != (model.state is Unlocked) ==> model.next(
            inputs,
        ).1.redraw,
        model.next(inputs).1.melody is Some ==> model.next(inputs).1.redraw,
        model.next(inputs).0.prev_ok == inputs.ok_pressed,
        model.next(inputs).0.password == model.password,
        model.next(inputs).0.unlock_seconds == model.unlock_seconds,
        model.next(inputs).0.contrast == model.contrast,
        model.next(inputs).0.easy_access == model.easy_access,
{
}

/// A lock that waits for the password opens only when it is forced or when
/// the password has been entered.
pub proof fn law_only_the_password_opens(model: LockModel, inputs: Inputs)
    requires
        model.state is Locked,
        model.next(inputs).0.state is Unlocked,
    ensures
        inputs.forced_unlock || (model.state->input == model.password && inputs.ok_pressed
            && !model.prev_ok && inputs.rotation is None),
{
}

/// Trusted: `String::from_iter` on the characters of a vector, which makes
/// the text of those characters in their order.
#[verifier::external_body]
fn text_of(chars: &Vec<char>) -> (text: String)
    ensures
        text@ == chars@,
{
    String::from_iter(chars.iter())
}

/// The decimal digits of a number, the highest first.
pub open spec fn decimal_digits(number: nat) -> Seq<char>
    decreases number,
{
    if number < 10 {
        seq![char_of(number as int)]
    } else {
        decimal_digits(number / 10).push(char_of((number % 10) as int))
    }
}

/// A number in decimal: its digits, with a `-` before them where it is
/// negative.
pub open spec fn decimal_text(number: int) -> Seq<char> {
    if number < 0 {
        seq!['-'] + decimal_digits((-number) as nat)
    } else {
        decimal_digits(number as nat)
    }
}

/// Trusted: `i64::to_string`, which prints a number as `std::fmt::Display`
/// does: in decimal, without leading zeros, with a `-` before a negative
/// one.
#[verifier::external_body]
fn decimal(number: i64) -> (text: String)
    ensures
        text@ == decimal_text(number as int),
{
    number.to_string()
}

/// Whether two texts are the same.
fn same_chars(left: &Vec<char>, right: &Vec<char>) -> (same: bool)
    ensures
        same == (left@ == right@),
{
    if left.len() != right.len() {
        return false;
    }
    let mut k: usize = 0;
    while k < left.len()
        invariant
            k <= left.len(),
            left.len() == right.len(),
            forall|i: int| 0 <= i < k ==> left@[i] == right@[i],
        decreases left.len() - k,
    {
        if left[k] != right[k] {
            return false;
        }
        k += 1;
    }
    assert(left@ =~= right@);
    true
}

/// Whether a text is the secret code.
fn is_secret_code(input: &Vec<char>) -> (secret: bool)
    ensures
        secret == (input@ == secret_code()),
{
    let secret: bool = input.len() == 4 && input[0] == '0' && input[1] == '9' && input[2] == '1'
        && input[3] == '5';
    if secret {
        assert(input@ =~= secret_code());
    }
    secret
}

/// A digit turned by one step of the encoder.
pub fn turn_digit(c: char, rotation: RotEncRotation) -> (next: char)
    ensures
        next == turned(c, rotation),
{
    let digit: u32 = if '0' <= c && c <= '9' {
        c as u32 - '0' as u32
    } else {
        0
    };
    let step: u32 = match rotation {
        RotEncRotation::Clockwise => 1,
        RotEncRotation::CounterClockwise => 9,
    };
    match (digit + step) % 10 {
        0 => '0',
        1 => '1',
        2 => '2',
        3 => '3',
        4 => '4',
        5 => '5',
        6 => '6',
        7 => '7',
        8 => '8',
        _ => '9',
    }
}

/// The whole seconds of a time in nanoseconds, rounded towards zero.
pub fn seconds_of(ns: i64) -> (seconds: i64)
    ensures
        seconds == whole_seconds(ns as int),
{
    ns / NS_PER_SECOND
}

/// The lock.
#[derive(Debug)]
pub struct App {
    config: Config,
    state: AppState,
    easy_access: bool,
    prev_ok_state: bool,
}

impl App {
    /// What the lock knows.
    pub closed spec fn view(&self) -> LockModel {
        LockModel {
            state: self.state@,
            easy_access: self.easy_access,
            prev_ok: self.prev_ok_state,
            password: self.config.password@,
            unlock_seconds: self.config.unlock_seconds as int,
            contrast: self.config.contrast@,
        }
    }

    /// A lock with its settings, before its first poll.
    pub fn new(config: Config) -> (app: App)
        ensures
            app@ == (LockModel {
                state: StateModel::Starting,
                easy_access: false,
                prev_ok: false,
                password: config.password@,
                unlock_seconds: config.unlock_seconds as int,
                contrast: config.contrast@,
            }),
    {
        App { config, state: AppState::Starting, easy_access: false, prev_ok_state: false }
    }

    /// The settings of the lock.
    pub fn config(&self) -> (config: &Config)
        ensures
            config.password@ == self@.password,
            config.unlock_seconds == self@.unlock_seconds,
            config.contrast@ == self@.contrast,
    {
        &self.config
    }

    /// The state of the lock.
    pub fn state(&self) -> (state: &AppState)
        ensures
            state@ == self@.state,
    {
        &self.state
    }

    /// Chooses whether the button alone opens the lock.
    pub fn set_easy_access(&mut self, easy_access: bool)
        ensures
            final(self)@ == (LockModel { easy_access, ..old(self)@ }),
    {
        self.easy_access = easy_access;
    }

    /// The state of a lock that is locked.
    fn locked(&self) -> (state: AppState)
        ensures
            state@ == self@.locked(),
    {
        if self.easy_access {
            AppState::LockedInEasyAccess
        } else {
            AppState::Locked { input: Vec::new() }
        }
    }

    /// The state of a lock that has just opened.
    fn opened(&self) -> (state: AppState)
        ensures
            state@ == self@.opened(),
    {
        AppState::Unlocked { remaining_ns: self.config.unlock_seconds as i64 * NS_PER_SECOND }
    }

    /// Takes what happened since the last poll, and returns what has to be
    /// done: the step that [`LockModel::next`] describes.
    pub fn update(&mut self, inputs: Inputs) -> (reaction: Reaction)
        ensures
            (final(self)@, reaction) == old(self)@.next(inputs),
    {
        let released: bool = self.prev_ok_state && !inputs.ok_pressed;
        let pressed: bool = !self.prev_ok_state && inputs.ok_pressed;
        self.prev_ok_state = inputs.ok_pressed;
        let quiet: Reaction = Reaction { redraw: false, melody: None };
        let drawn: Reaction = Reaction { redraw: true, melody: None };
        let welcome: Reaction = Reaction { redraw: true, melody: Some(MelodyKind::Unlock) };
        let mut state: AppState = AppState::Starting;
        std::mem::swap(&mut state, &mut self.state);
        let (state, reaction): (AppState, Reaction) = match state {
            AppState::Starting => (self.locked(), drawn),
            AppState::LockedInEasyAccess => {
                if !self.easy_access {
                    (self.locked(), drawn)
                } else if inputs.forced_unlock {
                    (self.opened(), welcome)
                } else if released {
                    (self.opened(), drawn)
                } else {
                    (AppState::LockedInEasyAccess, quiet)
                }
            },
            AppState::Locked { input } => {
                let mut input: Vec<char> = input;
                if self.easy_access {
                    (self.locked(), drawn)
                } else if inputs.forced_unlock {
                    (self.opened(), welcome)
                } else {
                    match inputs.rotation {
                        Some(rotation) => {
                            if input.len() < 1 {
                                input.push('0');
                                assert(input@ =~= seq!['0']);
                            } else {
                                let last: usize = input.len() - 1;
                                let next: char = turn_digit(input[last], rotation);
                                input.set(last, next);
                            }
                            (AppState::Locked { input }, drawn)
                        },
                        None => {
                            if !pressed {
                                (AppState::Locked { input }, quiet)
                            } else if input.len() < self.config.password.len() {
                                input.push('0');
                                (AppState::Locked { input }, drawn)
                            } else if same_chars(&input, &self.config.password) {
                                (self.opened(), welcome)
                            } else {
                                let melody: MelodyKind = if is_secret_code(&input) {
                                    MelodyKind::Megalovania
                                } else {
                                    MelodyKind::Fail
                                };
                                (
                                    AppState::Locked { input: Vec::new() },
                                    Reaction { redraw: true, melody: Some(melody) },
                                )
                            }
                        },
                    }
                }
            },
            AppState::Unlocked { remaining_ns } => {
                let left: i128 = remaining_ns as i128 - inputs.elapsed_ns as i128;
                if left < 0 {
                    (self.locked(), drawn)
                } else {
                    let left: i64 = left as i64;
                    (
                        AppState::Unlocked { remaining_ns: left },
                        Reaction {
                            redraw: seconds_of(remaining_ns) != seconds_of(left),
                            melody: None,
                        },
                    )
                }
            },
        };
        self.state = state;
        reaction
    }

    /// The two lines that the display shows, or `None` where it is blank.
    pub fn screen(&self) -> (lines: Option<(String, String)>)
        ensures
            match screen_of(self@.state) {
                None => lines is None,
                Some((first, second)) => lines matches Some((one, two)) && one@ == first && two@
                    == second,
            },
    {
        match &self.state {
            AppState::Starting => None,
            AppState::LockedInEasyAccess => Some(
                (String::from_str("Easy access"), String::from_str("Press # to unlock")),
            ),
            AppState::Locked { input } => Some(
                (String::from_str("Enter password:"), text_of(input)),
            ),
            AppState::Unlocked { remaining_ns } => Some(
                (
                    String::from_str("Unlocked!"),
                    decimal(seconds_of(*remaining_ns)).concat("s remaining"),
                ),
            ),
        }
    }

    /// Draws the state on a display: clears it, and prints the two lines of
    /// [`screen`](Self::screen) at the beginning of the first two rows. The
    /// first error of the display is handed on, and nothing is sent after it.
    pub fn draw<D: SSD1803ADriver>(&self, lcd: &mut D) -> (r: GpioResult<()>)
        ensures
            screen_drawn(old(lcd), final(lcd), screen_of(self@.state), r),
    {
        let cleared: GpioResult<()> = lcd.clear_display();
        match cleared {
            Ok(_) => {},
            Err(error) => {
                return Err(error);
            },
        }
        assert(cleared->Ok_0 =~= ());
        let ghost blank: D = *lcd;
        match self.screen() {
            Some((first, second)) => {
                let one: GpioResult<()> = draw_line(lcd, 0, first.as_str());
                match one {
                    Ok(_) => {},
                    Err(error) => {
                        assert(line_drawn(&blank, lcd, 0, first@, Err(error)));
                        return Err(error);
                    },
                }
                assert(one->Ok_0 =~= ());
                let ghost half: D = *lcd;
                let two: GpioResult<()> = draw_line(lcd, 1, second.as_str());
                assert(line_drawn(&blank, &half, 0, first@, Ok(())));
                assert(line_drawn(&half, lcd, 1, second@, two));
                two
            },
            None => Ok(()),
        }
    }
}

/// The two lines that the display shows in a state, or `None` where it is
/// blank: the state in the first line, and in the second what to do, the
/// digits that were entered, or the whole seconds that are left.
pub open spec fn screen_of(state: StateModel) -> Option<(Seq<char>, Seq<char>)> {
    match state {
        StateModel::Starting => None,
        StateModel::LockedInEasyAccess => Some(("Easy access"@, "Press # to unlock"@)),
        StateModel::Locked { input } => Some(("Enter password:"@, input)),
        StateModel::Unlocked { remaining_ns } => Some(
            ("Unlocked!"@, decimal_text(whole_seconds(remaining_ns)) + "s remaining"@),
        ),
    }
}

/// Whether printing a line at the beginning of a row can take a display from
/// one state to another and give a result: the error of the command that
/// moves the cursor where it failed, and else what sending the text gave
/// after it.
pub open spec fn line_drawn<D: SSD1803ADriver>(
    before: &D,
    after: &D,
    row: usize,
    text: Seq<char>,
    r: GpioResult<()>,
) -> bool {
    (r is Err && D::command_gives(before, after, cursor_byte(row, 0), None, Some(false), r)) || (
    exists|placed: D| #[trigger]
        D::command_gives(before, &placed, cursor_byte(row, 0), None, Some(false), Ok(()))
            && text_sent(&placed, after, display_text(text), r))
}

/// Whether drawing a screen can take a display from one state to another and
/// give a result: the display is cleared, then the first line is printed in
/// row 0 and the second in row 1; the first error ends the drawing.
pub open spec fn screen_drawn<D: SSD1803ADriver>(
    before: &D,
    after: &D,
    lines: Option<(Seq<char>, Seq<char>)>,
    r: GpioResult<()>,
) -> bool {
    (r is Err && D::command_gives(before, after, CLEAR_DISPLAY, None, None, r)) || (exists|
        blank: D,
    | #[trigger]
        D::command_gives(before, &blank, CLEAR_DISPLAY, None, None, Ok(())) && match lines {
            None => r is Ok && *after == blank,
            Some((first, second)) => (r is Err && line_drawn(&blank, after, 0, first, r)) || (
            exists|half: D| #[trigger]
                line_drawn(&blank, &half, 0, first, Ok(())) && line_drawn(
                    &half,
                    after,
                    1,
                    second,
                    r,
                )),
        })
}

/// Prints a line at the beginning of one of the first two rows.
fn draw_line<D: SSD1803ADriver>(lcd: &mut D, row: usize, text: &str) -> (r: GpioResult<()>)
    requires
        row < 2,
    ensures
        line_drawn(old(lcd), final(lcd), row, text@, r),
{
    let placed: GpioResult<()> = lcd.set_cursor(row, 0);
    match placed {
        Ok(_) => {},
        Err(error) => {
            return Err(error);
        },
    }
    assert(placed->Ok_0 =~= ());
    let ghost at: D = *lcd;
    let printed: GpioResult<()> = lcd.print(text);
    assert(D::command_gives(old(lcd), &at, cursor_byte(row, 0), None, Some(false), Ok(())));
    printed
}

/// What the player asks of the modulator at a poll.
#[derive(Copy, Clone, Debug, PartialEq, Eq, Structural)]
pub enum AudioStep {
    /// Nothing plays, and nothing is to be done.
    Idle,
    /// The melody has ended: the channel is to be stopped.
    Finished,
    /// A note plays: the channel is to run at its frequency.
    Note(MusicalNote),
    /// The melody pauses: the channel is to be stopped if it runs.
    Pause,
}

/// The player of melodies.
#[derive(Debug)]
pub struct AudioPlayer {
    playing: Option<(Melody, u64)>,
}

impl AudioPlayer {
    /// The melody that plays, with the time since its beginning in
    /// nanoseconds.
    pub closed spec fn view(&self) -> Option<(Seq<(Option<MusicalNote>, i64)>, u64)> {
        match self.playing {
            Some((melody, elapsed)) => Some((melody@, elapsed)),
            None => None,
        }
    }

    /// What the player asks for: the end when the time since the beginning
    /// has reached the length of the melody, and else what the melody plays
    /// at that time.
    pub open spec fn current(playing: Option<(Seq<(Option<MusicalNote>, i64)>, u64)>) -> AudioStep {
        match playing {
            None => AudioStep::Idle,
            Some((melody, elapsed)) => if elapsed / 1_000_000 >= total_ms(melody) {
                AudioStep::Finished
            } else {
                match playing_at(melody, elapsed as int / 1_000_000) {
                    Some(note) => AudioStep::Note(note),
                    None => AudioStep::Pause,
                }
            },
        }
    }

    /// The player after a poll: the melody is dropped at its end, and else
    /// the time goes on, up to the largest that 64 bits hold.
    pub open spec fn advanced(
        playing: Option<(Seq<(Option<MusicalNote>, i64)>, u64)>,
        time_elapsed_ns: u64,
    ) -> Option<(Seq<(Option<MusicalNote>, i64)>, u64)> {
        match playing {
            None => None,
            Some((melody, elapsed)) => if Self::current(playing) == AudioStep::Finished {
                None
            } else if elapsed + time_elapsed_ns > u64::MAX {
                Some((melody, u64::MAX))
            } else {
                Some((melody, (elapsed + time_elapsed_ns) as u64))
            },
        }
    }

    /// A player that plays nothing.
    pub fn new() -> (player: AudioPlayer)
        ensures
            player@ is None,
    {
        AudioPlayer { playing: None }
    }

    /// Whether a melody plays.
    pub fn is_playing(&self) -> (playing: bool)
        ensures
            playing == self@ is Some,
    {
        self.playing.is_some()
    }

    /// Starts a melody from its beginning, in place of the one that plays.
    pub fn start_melody(&mut self, melody: Melody)
        ensures
            final(self)@ == Some((melody@, 0u64)),
    {
        self.playing = Some((melody, 0));
    }

    /// What the player asks of the modulator now.
    pub fn step(&self) -> (step: AudioStep)
        ensures
            step == Self::current(self@),
    {
        match &self.playing {
            None => AudioStep::Idle,
            Some((melody, elapsed)) => {
                let at: u64 = *elapsed / NS_PER_MS;
                if at as i128 >= melody.duration() {
                    AudioStep::Finished
                } else {
                    match melody.get_note_at(at as i64) {
                        Some(note) => AudioStep::Note(note),
                        None => AudioStep::Pause,
                    }
                }
            },
        }
    }

    /// Lets time pass after the modulator did what [`step`](Self::step)
    /// asked for, and returns that step.
    pub fn update_audio(&mut self, time_elapsed_ns: u64) -> (step: AudioStep)
        ensures
            step == Self::current(old(self)@),
            final(self)@ == Self::advanced(old(self)@, time_elapsed_ns),
    {
        let step: AudioStep = self.step();
        let mut playing: Option<(Melody, u64)> = None;
        std::mem::swap(&mut playing, &mut self.playing);
        match playing {
            None => {},
            Some((melody, elapsed)) => {
                match step {
                    AudioStep::Finished => {},
                    _ => {
                        let next: u64 = if elapsed > u64::MAX - time_elapsed_ns {
                            u64::MAX
                        } else {
                            elapsed + time_elapsed_ns
                        };
                        self.playing = Some((melody, next));
                    },
                }
            },
        }
        step
    }
}

} // verus!
