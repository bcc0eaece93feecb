//! The settings of the lock.

use vstd::prelude::*;

verus! {

/// The largest contrast.
pub const MAX_CONTRAST: u8 = 0b11_1111;

/// The contrast of a new configuration.
pub const DEFAULT_CONTRAST: u8 = 32;

/// The contrast of the display, from 0 to 63.
#[derive(Copy, Clone, Debug, PartialEq, Eq)]
pub struct Contrast(u8);

impl Contrast {
    #[verifier::type_invariant]
    spec fn wf(&self) -> bool {
        self.0 <= MAX_CONTRAST
    }

    /// The contrast as a number.
    pub closed spec fn view(&self) -> u8 {
        self.0
    }

    /// A contrast. The value is at most 63.
    pub fn new(value: u8) -> (contrast: Contrast)
        requires
            value <= MAX_CONTRAST,
        ensures
            contrast@ == value,
    {
        Contrast(value)
    }

    /// A contrast, or `None` for a value above 63.
    pub fn try_new(value: u8) -> (contrast: Option<Contrast>)
        ensures
            value <= MAX_CONTRAST <==> contrast is Some,
            contrast matches Some(c) ==> c@ == value,
    {
        if value > MAX_CONTRAST {
            None
        } else {
            Some(Contrast(value))
        }
    }

    /// The contrast as a number, at most 63.
    pub fn value(&self) -> (value: u8)
        ensures
            value == self@,
            value <= MAX_CONTRAST,
    {
        proof {
            use_type_invariant(self);
        }
        self.0
    }
}

impl Default for Contrast {
    fn default() -> (contrast: Contrast)
        ensures
            contrast@ == DEFAULT_CONTRAST,
    {
        Contrast::new(DEFAULT_CONTRAST)
    }
}

/// The settings of the lock.
#[derive(Debug)]
pub struct Config {
    /// The password.
    pub password: Vec<char>,
    /// The seconds that the lock stays open. Not 0.
    pub unlock_seconds: u8,
    /// The contrast of the display.
    pub contrast: Contrast,
}

impl Config {
    /// Whether the settings can be used: the lock stays open for a time.
    pub open spec fn valid(&self) -> bool {
        self.unlock_seconds >= 1
    }

    /// Whether the settings can be used: the lock stays open for a time.
    pub fn is_valid(&self) -> (valid: bool)
        ensures
            valid == self.valid(),
    {
        self.unlock_seconds >= 1
    }
}

impl Default for Config {
    /// The password `1234`, five seconds, and a contrast of 32.
    fn default() -> (config: Config)
        ensures
            config.valid(),
            config.password@ == seq!['1', '2', '3', '4'],
            config.unlock_seconds == 5,
            config.contrast@ == DEFAULT_CONTRAST,
    {
        let mut password: Vec<char> = Vec::new();
        password.push('1');
        password.push('2');
        password.push('3');
        password.push('4');
        assert(password@ =~= seq!['1', '2', '3', '4']);
        Config { password, unlock_seconds: 5, contrast: Contrast::default() }
    }
}

} // verus!
