//! Pulse-width modulation: the interface of a channel, and its polarity.

pub mod ext;
pub mod raw;

pub use crate::pwm::ext::PwmExtension;
pub use crate::pwm::raw::{RawPwmDriver, RawPwmPin};

use crate::error::{GpioError, GpioResult};
use std::fmt::Debug;
use vstd::prelude::*;
use vstd::string::StringExecFns;

verus! {

/// A backend that leases modulator channels.
pub trait PwmDriver: Debug {
    /// The channel handle.
    type Pin<'a>: PwmPin where Self: 'a;

    /// The number of channels.
    fn count(&self) -> GpioResult<usize>;

    /// Leases one channel.
    fn get_pin(&self, index: usize) -> GpioResult<Self::Pin<'_>>;
}

/// A leased modulator channel.
///
/// What a channel gives for its period and its active time is for its backend
/// to say, in the four relations below; a backend that says nothing can give
/// anything.
pub trait PwmPin: Debug {
    /// Whether reading the period can give a result.
    open spec fn period_read(&self, r: GpioResult<u32>) -> bool {
        true
    }

    /// Whether setting the period can take the channel from one state to
    /// another and give a result.
    open spec fn period_set(before: &Self, after: &Self, period_ns: u32, r: GpioResult<()>)
        -> bool {
        true
    }

    /// Whether reading the active time can give a result.
    open spec fn duty_read(&self, r: GpioResult<u32>) -> bool {
        true
    }

    /// Whether setting the active time can take the channel from one state to
    /// another and give a result.
    open spec fn duty_set(before: &Self, after: &Self, duty_ns: u32, r: GpioResult<()>) -> bool {
        true
    }

    /// The period in nanoseconds.
    fn period_ns(&self) -> (r: GpioResult<u32>)
        ensures
            self.period_read(r),
    ;

    /// Sets the period in nanoseconds.
    fn set_period_ns(&mut self, period_ns: u32) -> (r: GpioResult<()>)
        ensures
            Self::period_set(old(self), final(self), period_ns, r),
    ;

    /// The time, in nanoseconds, that the signal is active in each period.
    fn duty_ns(&self) -> (r: GpioResult<u32>)
        ensures
            self.duty_read(r),
    ;

    /// Sets the time, in nanoseconds, that the signal is active in each
    /// period.
    fn set_duty_ns(&mut self, duty_ns: u32) -> (r: GpioResult<()>)
        ensures
            Self::duty_set(old(self), final(self), duty_ns, r),
    ;

    /// The polarity of the signal.
    fn polarity(&self) -> GpioResult<PwmPolarity>;

    /// Sets the polarity of the signal.
    fn set_polarity(&mut self, polarity: PwmPolarity) -> GpioResult<()>;

    /// Whether the channel puts out its signal.
    fn is_enabled(&self) -> GpioResult<bool>;

    /// Starts the signal.
    fn enable(&mut self) -> GpioResult<()>;

    /// Stops the signal.
    fn disable(&mut self) -> GpioResult<()>;
}

/// Whether the signal is high or low while it is active.
#[derive(Copy, Clone, Debug, PartialEq, Eq, Structural)]
pub enum PwmPolarity {
    /// High while active.
    Normal,
    /// Low while active.
    Inversed,
}

impl Default for PwmPolarity {
    fn default() -> (polarity: Self)
        ensures
            polarity == PwmPolarity::Normal,
    {
        PwmPolarity::Normal
    }
}

impl PwmPolarity {
    /// The name of the polarity.
    pub open spec fn name_of(self) -> Seq<char> {
        match self {
            PwmPolarity::Normal => "normal"@,
            PwmPolarity::Inversed => "inversed"@,
        }
    }

    /// The polarity that a text names: `normal` or `inversed`, nothing else.
    pub open spec fn named(text: Seq<char>) -> Option<PwmPolarity> {
        if text == "normal"@ {
            Some(PwmPolarity::Normal)
        } else if text == "inversed"@ {
            Some(PwmPolarity::Inversed)
        } else {
            None
        }
    }

    /// The polarity that a text names; an error with a message for any other
    /// text.
    pub fn parse(text: &str) -> (r: GpioResult<PwmPolarity>)
        ensures
            match PwmPolarity::named(text@) {
                Some(polarity) => r == Ok::<PwmPolarity, GpioError>(polarity),
                None => r matches Err(GpioError::Other(message)) && message@
                    == "parsing PWM polarity failed"@,
            },
    {
        let given: String = String::from_str(text);
        if given == String::from_str("normal") {
            Ok(PwmPolarity::Normal)
        } else if given == String::from_str("inversed") {
            Ok(PwmPolarity::Inversed)
        } else {
            Err(GpioError::Other(String::from_str("parsing PWM polarity failed")))
        }
    }

    /// The name of the polarity.
    pub fn name(&self) -> (name: String)
        ensures
            name@ == self.name_of(),
    {
        match self {
            PwmPolarity::Normal => String::from_str("normal"),
            PwmPolarity::Inversed => String::from_str("inversed"),
        }
    }
}

impl std::str::FromStr for PwmPolarity {
    type Err = GpioError;

    /// The polarity that a text names: [`PwmPolarity::parse`] under the name
    /// that `str::parse` looks for.
    fn from_str(s: &str) -> (r: Result<Self, Self::Err>)
        ensures
            match PwmPolarity::named(s@) {
                Some(polarity) => r == Ok::<PwmPolarity, GpioError>(polarity),
                None => r matches Err(GpioError::Other(message)) && message@
                    == "parsing PWM polarity failed"@,
            },
    {
        PwmPolarity::parse(s)
    }
}

/// The name of a polarity names that polarity.
pub proof fn law_polarity_name_round_trip(polarity: PwmPolarity)
    ensures
        PwmPolarity::named(polarity.name_of()) == Some(polarity),
{
    reveal_strlit("normal");
    reveal_strlit("inversed");
    assert("normal"@.len() != "inversed"@.len());
}

} // verus!
