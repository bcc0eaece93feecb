//! Periods and active times as `std::time::Duration`.

use crate::error::GpioResult;
use crate::pwm::PwmPin;
use crate::time::{duration_as_nanos, duration_from_nanos, nanos_of};
use std::time::Duration;
use vstd::prelude::*;

verus! {

/// The low 32 bits of a number of nanoseconds.
pub open spec fn low_word(nanos: nat) -> u32 {
    (nanos % 0x1_0000_0000) as u32
}

/// The low 32 bits of a number of nanoseconds.
pub fn truncate_nanos(nanos: u128) -> (word: u32)
    ensures
        word == low_word(nanos as nat),
{
    (nanos % 0x1_0000_0000) as u32
}

/// A channel whose period and active time are given as durations.
pub trait PwmExtension: PwmPin {
    /// The period: the duration of the nanoseconds that the channel gave. An
    /// error of the channel is handed on.
    fn period(&self) -> (r: GpioResult<Duration>)
        ensures
            match r {
                Ok(period) => exists|period_ns: u32| #[trigger]
                    self.period_read(Ok(period_ns)) && nanos_of(period) == period_ns,
                Err(error) => self.period_read(Err(error)),
            },
    ;

    /// Sets the period to the low 32 bits of its nanoseconds.
    fn set_period(&mut self, period: Duration) -> (r: GpioResult<()>)
        ensures
            Self::period_set(old(self), final(self), low_word(nanos_of(period)), r),
    ;

    /// The active time in each period: the duration of the nanoseconds that
    /// the channel gave. An error of the channel is handed on.
    fn duty(&self) -> (r: GpioResult<Duration>)
        ensures
            match r {
                Ok(duty) => exists|duty_ns: u32| #[trigger]
                    self.duty_read(Ok(duty_ns)) && nanos_of(duty) == duty_ns,
                Err(error) => self.duty_read(Err(error)),
            },
    ;

    /// Sets the active time to the low 32 bits of its nanoseconds.
    fn set_duty(&mut self, duty: Duration) -> (r: GpioResult<()>)
        ensures
            Self::duty_set(old(self), final(self), low_word(nanos_of(duty)), r),
    ;
}

impl<P: PwmPin> PwmExtension for P {
    fn period(&self) -> (r: GpioResult<Duration>) {
        let period_ns: u32 = self.period_ns()?;
        Ok(duration_from_nanos(period_ns as u64))
    }

    fn set_period(&mut self, period: Duration) -> (r: GpioResult<()>) {
        let period_ns: u32 = truncate_nanos(duration_as_nanos(&period));
        self.set_period_ns(period_ns)
    }

    fn duty(&self) -> (r: GpioResult<Duration>) {
        let duty_ns: u32 = self.duty_ns()?;
        Ok(duration_from_nanos(duty_ns as u64))
    }

    fn set_duty(&mut self, duty: Duration) -> (r: GpioResult<()>) {
        let duty_ns: u32 = truncate_nanos(duration_as_nanos(&duty));
        self.set_duty_ns(duty_ns)
    }
}

} // verus!
