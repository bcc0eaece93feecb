//! The clock generator: its modes and sources, and the interface of a channel.

pub mod raw;

use crate::error::{GpioError, GpioResult};
use std::fmt::Debug;
use vstd::prelude::*;

verus! {

/// A channel of the clock generator. The divisor is a fixed-point number in
/// units of 1/1024: the value `1024 * i + f` stands for `i + f / 1024`.
pub trait ClockDriver: Debug {
    /// Whether the channel is enabled.
    fn enabled(&self) -> GpioResult<bool>;

    /// Enables or disables the channel.
    fn set_enabled(&mut self, enabled: bool) -> GpioResult<()>;

    /// The mash mode.
    fn mash_mode(&self) -> GpioResult<MashMode>;

    /// Sets the mash mode.
    fn set_mash_mode(&mut self, mode: MashMode) -> GpioResult<()>;

    /// The source.
    fn source(&self) -> GpioResult<ClockSource>;

    /// Sets the source.
    fn set_source(&mut self, source: ClockSource) -> GpioResult<()>;

    /// The divisor, in units of 1/1024.
    fn divisor(&self) -> GpioResult<u32>;

    /// Sets the divisor, in units of 1/1024.
    fn set_divisor(&mut self, divisor: u32) -> GpioResult<()>;
}

/// The noise-shaping mode of a channel, which trades stability for a
/// fractional divisor.
#[derive(Copy, Clone, Debug, PartialEq, Eq, Structural)]
pub enum MashMode {
    /// Integer division.
    NoMash,
    /// One-stage shaping.
    Mash1,
    /// Two-stage shaping.
    Mash2,
    /// Three-stage shaping.
    Mash3,
}

impl MashMode {
    /// The code of the mode in the control register.
    pub open spec fn index_of(self) -> u8 {
        match self {
            MashMode::NoMash => 0,
            MashMode::Mash1 => 1,
            MashMode::Mash2 => 2,
            MashMode::Mash3 => 3,
        }
    }

    /// The mode with a code: `InvalidArgument` for a code above 3.
    pub fn from_index(index: u8) -> (r: GpioResult<Self>)
        ensures
            index > 3 <==> r == Err::<MashMode, GpioError>(GpioError::InvalidArgument),
            index <= 3 <==> r is Ok,
            r matches Ok(mode) ==> mode.index_of() == index,
    {
        match index {
            0 => Ok(MashMode::NoMash),
            1 => Ok(MashMode::Mash1),
            2 => Ok(MashMode::Mash2),
            3 => Ok(MashMode::Mash3),
            _ => Err(GpioError::InvalidArgument),
        }
    }

    /// The code of the mode in the control register.
    pub fn to_index(&self) -> (index: u8)
        ensures
            index == self.index_of(),
            index <= 3,
    {
        match self {
            MashMode::NoMash => 0,
            MashMode::Mash1 => 1,
            MashMode::Mash2 => 2,
            MashMode::Mash3 => 3,
        }
    }
}

/// The source that feeds a channel.
#[derive(Copy, Clone, Debug, PartialEq, Eq, Structural)]
pub enum ClockSource {
    /// Ground: no clock.
    Ground,
    /// The crystal oscillator.
    Oscillator,
    /// Test and debug input 0.
    TestDebug0,
    /// Test and debug input 1.
    TestDebug1,
    /// Phase-locked loop A.
    PllA,
    /// Phase-locked loop C.
    PllC,
    /// Phase-locked loop D.
    PllD,
    /// The auxiliary clock of the display interface.
    HdmiAuxiliary,
}

impl ClockSource {
    /// The code of the source in the control register.
    pub open spec fn index_of(self) -> u32 {
        match self {
            ClockSource::Ground => 0,
            ClockSource::Oscillator => 1,
            ClockSource::TestDebug0 => 2,
            ClockSource::TestDebug1 => 3,
            ClockSource::PllA => 4,
            ClockSource::PllC => 5,
            ClockSource::PllD => 6,
            ClockSource::HdmiAuxiliary => 7,
        }
    }

    /// The source that a code selects: the codes above 7 select ground.
    pub open spec fn of_index(index: u32) -> ClockSource {
        if index == 1 {
            ClockSource::Oscillator
        } else if index == 2 {
            ClockSource::TestDebug0
        } else if index == 3 {
            ClockSource::TestDebug1
        } else if index == 4 {
            ClockSource::PllA
        } else if index == 5 {
            ClockSource::PllC
        } else if index == 6 {
            ClockSource::PllD
        } else if index == 7 {
            ClockSource::HdmiAuxiliary
        } else {
            ClockSource::Ground
        }
    }

    /// The source that a code selects. Every code selects one: the codes
    /// above 7 select ground.
    pub fn from_index(index: u32) -> (r: GpioResult<Self>)
        ensures
            r == Ok::<ClockSource, GpioError>(ClockSource::of_index(index)),
    {
        match index {
            1 => Ok(ClockSource::Oscillator),
            2 => Ok(ClockSource::TestDebug0),
            3 => Ok(ClockSource::TestDebug1),
            4 => Ok(ClockSource::PllA),
            5 => Ok(ClockSource::PllC),
            6 => Ok(ClockSource::PllD),
            7 => Ok(ClockSource::HdmiAuxiliary),
            _ => Ok(ClockSource::Ground),
        }
    }

    /// The code of the source in the control register.
    pub fn to_index(&self) -> (index: u32)
        ensures
            index == self.index_of(),
            index <= 7,
    {
        match self {
            ClockSource::Ground => 0,
            ClockSource::Oscillator => 1,
            ClockSource::TestDebug0 => 2,
            ClockSource::TestDebug1 => 3,
            ClockSource::PllA => 4,
            ClockSource::PllC => 5,
            ClockSource::PllD => 6,
            ClockSource::HdmiAuxiliary => 7,
        }
    }
}

/// A mode is the mode of its code.
pub proof fn law_mash_mode_round_trip(mode: MashMode)
    ensures
        mode.index_of() <= 3,
        forall|other: MashMode| other.index_of() == mode.index_of() ==> other == mode,
{
}

/// A source is the source of its code.
pub proof fn law_clock_source_round_trip(source: ClockSource)
    ensures
        ClockSource::of_index(source.index_of()) == source,
{
}

} // verus!
