//! Pin policies and the interfaces that a pin backend offers.

use crate::error::{GpioError, GpioResult};
use std::fmt::Debug;
use vstd::prelude::*;

verus! {

/// Which physical level counts as logical `true`.
#[derive(Copy, Clone, Debug, PartialEq, Eq, Structural)]
pub enum GpioActiveLevel {
    /// Logical `true` is a high line.
    High,
    /// Logical `true` is a low line.
    Low,
}

impl GpioActiveLevel {
    /// The physical level for a logical value, and the logical value for a
    /// physical level: the mapping is its own inverse.
    pub open spec fn state_of(self, value: bool) -> bool {
        match self {
            GpioActiveLevel::High => value,
            GpioActiveLevel::Low => !value,
        }
    }

    /// Maps a logical value to the physical level, or back.
    pub fn get_state(&self, value: bool) -> (state: bool)
        ensures
            state == self.state_of(value),
    {
        match self {
            GpioActiveLevel::High => value,
            GpioActiveLevel::Low => !value,
        }
    }
}

/// The mapping of an active level is its own inverse: what is read back from
/// a line is what was written to it.
pub proof fn law_active_level_is_its_own_inverse(level: GpioActiveLevel, value: bool)
    ensures
        level.state_of(level.state_of(value)) == value,
{
}

impl Default for GpioActiveLevel {
    fn default() -> (level: Self)
        ensures
            level == GpioActiveLevel::High,
    {
        GpioActiveLevel::High
    }
}

/// The pull resistor of a pin.
#[derive(Copy, Clone, Debug, PartialEq, Eq, Structural)]
pub enum GpioBias {
    /// No resistor.
    NoBias,
    /// Pulled to the supply.
    PullUp,
    /// Pulled to ground.
    PullDown,
}

impl Default for GpioBias {
    fn default() -> (bias: Self)
        ensures
            bias == GpioBias::NoBias,
    {
        GpioBias::NoBias
    }
}

/// How an output drives its line.
#[derive(Copy, Clone, Debug, PartialEq, Eq, Structural)]
pub enum GpioDriveMode {
    /// Drives both levels.
    PushPull,
    /// Drives low, floats when high.
    OpenDrain,
    /// Drives high, floats when low.
    OpenSource,
}

impl GpioDriveMode {
    /// The level to drive for a physical value, or `None` where the line is
    /// left floating.
    pub open spec fn state_of(self, value: bool) -> Option<bool> {
        match self {
            GpioDriveMode::PushPull => Some(value),
            GpioDriveMode::OpenDrain => if value { None } else { Some(false) },
            GpioDriveMode::OpenSource => if value { Some(true) } else { None },
        }
    }

    /// The level to drive for a physical value: `Some(level)` where the pin
    /// drives the line, `None` where it leaves the line floating.
    pub fn get_state(&self, value: bool) -> (state: Option<bool>)
        ensures
            state == self.state_of(value),
    {
        match self {
            GpioDriveMode::PushPull => Some(value),
            GpioDriveMode::OpenDrain => if value { None } else { Some(false) },
            GpioDriveMode::OpenSource => if value { Some(true) } else { None },
        }
    }
}

impl Default for GpioDriveMode {
    fn default() -> (mode: Self)
        ensures
            mode == GpioDriveMode::PushPull,
    {
        GpioDriveMode::PushPull
    }
}

/// A pin that is read.
pub trait GpioInput: Debug {
    /// Whether a read of the pin can give a result. What a pin can give is
    /// for its backend to say; a backend that says nothing can give anything.
    open spec fn read_gives(&self, r: GpioResult<bool>) -> bool {
        true
    }

    /// Samples the pin.
    fn read(&self) -> (r: GpioResult<bool>)
        ensures
            self.read_gives(r),
    ;
}

/// A pin that is driven.
pub trait GpioOutput: Debug {
    /// Whether a write of a value to the pin can give a result.
    open spec fn write_gives(&self, value: bool, r: GpioResult<()>) -> bool {
        true
    }

    /// Drives the pin.
    fn write(&self, value: bool) -> (r: GpioResult<()>)
        ensures
            self.write_gives(value, r),
    ;
}

/// A leased pin, to be used as an input or as an output.
pub trait GpioPin: Debug {
    /// The input view of the pin.
    type Input<'a>: GpioInput where Self: 'a;

    /// The output view of the pin.
    type Output<'a>: GpioOutput where Self: 'a;

    /// Switches the pin to input and hands out its input view.
    fn as_input(&mut self) -> GpioResult<Self::Input<'_>>;

    /// Switches the pin to output and hands out its output view.
    fn as_output(&mut self) -> GpioResult<Self::Output<'_>>;

    /// Whether the backend can set the active level of the pin. A backend that
    /// says nothing can.
    open spec fn active_level_settable(&self) -> bool {
        true
    }

    /// Whether setting the active level can take the pin from one state to
    /// another and give a result other than a refusal. What a backend does
    /// is for it to say; a backend that says nothing can do anything.
    open spec fn active_level_set(before: &Self, after: &Self, level: GpioActiveLevel, r: GpioResult<()>) -> bool {
        true
    }

    /// Whether the backend can set the bias of the pin. A backend that
    /// says nothing can.
    open spec fn bias_settable(&self) -> bool {
        true
    }

    /// Whether setting the bias can take the pin from one state to
    /// another and give a result other than a refusal. What a backend does
    /// is for it to say; a backend that says nothing can do anything.
    open spec fn bias_set(before: &Self, after: &Self, bias: GpioBias, r: GpioResult<()>) -> bool {
        true
    }

    /// Whether the backend can set the drive mode of the pin. A backend that
    /// says nothing can.
    open spec fn drive_mode_settable(&self) -> bool {
        true
    }

    /// Whether setting the drive mode can take the pin from one state to
    /// another and give a result other than a refusal. What a backend does
    /// is for it to say; a backend that says nothing can do anything.
    open spec fn drive_mode_set(before: &Self, after: &Self, mode: GpioDriveMode, r: GpioResult<()>) -> bool {
        true
    }

    /// Whether the active level can be set. A backend that cannot set it
    /// does not say that it can.
    fn supports_active_level(&self) -> (supported: bool)
        ensures
            supported ==> self.active_level_settable(),
    {
        false
    }

    /// The active level: high where the backend cannot set it.
    fn active_level(&self) -> (level: GpioActiveLevel)
        ensures
            !self.active_level_settable() ==> level == GpioActiveLevel::High,
    {
        GpioActiveLevel::High
    }

    /// Sets the active level; `NotSupported` where the backend cannot. Any
    /// other result is what the backend gave for that level.
    fn set_active_level(&mut self, _level: GpioActiveLevel) -> (r: GpioResult<()>)
        ensures
            !old(self).active_level_settable() ==> r == Err::<(), GpioError>(
                GpioError::NotSupported,
            ),
            r != Err::<(), GpioError>(GpioError::NotSupported) ==> Self::active_level_set(
                old(self),
                final(self),
                _level,
                r,
            ),
    {
        Err(GpioError::NotSupported)
    }

    /// Whether the bias can be set. A backend that cannot set it does not say
    /// that it can.
    fn supports_bias(&self) -> (supported: bool)
        ensures
            supported ==> self.bias_settable(),
    {
        false
    }

    /// The bias: none where the backend cannot set it.
    fn bias(&self) -> (bias: GpioBias)
        ensures
            !self.bias_settable() ==> bias == GpioBias::NoBias,
    {
        GpioBias::NoBias
    }

    /// Sets the bias; `NotSupported` where the backend cannot. Any other
    /// result is what the backend gave for that bias.
    fn set_bias(&mut self, _bias: GpioBias) -> (r: GpioResult<()>)
        ensures
            !old(self).bias_settable() ==> r == Err::<(), GpioError>(GpioError::NotSupported),
            r != Err::<(), GpioError>(GpioError::NotSupported) ==> Self::bias_set(
                old(self),
                final(self),
                _bias,
                r,
            ),
    {
        Err(GpioError::NotSupported)
    }

    /// Whether the drive mode can be set. A backend that cannot set it does
    /// not say that it can.
    fn supports_drive_mode(&self) -> (supported: bool)
        ensures
            supported ==> self.drive_mode_settable(),
    {
        false
    }

    /// The drive mode: push-pull where the backend cannot set it.
    fn drive_mode(&self) -> (mode: GpioDriveMode)
        ensures
            !self.drive_mode_settable() ==> mode == GpioDriveMode::PushPull,
    {
        GpioDriveMode::PushPull
    }

    /// Sets the drive mode; `NotSupported` where the backend cannot. Any
    /// other result is what the backend gave for that mode.
    fn set_drive_mode(&mut self, _mode: GpioDriveMode) -> (r: GpioResult<()>)
        ensures
            !old(self).drive_mode_settable() ==> r == Err::<(), GpioError>(
                GpioError::NotSupported,
            ),
            r != Err::<(), GpioError>(GpioError::NotSupported) ==> Self::drive_mode_set(
                old(self),
                final(self),
                _mode,
                r,
            ),
    {
        Err(GpioError::NotSupported)
    }

    /// The pin with another active level, as the backend set it, or the
    /// error that setting it gave: `NotSupported` where the backend cannot
    /// set it.
    fn with_active_level(self, level: GpioActiveLevel) -> (r: GpioResult<Self>) where Self: Sized
        ensures
            !self.active_level_settable() ==> r matches Err(GpioError::NotSupported),
            r matches Ok(set) ==> Self::active_level_set(&self, &set, level, Ok(())),
            r matches Err(error) ==> error == GpioError::NotSupported || exists|after: Self|
                #[trigger] Self::active_level_set(&self, &after, level, Err(error)),
    {
        let mut pin = self;
        let set: GpioResult<()> = pin.set_active_level(level);
        match set {
            Ok(_) => {
                assert(set->Ok_0 =~= ());
                Ok(pin)
            },
            Err(error) => {
                assert(error != GpioError::NotSupported ==> Self::active_level_set(
                    &self,
                    &pin,
                    level,
                    Err(error),
                ));
                Err(error)
            },
        }
    }

    /// The pin with another bias, or the error that setting it gave:
    /// `NotSupported` where the backend cannot set it.
    fn with_bias(self, bias: GpioBias) -> (r: GpioResult<Self>) where Self: Sized
        ensures
            !self.bias_settable() ==> r matches Err(GpioError::NotSupported),
            r matches Ok(set) ==> Self::bias_set(&self, &set, bias, Ok(())),
            r matches Err(error) ==> error == GpioError::NotSupported || exists|after: Self|
                #[trigger] Self::bias_set(&self, &after, bias, Err(error)),
    {
        let mut pin = self;
        let set: GpioResult<()> = pin.set_bias(bias);
        match set {
            Ok(_) => {
                assert(set->Ok_0 =~= ());
                Ok(pin)
            },
            Err(error) => {
                assert(error != GpioError::NotSupported ==> Self::bias_set(
                    &self,
                    &pin,
                    bias,
                    Err(error),
                ));
                Err(error)
            },
        }
    }
}

/// A bus of `N` pins that is read.
pub trait GpioBusInput<const N: usize>: Debug {
    /// Whether a read of the bus can give a result.
    open spec fn read_gives(&self, r: GpioResult<[bool; N]>) -> bool {
        true
    }

    /// Samples every pin of the bus.
    fn read(&self) -> (r: GpioResult<[bool; N]>)
        ensures
            self.read_gives(r),
    ;
}

/// A bus of `N` pins that is driven.
pub trait GpioBusOutput<const N: usize>: Debug {
    /// Whether a write of values to the bus can give a result.
    open spec fn write_gives(&self, values: [bool; N], r: GpioResult<()>) -> bool {
        true
    }

    /// Drives every pin of the bus.
    fn write(&self, values: &[bool; N]) -> (r: GpioResult<()>)
        ensures
            self.write_gives(*values, r),
    ;
}

/// A leased bus of `N` pins under one policy.
pub trait GpioBus<const N: usize>: Debug {
    /// The input view of the bus.
    type Input<'a>: GpioBusInput<N> where Self: 'a;

    /// The output view of the bus.
    type Output<'a>: GpioBusOutput<N> where Self: 'a;

    /// Switches the bus to input and hands out its input view.
    fn as_input(&mut self) -> GpioResult<Self::Input<'_>>;

    /// Switches the bus to output and hands out its output view.
    fn as_output(&mut self) -> GpioResult<Self::Output<'_>>;

    /// Whether the backend can set the active level of the bus. A backend that
    /// says nothing can.
    open spec fn active_level_settable(&self) -> bool {
        true
    }

    /// Whether setting the active level can take the bus from one state to
    /// another and give a result other than a refusal. What a backend does
    /// is for it to say; a backend that says nothing can do anything.
    open spec fn active_level_set(before: &Self, after: &Self, level: GpioActiveLevel, r: GpioResult<()>) -> bool {
        true
    }

    /// Whether the backend can set the bias of the bus. A backend that
    /// says nothing can.
    open spec fn bias_settable(&self) -> bool {
        true
    }

    /// Whether setting the bias can take the bus from one state to
    /// another and give a result other than a refusal. What a backend does
    /// is for it to say; a backend that says nothing can do anything.
    open spec fn bias_set(before: &Self, after: &Self, bias: GpioBias, r: GpioResult<()>) -> bool {
        true
    }

    /// Whether the backend can set the drive mode of the bus. A backend that
    /// says nothing can.
    open spec fn drive_mode_settable(&self) -> bool {
        true
    }

    /// Whether setting the drive mode can take the bus from one state to
    /// another and give a result other than a refusal. What a backend does
    /// is for it to say; a backend that says nothing can do anything.
    open spec fn drive_mode_set(before: &Self, after: &Self, mode: GpioDriveMode, r: GpioResult<()>) -> bool {
        true
    }

    /// Whether the active level can be set. A backend that cannot set it
    /// does not say that it can.
    fn supports_active_level(&self) -> (supported: bool)
        ensures
            supported ==> self.active_level_settable(),
    {
        false
    }

    /// The active level: high where the backend cannot set it.
    fn active_level(&self) -> (level: GpioActiveLevel)
        ensures
            !self.active_level_settable() ==> level == GpioActiveLevel::High,
    {
        GpioActiveLevel::High
    }

    /// Sets the active level; `NotSupported` where the backend cannot. Any
    /// other result is what the backend gave for that level.
    fn set_active_level(&mut self, _level: GpioActiveLevel) -> (r: GpioResult<()>)
        ensures
            !old(self).active_level_settable() ==> r == Err::<(), GpioError>(
                GpioError::NotSupported,
            ),
            r != Err::<(), GpioError>(GpioError::NotSupported) ==> Self::active_level_set(
                old(self),
                final(self),
                _level,
                r,
            ),
    {
        Err(GpioError::NotSupported)
    }

    /// Whether the bias can be set. A backend that cannot set it does not say
    /// that it can.
    fn supports_bias(&self) -> (supported: bool)
        ensures
            supported ==> self.bias_settable(),
    {
        false
    }

    /// The bias: none where the backend cannot set it.
    fn bias(&self) -> (bias: GpioBias)
        ensures
            !self.bias_settable() ==> bias == GpioBias::NoBias,
    {
        GpioBias::NoBias
    }

    /// Sets the bias; `NotSupported` where the backend cannot. Any other
    /// result is what the backend gave for that bias.
    fn set_bias(&mut self, _bias: GpioBias) -> (r: GpioResult<()>)
        ensures
            !old(self).bias_settable() ==> r == Err::<(), GpioError>(GpioError::NotSupported),
            r != Err::<(), GpioError>(GpioError::NotSupported) ==> Self::bias_set(
                old(self),
                final(self),
                _bias,
                r,
            ),
    {
        Err(GpioError::NotSupported)
    }

    /// Whether the drive mode can be set. A backend that cannot set it does
    /// not say that it can.
    fn supports_drive_mode(&self) -> (supported: bool)
        ensures
            supported ==> self.drive_mode_settable(),
    {
        false
    }

    /// The drive mode: push-pull where the backend cannot set it.
    fn drive_mode(&self) -> (mode: GpioDriveMode)
        ensures
            !self.drive_mode_settable() ==> mode == GpioDriveMode::PushPull,
    {
        GpioDriveMode::PushPull
    }

    /// Sets the drive mode; `NotSupported` where the backend cannot. Any
    /// other result is what the backend gave for that mode.
    fn set_drive_mode(&mut self, _mode: GpioDriveMode) -> (r: GpioResult<()>)
        ensures
            !old(self).drive_mode_settable() ==> r == Err::<(), GpioError>(
                GpioError::NotSupported,
            ),
            r != Err::<(), GpioError>(GpioError::NotSupported) ==> Self::drive_mode_set(
                old(self),
                final(self),
                _mode,
                r,
            ),
    {
        Err(GpioError::NotSupported)
    }

    /// The bus with another active level, or the error that setting it
    /// gave: `NotSupported` where the backend cannot set it.
    fn with_active_level(self, level: GpioActiveLevel) -> (r: GpioResult<Self>) where Self: Sized
        ensures
            !self.active_level_settable() ==> r matches Err(GpioError::NotSupported),
            r matches Ok(set) ==> Self::active_level_set(&self, &set, level, Ok(())),
            r matches Err(error) ==> error == GpioError::NotSupported || exists|after: Self|
                #[trigger] Self::active_level_set(&self, &after, level, Err(error)),
    {
        let mut bus = self;
        let set: GpioResult<()> = bus.set_active_level(level);
        match set {
            Ok(_) => {
                assert(set->Ok_0 =~= ());
                Ok(bus)
            },
            Err(error) => {
                assert(error != GpioError::NotSupported ==> Self::active_level_set(
                    &self,
                    &bus,
                    level,
                    Err(error),
                ));
                Err(error)
            },
        }
    }

    /// The bus with another bias, or the error that setting it gave:
    /// `NotSupported` where the backend cannot set it.
    fn with_bias(self, bias: GpioBias) -> (r: GpioResult<Self>) where Self: Sized
        ensures
            !self.bias_settable() ==> r matches Err(GpioError::NotSupported),
            r matches Ok(set) ==> Self::bias_set(&self, &set, bias, Ok(())),
            r matches Err(error) ==> error == GpioError::NotSupported || exists|after: Self|
                #[trigger] Self::bias_set(&self, &after, bias, Err(error)),
    {
        let mut bus = self;
        let set: GpioResult<()> = bus.set_bias(bias);
        match set {
            Ok(_) => {
                assert(set->Ok_0 =~= ());
                Ok(bus)
            },
            Err(error) => {
                assert(error != GpioError::NotSupported ==> Self::bias_set(
                    &self,
                    &bus,
                    bias,
                    Err(error),
                ));
                Err(error)
            },
        }
    }
}

/// A backend that leases pins.
pub trait GpioDriver: Debug {
    /// The pin handle.
    type Pin<'a>: GpioPin where Self: 'a;

    /// The number of pins.
    fn count(&self) -> GpioResult<usize>;

    /// Leases one pin.
    fn get_pin(&self, index: usize) -> GpioResult<Self::Pin<'_>>;
}

/// A backend that leases buses of `N` pins.
pub trait GpioBusDriver<const N: usize>: GpioDriver {
    /// The bus handle.
    type Bus<'a>: GpioBus<N> where Self: 'a;

    /// Leases a bus, all of its pins or none.
    fn get_pin_bus(&self, indices: [usize; N]) -> GpioResult<Self::Bus<'_>>;
}

/// Whether bit `i` of `value` is set.
pub open spec fn bit_of(value: u8, i: int) -> bool {
    ((value as u32) >> (i as u32)) & 1 == 1
}

/// The wiring of a bus: line `i` carries bit `i` of the value.
pub open spec fn carries(lines: Seq<bool>, value: u8) -> bool {
    forall|i: int| 0 <= i < lines.len() ==> lines[i] == #[trigger] bit_of(value, i)
}

proof fn lemma_or_bit(low: u32, i: u32, j: u32)
    by (bit_vector)
    requires
        i < 8,
        j < i,
        low < (1u32 << i),
    ensures
        ((low | (1u32 << i)) >> j) & 1 == (low >> j) & 1,
        ((low | (1u32 << i)) >> i) & 1 == 1,
        (low >> i) & 1 == 0,
        (low | (1u32 << i)) < (1u32 << ((i + 1) as u32)),
        low < (1u32 << ((i + 1) as u32)),
{
}

proof fn lemma_or_first_bit(low: u32, i: u32)
    by (bit_vector)
    requires
        i < 8,
        low < (1u32 << i),
    ensures
        ((low | (1u32 << i)) >> i) & 1 == 1,
        (low >> i) & 1 == 0,
        (low | (1u32 << i)) < (1u32 << ((i + 1) as u32)),
        low < (1u32 << ((i + 1) as u32)),
{
}

proof fn lemma_same_bits(a: u8, b: u8)
    by (bit_vector)
    requires
        (((a as u32) >> 0u32) & 1 == 1) == (((b as u32) >> 0u32) & 1 == 1),
        (((a as u32) >> 1u32) & 1 == 1) == (((b as u32) >> 1u32) & 1 == 1),
        (((a as u32) >> 2u32) & 1 == 1) == (((b as u32) >> 2u32) & 1 == 1),
        (((a as u32) >> 3u32) & 1 == 1) == (((b as u32) >> 3u32) & 1 == 1),
        (((a as u32) >> 4u32) & 1 == 1) == (((b as u32) >> 4u32) & 1 == 1),
        (((a as u32) >> 5u32) & 1 == 1) == (((b as u32) >> 5u32) & 1 == 1),
        (((a as u32) >> 6u32) & 1 == 1) == (((b as u32) >> 6u32) & 1 == 1),
        (((a as u32) >> 7u32) & 1 == 1) == (((b as u32) >> 7u32) & 1 == 1),
    ensures
        a == b,
{
}

proof fn lemma_same_low_bits(a: u8, b: u8)
    by (bit_vector)
    requires
        a < 16,
        b < 16,
        (((a as u32) >> 0u32) & 1 == 1) == (((b as u32) >> 0u32) & 1 == 1),
        (((a as u32) >> 1u32) & 1 == 1) == (((b as u32) >> 1u32) & 1 == 1),
        (((a as u32) >> 2u32) & 1 == 1) == (((b as u32) >> 2u32) & 1 == 1),
        (((a as u32) >> 3u32) & 1 == 1) == (((b as u32) >> 3u32) & 1 == 1),
    ensures
        a == b,
{
}

proof fn lemma_mask_is_bit(value: u8, i: u32)
    by (bit_vector)
    requires
        i < 8,
    ensures
        ((value as u32) & (1u32 << i) != 0) == (((value as u32) >> i) & 1 == 1),
{
}

/// A byte is determined by the eight lines that carry it.
pub proof fn law_byte_unique(lines: Seq<bool>, a: u8, b: u8)
    requires
        lines.len() == 8,
        carries(lines, a),
        carries(lines, b),
    ensures
        a == b,
{
    assert(bit_of(a, 0) == bit_of(b, 0));
    assert(bit_of(a, 1) == bit_of(b, 1));
    assert(bit_of(a, 2) == bit_of(b, 2));
    assert(bit_of(a, 3) == bit_of(b, 3));
    assert(bit_of(a, 4) == bit_of(b, 4));
    assert(bit_of(a, 5) == bit_of(b, 5));
    assert(bit_of(a, 6) == bit_of(b, 6));
    assert(bit_of(a, 7) == bit_of(b, 7));
    lemma_same_bits(a, b);
}

/// A nibble is determined by the four lines that carry it.
pub proof fn law_nibble_unique(lines: Seq<bool>, a: u8, b: u8)
    requires
        lines.len() == 4,
        a < 16,
        b < 16,
        carries(lines, a),
        carries(lines, b),
    ensures
        a == b,
{
    assert(bit_of(a, 0) == bit_of(b, 0));
    assert(bit_of(a, 1) == bit_of(b, 1));
    assert(bit_of(a, 2) == bit_of(b, 2));
    assert(bit_of(a, 3) == bit_of(b, 3));
    lemma_same_low_bits(a, b);
}

/// Whether bit `i` of a word is set.
spec fn word_bit(word: u32, i: int) -> bool {
    ((word >> (i as u32)) & 1) == 1
}

/// The value that `width` lines carry, line `i` as bit `i`.
fn lines_to_value(lines: &[bool], width: usize) -> (value: u8)
    requires
        width <= 8,
        lines@.len() == width,
    ensures
        carries(lines@, value),
        (value as u32) < (1u32 << (width as u32)),
{
    let mut acc: u32 = 0;
    let mut i: usize = 0;
    assert(0u32 < (1u32 << 0u32)) by (bit_vector);
    while i < width
        invariant
            i <= width <= 8,
            lines@.len() == width,
            acc < (1u32 << (i as u32)),
            forall|j: int| 0 <= j < i ==> lines@[j] == #[trigger] word_bit(acc, j),
        decreases width - i,
    {
        let ghost before: u32 = acc;
        let ghost with_bit: u32 = before | (1u32 << (i as u32));
        proof {
            lemma_or_first_bit(before, i as u32);
            assert forall|j: int| 0 <= j < i implies #[trigger] word_bit(with_bit, j) == word_bit(
                before,
                j,
            ) by {
                lemma_or_bit(before, i as u32, j as u32);
            }
        }
        if lines[i] {
            acc = acc | (1u32 << (i as u32));
        }
        i += 1;
    }
    assert(acc < 256) by {
        let w: u32 = width as u32;
        assert(w <= 8 ==> (1u32 << w) <= 256) by (bit_vector);
    }
    let value: u8 = acc as u8;
    assert(value as u32 == acc);
    assert forall|j: int| 0 <= j < lines@.len() implies lines@[j] == #[trigger] bit_of(
        value,
        j,
    ) by {
        assert(word_bit(acc, j) == bit_of(value, j));
    }
    value
}

/// The byte that eight lines carry.
pub fn lines_to_byte(lines: &[bool; 8]) -> (value: u8)
    ensures
        carries(lines@, value),
{
    lines_to_value(lines.as_slice(), 8)
}

/// The nibble that four lines carry.
pub fn lines_to_nibble(lines: &[bool; 4]) -> (value: u8)
    ensures
        value < 16,
        carries(lines@, value),
{
    let value: u8 = lines_to_value(lines.as_slice(), 4);
    assert((1u32 << 4u32) == 16) by (bit_vector);
    value
}

/// The eight lines that carry a byte.
pub fn byte_to_lines(value: u8) -> (lines: [bool; 8])
    ensures
        carries(lines@, value),
{
    let mut lines: [bool; 8] = [false; 8];
    let mut i: usize = 0;
    while i < 8
        invariant
            i <= 8,
            forall|j: int| 0 <= j < i ==> lines@[j] == bit_of(value, j),
        decreases 8 - i,
    {
        proof {
            lemma_mask_is_bit(value, i as u32);
        }
        lines[i] = ((value as u32) & (1u32 << (i as u32))) != 0;
        i += 1;
    }
    lines
}

/// The four lines that carry a nibble; `InvalidArgument` for a value of 16 or
/// more.
pub fn nibble_to_lines(value: u8) -> (r: GpioResult<[bool; 4]>)
    ensures
        value > 15 <==> r == Err::<[bool; 4], GpioError>(GpioError::InvalidArgument),
        value <= 15 <==> r is Ok,
        r matches Ok(lines) ==> carries(lines@, value),
{
    if value > 0b1111 {
        return Err(GpioError::InvalidArgument);
    }
    let mut lines: [bool; 4] = [false; 4];
    let mut i: usize = 0;
    while i < 4
        invariant
            i <= 4,
            forall|j: int| 0 <= j < i ==> lines@[j] == bit_of(value, j),
        decreases 4 - i,
    {
        proof {
            lemma_mask_is_bit(value, i as u32);
        }
        lines[i] = ((value as u32) & (1u32 << (i as u32))) != 0;
        i += 1;
    }
    Ok(lines)
}

/// What the lines read back after a value was put on them is that value.
pub proof fn law_lines_round_trip(lines: Seq<bool>, written: u8, read: u8)
    requires
        lines.len() == 8 || (lines.len() == 4 && written < 16 && read < 16),
        carries(lines, written),
        carries(lines, read),
    ensures
        read == written,
{
    if lines.len() == 8 {
        law_byte_unique(lines, written, read);
    } else {
        law_nibble_unique(lines, written, read);
    }
}

/// Whether a read of a bus as a value can give a result: the value that the
/// lines carry where the bus gave lines, and the error of the bus else.
pub open spec fn value_read<const N: usize, B: GpioBusInput<N>>(bus: &B, r: GpioResult<u8>) -> bool {
    match r {
        Ok(value) => exists|lines: [bool; N]| #[trigger]
            bus.read_gives(Ok(lines)) && carries(lines@, value),
        Err(error) => bus.read_gives(Err(error)),
    }
}

/// Whether a write of a value to a bus can give a result: what the bus gave
/// for the lines that carry the value.
pub open spec fn value_written<const N: usize, B: GpioBusOutput<N>>(
    bus: &B,
    value: u8,
    r: GpioResult<()>,
) -> bool {
    exists|lines: [bool; N]| carries(lines@, value) && #[trigger] bus.write_gives(lines, r)
}

/// Reads a bus of eight pins as a byte, pin `i` as bit `i`. An error of the
/// bus is handed on.
pub fn read_byte<B: GpioBusInput<8>>(bus: &B) -> (r: GpioResult<u8>)
    ensures
        value_read::<8, B>(bus, r),
{
    let values: [bool; 8] = <B as GpioBusInput<8>>::read(bus)?;
    Ok(lines_to_byte(&values))
}

/// Reads a bus of four pins as a nibble, pin `i` as bit `i`. An error of the
/// bus is handed on.
pub fn read_nibble<B: GpioBusInput<4>>(bus: &B) -> (r: GpioResult<u8>)
    ensures
        r matches Ok(value) ==> value < 16,
        value_read::<4, B>(bus, r),
{
    let values: [bool; 4] = <B as GpioBusInput<4>>::read(bus)?;
    Ok(lines_to_nibble(&values))
}

/// Drives a bus of eight pins with a byte, bit `i` on pin `i`. An error of the
/// bus is handed on.
pub fn write_byte<B: GpioBusOutput<8>>(bus: &B, value: u8) -> (r: GpioResult<()>)
    ensures
        value_written::<8, B>(bus, value, r),
{
    let values: [bool; 8] = byte_to_lines(value);
    <B as GpioBusOutput<8>>::write(bus, &values)
}

/// Drives a bus of four pins with a nibble, bit `i` on pin `i`;
/// `InvalidArgument`, with nothing driven, for a value of 16 or more. An error
/// of the bus is handed on.
pub fn write_nibble<B: GpioBusOutput<4>>(bus: &B, value: u8) -> (r: GpioResult<()>)
    ensures
        value > 15 ==> r == Err::<(), GpioError>(GpioError::InvalidArgument),
        value <= 15 ==> value_written::<4, B>(bus, value, r),
{
    let values: [bool; 4] = nibble_to_lines(value)?;
    <B as GpioBusOutput<4>>::write(bus, &values)
}

} // verus!
