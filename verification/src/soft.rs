//! Buses made of single pins.

use crate::error::{GpioError, GpioResult};
use crate::gpio::{
    GpioActiveLevel, GpioBias, GpioBusInput, GpioBusOutput, GpioDriveMode, GpioInput, GpioOutput,
    GpioPin,
};
use vstd::prelude::*;

verus! {

/// A bus of `N` pins of one kind, each leased on its own.
#[derive(Debug)]
pub struct SoftGpioBus<'a, P: GpioPin, const N: usize> {
    pins: [&'a mut P; N],
}

impl<'a, P: GpioPin, const N: usize> SoftGpioBus<'a, P, N> {
    /// The pin at a place of the bus, as it is now.
    pub closed spec fn pin(&self, i: int) -> P {
        *self.pins@[i]
    }

    /// Whether the backend can set the active level of every pin.
    pub open spec fn active_level_settable(&self) -> bool {
        forall|i: int| 0 <= i < N ==> (#[trigger] self.pin(i)).active_level_settable()
    }

    /// Whether the backend can set the bias of every pin.
    pub open spec fn bias_settable(&self) -> bool {
        forall|i: int| 0 <= i < N ==> (#[trigger] self.pin(i)).bias_settable()
    }

    /// Whether the backend can set the drive mode of every pin.
    pub open spec fn drive_mode_settable(&self) -> bool {
        forall|i: int| 0 <= i < N ==> (#[trigger] self.pin(i)).drive_mode_settable()
    }

    /// A bus of the given pins, in bus order.
    pub fn new(pins: [&'a mut P; N]) -> (bus: Self)
        ensures
            forall|i: int| 0 <= i < N ==> #[trigger] bus.pin(i) == *pins@[i],
    {
        Self { pins }
    }

    /// Whether every pin lets its active level be set: `true` only where
    /// every pin says so.
    pub fn supports_active_level(&self) -> (supported: bool)
        ensures
            supported ==> self.active_level_settable(),
            N == 0 ==> supported,
    {
        let mut k: usize = 0;
        while k < N
            invariant
                k <= N,
                forall|i: int| 0 <= i < k ==> (#[trigger] self.pin(i)).active_level_settable(),
            decreases N - k,
        {
            if !self.pins[k].supports_active_level() {
                return false;
            }
            assert(self.pin(k as int).active_level_settable());
            k += 1;
        }
        true
    }

    /// Whether every pin lets its bias be set: `true` only where every pin
    /// says so.
    pub fn supports_bias(&self) -> (supported: bool)
        ensures
            supported ==> self.bias_settable(),
            N == 0 ==> supported,
    {
        let mut k: usize = 0;
        while k < N
            invariant
                k <= N,
                forall|i: int| 0 <= i < k ==> (#[trigger] self.pin(i)).bias_settable(),
            decreases N - k,
        {
            if !self.pins[k].supports_bias() {
                return false;
            }
            assert(self.pin(k as int).bias_settable());
            k += 1;
        }
        true
    }

    /// Whether every pin lets its drive mode be set: `true` only where every
    /// pin says so.
    pub fn supports_drive_mode(&self) -> (supported: bool)
        ensures
            supported ==> self.drive_mode_settable(),
            N == 0 ==> supported,
    {
        let mut k: usize = 0;
        while k < N
            invariant
                k <= N,
                forall|i: int| 0 <= i < k ==> (#[trigger] self.pin(i)).drive_mode_settable(),
            decreases N - k,
        {
            if !self.pins[k].supports_drive_mode() {
                return false;
            }
            assert(self.pin(k as int).drive_mode_settable());
            k += 1;
        }
        true
    }

    /// The active level of the first pin: high where the backend cannot set
    /// it. The bus has a pin.
    pub fn active_level(&self) -> (level: GpioActiveLevel)
        requires
            N > 0,
        ensures
            !self.pin(0).active_level_settable() ==> level == GpioActiveLevel::High,
    {
        self.pins[0].active_level()
    }

    /// Sets the active level of every pin, in bus order: `NotSupported`, with
    /// nothing set, where the backend cannot set it for every pin. Else every
    /// pin is set in turn, up to the first that gives an error, which is
    /// handed on; a bus of no pins is set at once.
    pub fn set_active_level(&mut self, level: GpioActiveLevel) -> (r: GpioResult<()>)
        ensures
            !old(self).active_level_settable() ==> r == Err::<(), GpioError>(GpioError::NotSupported),
            N == 0 ==> r is Ok,
            r is Ok ==> forall|i: int|
                0 <= i < N ==> #[trigger] P::active_level_set(
                    &old(self).pin(i),
                    &final(self).pin(i),
                    level,
                    Ok(()),
                ),
            r matches Err(error) ==> error == GpioError::NotSupported || exists|i: int|
                0 <= i < N && #[trigger] P::active_level_set(
                    &old(self).pin(i),
                    &final(self).pin(i),
                    level,
                    Err(error),
                ),
    {
        if !self.supports_active_level() {
            return Err(GpioError::NotSupported);
        }
        let mut k: usize = 0;
        while k < N
            invariant
                k <= N,
                old(self).active_level_settable(),
                forall|i: int|
                    0 <= i < k ==> #[trigger] P::active_level_set(
                        &old(self).pin(i),
                        &self.pin(i),
                        level,
                        Ok(()),
                    ),
                forall|i: int| k <= i < N ==> #[trigger] self.pin(i) == old(self).pin(i),
            decreases N - k,
        {
            let ghost before: Seq<P> = Seq::new(N as nat, |i: int| self.pin(i));
            let ghost was: P = self.pin(k as int);
            assert(was == old(self).pin(k as int));
            let set: GpioResult<()> = self.pins[k].set_active_level(level);
            assert(forall|i: int| 0 <= i < N && i != k ==> #[trigger] self.pin(i) == before[i]);
            match set {
                Ok(_) => {},
                Err(error) => {
                    assert(error != GpioError::NotSupported ==> P::active_level_set(
                        &old(self).pin(k as int),
                        &self.pin(k as int),
                        level,
                        Err(error),
                    ));
                    return Err(error);
                },
            }
            assert(set->Ok_0 =~= ());
            assert(P::active_level_set(&old(self).pin(k as int), &self.pin(k as int), level, Ok(())));
            k += 1;
        }
        Ok(())
    }

    /// The bias of the first pin: none where the backend cannot set it. The
    /// bus has a pin.
    pub fn bias(&self) -> (bias: GpioBias)
        requires
            N > 0,
        ensures
            !self.pin(0).bias_settable() ==> bias == GpioBias::NoBias,
    {
        self.pins[0].bias()
    }

    /// Sets the bias of every pin, in bus order: `NotSupported`, with
    /// nothing set, where the backend cannot set it for every pin. Else every
    /// pin is set in turn, up to the first that gives an error, which is
    /// handed on; a bus of no pins is set at once.
    pub fn set_bias(&mut self, bias: GpioBias) -> (r: GpioResult<()>)
        ensures
            !old(self).bias_settable() ==> r == Err::<(), GpioError>(GpioError::NotSupported),
            N == 0 ==> r is Ok,
            r is Ok ==> forall|i: int|
                0 <= i < N ==> #[trigger] P::bias_set(
                    &old(self).pin(i),
                    &final(self).pin(i),
                    bias,
                    Ok(()),
                ),
            r matches Err(error) ==> error == GpioError::NotSupported || exists|i: int|
                0 <= i < N && #[trigger] P::bias_set(
                    &old(self).pin(i),
                    &final(self).pin(i),
                    bias,
                    Err(error),
                ),
    {
        if !self.supports_bias() {
            return Err(GpioError::NotSupported);
        }
        let mut k: usize = 0;
        while k < N
            invariant
                k <= N,
                old(self).bias_settable(),
                forall|i: int|
                    0 <= i < k ==> #[trigger] P::bias_set(
                        &old(self).pin(i),
                        &self.pin(i),
                        bias,
                        Ok(()),
                    ),
                forall|i: int| k <= i < N ==> #[trigger] self.pin(i) == old(self).pin(i),
            decreases N - k,
        {
            let ghost before: Seq<P> = Seq::new(N as nat, |i: int| self.pin(i));
            let ghost was: P = self.pin(k as int);
            assert(was == old(self).pin(k as int));
            let set: GpioResult<()> = self.pins[k].set_bias(bias);
            assert(forall|i: int| 0 <= i < N && i != k ==> #[trigger] self.pin(i) == before[i]);
            match set {
                Ok(_) => {},
                Err(error) => {
                    assert(error != GpioError::NotSupported ==> P::bias_set(
                        &old(self).pin(k as int),
                        &self.pin(k as int),
                        bias,
                        Err(error),
                    ));
                    return Err(error);
                },
            }
            assert(set->Ok_0 =~= ());
            assert(P::bias_set(&old(self).pin(k as int), &self.pin(k as int), bias, Ok(())));
            k += 1;
        }
        Ok(())
    }

    /// The drive mode of the first pin: push-pull where the backend cannot
    /// set it. The bus has a pin.
    pub fn drive_mode(&self) -> (mode: GpioDriveMode)
        requires
            N > 0,
        ensures
            !self.pin(0).drive_mode_settable() ==> mode == GpioDriveMode::PushPull,
    {
        self.pins[0].drive_mode()
    }

    /// Sets the drive mode of every pin, in bus order: `NotSupported`, with
    /// nothing set, where the backend cannot set it for every pin. Else every
    /// pin is set in turn, up to the first that gives an error, which is
    /// handed on; a bus of no pins is set at once.
    pub fn set_drive_mode(&mut self, mode: GpioDriveMode) -> (r: GpioResult<()>)
        ensures
            !old(self).drive_mode_settable() ==> r == Err::<(), GpioError>(GpioError::NotSupported),
            N == 0 ==> r is Ok,
            r is Ok ==> forall|i: int|
                0 <= i < N ==> #[trigger] P::drive_mode_set(
                    &old(self).pin(i),
                    &final(self).pin(i),
                    mode,
                    Ok(()),
                ),
            r matches Err(error) ==> error == GpioError::NotSupported || exists|i: int|
                0 <= i < N && #[trigger] P::drive_mode_set(
                    &old(self).pin(i),
                    &final(self).pin(i),
                    mode,
                    Err(error),
                ),
    {
        if !self.supports_drive_mode() {
            return Err(GpioError::NotSupported);
        }
        let mut k: usize = 0;
        while k < N
            invariant
                k <= N,
                old(self).drive_mode_settable(),
                forall|i: int|
                    0 <= i < k ==> #[trigger] P::drive_mode_set(
                        &old(self).pin(i),
                        &self.pin(i),
                        mode,
                        Ok(()),
                    ),
                forall|i: int| k <= i < N ==> #[trigger] self.pin(i) == old(self).pin(i),
            decreases N - k,
        {
            let ghost before: Seq<P> = Seq::new(N as nat, |i: int| self.pin(i));
            let ghost was: P = self.pin(k as int);
            assert(was == old(self).pin(k as int));
            let set: GpioResult<()> = self.pins[k].set_drive_mode(mode);
            assert(forall|i: int| 0 <= i < N && i != k ==> #[trigger] self.pin(i) == before[i]);
            match set {
                Ok(_) => {},
                Err(error) => {
                    assert(error != GpioError::NotSupported ==> P::drive_mode_set(
                        &old(self).pin(k as int),
                        &self.pin(k as int),
                        mode,
                        Err(error),
                    ));
                    return Err(error);
                },
            }
            assert(set->Ok_0 =~= ());
            assert(P::drive_mode_set(&old(self).pin(k as int), &self.pin(k as int), mode, Ok(())));
            k += 1;
        }
        Ok(())
    }
}

/// Whether a read of input pins in order can give a result: the samples where
/// every pin gave one, and the error of a pin that failed else.
pub open spec fn inputs_read<I: GpioInput, const N: usize>(
    pins: Seq<&I>,
    r: GpioResult<[bool; N]>,
) -> bool {
    match r {
        Ok(values) => forall|i: int|
            0 <= i < pins.len() ==> (#[trigger] pins[i]).read_gives(Ok(values@[i])),
        Err(error) => exists|i: int|
            0 <= i < pins.len() && (#[trigger] pins[i]).read_gives(Err(error)),
    }
}

/// Whether a write of values to output pins in order can give a result:
/// success where every pin took its value, and the error of a pin that
/// failed else.
pub open spec fn outputs_written<O: GpioOutput, const N: usize>(
    pins: Seq<&O>,
    values: [bool; N],
    r: GpioResult<()>,
) -> bool {
    match r {
        Ok(_) => forall|i: int|
            0 <= i < pins.len() ==> (#[trigger] pins[i]).write_gives(values@[i], Ok(())),
        Err(error) => exists|i: int|
            0 <= i < pins.len() && (#[trigger] pins[i]).write_gives(values@[i], Err(error)),
    }
}

/// A bus of `N` input pins.
#[derive(Debug)]
pub struct SoftGpioBusInput<'a, I: GpioInput, const N: usize> {
    pins: [&'a I; N],
}

impl<'a, I: GpioInput, const N: usize> SoftGpioBusInput<'a, I, N> {
    /// The pins of the bus, in bus order.
    pub closed spec fn lines(&self) -> Seq<&I> {
        self.pins@
    }

    /// A bus of the given pins, in bus order.
    pub fn new(pins: [&'a I; N]) -> (bus: Self)
        ensures
            bus.lines() == pins@,
    {
        Self { pins }
    }
}

impl<'a, I: GpioInput, const N: usize> GpioBusInput<N> for SoftGpioBusInput<'a, I, N> {
    /// What a read of the pins in bus order can give.
    closed spec fn read_gives(&self, r: GpioResult<[bool; N]>) -> bool {
        inputs_read(self.pins@, r)
    }

    /// Samples the pins in bus order, and stops at the first that fails.
    fn read(&self) -> (r: GpioResult<[bool; N]>) {
        let mut values: [bool; N] = [false; N];
        let mut k: usize = 0;
        while k < N
            invariant
                k <= N,
                self.pins@.len() == N,
                forall|i: int|
                    0 <= i < k ==> (#[trigger] self.pins@[i]).read_gives(Ok(values@[i])),
            decreases N - k,
        {
            let sample: bool = match self.pins[k].read() {
                Ok(sample) => sample,
                Err(error) => {
                    assert(self.pins@[k as int].read_gives(Err(error)));
                    return Err(error);
                },
            };
            values[k] = sample;
            k += 1;
        }
        Ok(values)
    }
}

/// A bus of `N` output pins.
#[derive(Debug)]
pub struct SoftGpioBusOutput<'a, O: GpioOutput, const N: usize> {
    pins: [&'a O; N],
}

impl<'a, O: GpioOutput, const N: usize> SoftGpioBusOutput<'a, O, N> {
    /// The pins of the bus, in bus order.
    pub closed spec fn lines(&self) -> Seq<&O> {
        self.pins@
    }

    /// A bus of the given pins, in bus order.
    pub fn new(pins: [&'a O; N]) -> (bus: Self)
        ensures
            bus.lines() == pins@,
    {
        Self { pins }
    }
}

impl<'a, O: GpioOutput, const N: usize> GpioBusOutput<N> for SoftGpioBusOutput<'a, O, N> {
    /// What a write to the pins in bus order can give.
    closed spec fn write_gives(&self, values: [bool; N], r: GpioResult<()>) -> bool {
        outputs_written(self.pins@, values, r)
    }

    /// Drives the pins in bus order, and stops at the first that fails.
    fn write(&self, values: &[bool; N]) -> (r: GpioResult<()>) {
        let mut k: usize = 0;
        while k < N
            invariant
                k <= N,
                self.pins@.len() == N,
                forall|i: int|
                    0 <= i < k ==> (#[trigger] self.pins@[i]).write_gives(values@[i], Ok(())),
            decreases N - k,
        {
            let written: GpioResult<()> = self.pins[k].write(values[k]);
            match written {
                Ok(_) => {},
                Err(error) => {
                    assert(self.pins@[k as int].write_gives(values@[k as int], Err(error)));
                    return Err(error);
                },
            }
            assert(written->Ok_0 =~= ());
            assert(written == Ok::<(), GpioError>(()));
            k += 1;
        }
        Ok(())
    }
}

} // verus!
