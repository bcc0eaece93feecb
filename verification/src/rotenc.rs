//! A decoder for a rotary encoder with two quadrature channels.
//!
//! Turned clockwise, the two channels go through the states `(0,0)`, `(1,0)`,
//! `(1,1)`, `(0,1)` and back to `(0,0)`. The decoder is polled. It counts
//! each step of one state along that cycle, forwards or backwards, and
//! reports a rotation when the count reaches the number of pulses that the
//! encoder gives for each detent. A run of steps that has not reached it
//! within a number of polls is noise, and is dropped. A change that skips a
//! state is a misread, and is not counted.

use crate::error::{GpioError, GpioResult};
use crate::gpio::GpioInput;
use vstd::prelude::*;

verus! {

/// The direction of a rotation by one detent.
#[derive(Copy, Clone, Debug, PartialEq, Eq, Structural)]
pub enum RotEncRotation {
    /// Clockwise.
    Clockwise,
    /// Counter-clockwise.
    CounterClockwise,
}

/// The pulses for each detent of a new decoder.
pub const DEFAULT_PULSES: u8 = 2;

/// The polls within which a run has to complete, for a new decoder.
pub const DEFAULT_NOISE_TIMEOUT: u32 = 200;

/// The largest number of pulses for each detent.
pub const MAX_PULSES: u8 = 127;

/// The place of a state of the two channels in the clockwise cycle.
pub open spec fn cycle_index(state: (bool, bool)) -> int {
    match state {
        (false, false) => 0,
        (true, false) => 1,
        (true, true) => 2,
        (false, true) => 3,
    }
}

/// The step from one state to another: `1` for one state clockwise, `-1` for
/// one state counter-clockwise, `0` for no change or a skipped state.
pub open spec fn direction(previous: (bool, bool), current: (bool, bool)) -> int {
    if (cycle_index(current) + 1) % 4 == cycle_index(previous) {
        -1
    } else if (cycle_index(previous) + 1) % 4 == cycle_index(current) {
        1
    } else {
        0
    }
}

/// What a decoder knows between two polls.
pub struct RotEncModel {
    /// The last sample of the two channels.
    pub state: (bool, bool),
    /// The steps counted in the run, clockwise positive.
    pub count: int,
    /// The number of the poll that began the run, where one is open.
    pub start: Option<int>,
    /// The number of the last poll, from 1.
    pub ticks: int,
    /// The pulses for each detent.
    pub pulses: int,
    /// The polls within which a run has to complete.
    pub limit: int,
}

impl RotEncModel {
    /// The decoder with its poll counter advanced. The counter goes from its
    /// largest value back to 1, which closes the run.
    pub open spec fn ticked(self) -> RotEncModel {
        if self.ticks >= u32::MAX {
            RotEncModel { ticks: 1, start: None, ..self }
        } else {
            RotEncModel { ticks: self.ticks + 1, ..self }
        }
    }

    /// The decoder after a sample is taken at the current poll, and the
    /// rotation that the sample completes.
    pub open spec fn stepped(self, sample: (bool, bool)) -> (RotEncModel, Option<RotEncRotation>) {
        if sample == self.state {
            (self, None)
        } else {
            let step = direction(self.state, sample);
            let counted = self.count + step;
            let begun = if step != 0 && self.start is None {
                Some(self.ticks)
            } else {
                self.start
            };
            let timed_out = begun is Some && begun->Some_0 + self.limit <= self.ticks;
            let count = if timed_out {
                0
            } else {
                counted
            };
            let start = if timed_out {
                None
            } else {
                begun
            };
            if count >= self.pulses {
                (
                    RotEncModel { state: sample, count: 0, start: None, ..self },
                    Some(RotEncRotation::Clockwise),
                )
            } else if count <= -self.pulses {
                (
                    RotEncModel { state: sample, count: 0, start: None, ..self },
                    Some(RotEncRotation::CounterClockwise),
                )
            } else {
                (RotEncModel { state: sample, count, start, ..self }, None)
            }
        }
    }

    /// One poll: the counter advances, then the sample is taken.
    pub open spec fn polled(self, sample: (bool, bool)) -> (RotEncModel, Option<RotEncRotation>) {
        self.ticked().stepped(sample)
    }

    /// What holds of a decoder between polls: the count is short of a detent
    /// either way, and a run began at a poll that has been.
    pub open spec fn valid(self) -> bool {
        &&& 1 <= self.pulses <= MAX_PULSES
        &&& -self.pulses < self.count < self.pulses
        &&& 1 <= self.ticks <= u32::MAX
        &&& 0 <= self.limit <= u32::MAX
        &&& self.start matches Some(start) ==> 1 <= start <= self.ticks
    }
}

/// A poll keeps a decoder valid.
pub proof fn law_poll_keeps_valid(model: RotEncModel, sample: (bool, bool))
    requires
        model.valid(),
    ensures
        model.ticked().valid(),
        model.stepped(sample).0.valid(),
        model.polled(sample).0.valid(),
{
}

/// A rotation is reported exactly when the count reaches the pulses of a
/// detent, and the report closes the run: the count is back at zero.
pub proof fn law_rotation_closes_run(model: RotEncModel, sample: (bool, bool))
    requires
        model.valid(),
    ensures
        model.stepped(sample).1 is Some ==> model.stepped(sample).0.count == 0
            && model.stepped(sample).0.start is None,
        model.stepped(sample).1 is Some ==> sample != model.state && direction(
            model.state,
            sample,
        ) != 0,
        model.stepped(sample).1 == Some(RotEncRotation::Clockwise) ==> model.count + 1
            == model.pulses,
        model.stepped(sample).1 == Some(RotEncRotation::CounterClockwise) ==> model.count - 1
            == -model.pulses,
{
}

/// With two pulses for each detent, two steps the same way at polls one after
/// the other are one rotation that way: the first step reports nothing, and
/// the second reports the rotation.
pub proof fn law_two_steps_make_a_detent(
    model: RotEncModel,
    first: (bool, bool),
    second: (bool, bool),
)
    requires
        model.valid(),
        model.pulses == 2,
        model.limit >= 2,
        model.count == 0,
        model.start is None,
        direction(model.state, first) != 0,
        direction(first, second) == direction(model.state, first),
    ensures
        model.polled(first).1 is None,
        model.polled(first).0.polled(second).1 == Some(
            if direction(model.state, first) == 1 {
                RotEncRotation::Clockwise
            } else {
                RotEncRotation::CounterClockwise
            },
        ),
        model.polled(first).0.polled(second).0.count == 0,
{
}

/// A sample that repeats the last one changes nothing and reports nothing.
pub proof fn law_same_sample_is_silent(model: RotEncModel)
    ensures
        model.stepped(model.state) == (model, None::<RotEncRotation>),
{
}

/// A step that arrives when the run has been open for the noise timeout or
/// longer reports nothing and drops the run: the count is back at zero.
pub proof fn law_stale_run_is_dropped(model: RotEncModel, sample: (bool, bool))
    requires
        model.valid(),
        sample != model.state,
        model.start matches Some(start) && start + model.limit <= model.ticks,
    ensures
        model.stepped(sample).1 is None,
        model.stepped(sample).0.count == 0,
        model.stepped(sample).0.start is None,
{
}

/// A change that skips a state of the cycle is not counted.
pub proof fn law_skipped_state_is_not_counted(previous: (bool, bool), current: (bool, bool))
    ensures
        direction(previous, current) != 0 <==> (cycle_index(current) - cycle_index(previous)) % 2
            != 0,
        direction(previous, current) == -direction(current, previous),
{
}

/// Whether a read of two pins, the first one first, can give a result: the
/// two samples where both pins gave one, and else the error of the pin that
/// failed, the second being read only after the first gave a sample.
pub open spec fn pair_read<A: GpioInput, B: GpioInput>(
    pin_a: &A,
    pin_b: &B,
    r: GpioResult<(bool, bool)>,
) -> bool {
    match r {
        Ok((a, b)) => pin_a.read_gives(Ok(a)) && pin_b.read_gives(Ok(b)),
        Err(error) => pin_a.read_gives(Err(error)) || (exists|a: bool| #[trigger]
            pin_a.read_gives(Ok(a)) && pin_b.read_gives(Err(error))),
    }
}

/// The decoder, without its pins.
#[derive(Debug)]
pub struct RotEncState {
    state: (bool, bool),
    ticks_per_rotation: u8,
    tick_count: i8,
    reading_limit: u32,
    reading_start: Option<u32>,
    ticks: u32,
}

impl RotEncState {
    #[verifier::type_invariant]
    spec fn wf(&self) -> bool {
        self@.valid()
    }

    /// What the decoder knows.
    pub closed spec fn view(&self) -> RotEncModel {
        RotEncModel {
            state: self.state,
            count: self.tick_count as int,
            start: match self.reading_start {
                Some(start) => Some(start as int),
                None => None,
            },
            ticks: self.ticks as int,
            pulses: self.ticks_per_rotation as int,
            limit: self.reading_limit as int,
        }
    }

    /// A decoder that has seen the sample `initial`, with two pulses for each
    /// detent and a noise timeout of 200 polls.
    pub fn new(initial: (bool, bool)) -> (decoder: RotEncState)
        ensures
            decoder@.valid(),
            decoder@ == (RotEncModel {
                state: initial,
                count: 0,
                start: None,
                ticks: 1,
                pulses: DEFAULT_PULSES as int,
                limit: DEFAULT_NOISE_TIMEOUT as int,
            }),
    {
        RotEncState {
            state: initial,
            ticks_per_rotation: DEFAULT_PULSES,
            tick_count: 0,
            reading_limit: DEFAULT_NOISE_TIMEOUT,
            reading_start: None,
            ticks: 1,
        }
    }

    /// A decoder that has seen the sample `initial`, with its own settings:
    /// `InvalidArgument` where the pulses for each detent are 0 or above 127.
    pub fn with_settings(initial: (bool, bool), pulses_per_detent: u8, noise_timeout: u32) -> (r:
        GpioResult<RotEncState>)
        ensures
            (pulses_per_detent == 0 || pulses_per_detent > MAX_PULSES) <==> r matches Err(
                GpioError::InvalidArgument,
            ),
            (1 <= pulses_per_detent <= MAX_PULSES) <==> r is Ok,
            r matches Ok(decoder) ==> decoder@.valid() && decoder@ == (RotEncModel {
                state: initial,
                count: 0,
                start: None,
                ticks: 1,
                pulses: pulses_per_detent as int,
                limit: noise_timeout as int,
            }),
    {
        if pulses_per_detent == 0 || pulses_per_detent > MAX_PULSES {
            return Err(GpioError::InvalidArgument);
        }
        Ok(
            RotEncState {
                state: initial,
                ticks_per_rotation: pulses_per_detent,
                tick_count: 0,
                reading_limit: noise_timeout,
                reading_start: None,
                ticks: 1,
            },
        )
    }

    /// The last sample of the two channels.
    pub fn state(&self) -> (state: (bool, bool))
        ensures
            state == self@.state,
    {
        self.state
    }

    /// The steps counted in the run, clockwise positive.
    pub fn tick_count(&self) -> (count: i8)
        ensures
            count == self@.count,
            self@.valid(),
    {
        proof {
            use_type_invariant(self);
        }
        self.tick_count
    }

    /// The number of the last poll.
    pub fn ticks(&self) -> (ticks: u32)
        ensures
            ticks == self@.ticks,
    {
        self.ticks
    }

    /// Advances the poll counter.
    pub fn tick(&mut self)
        ensures
            final(self)@ == old(self)@.ticked(),
    {
        proof {
            use_type_invariant(&*self);
        }
        let wrapped: bool = self.ticks == u32::MAX;
        *self = RotEncState {
            state: self.state,
            ticks_per_rotation: self.ticks_per_rotation,
            tick_count: self.tick_count,
            reading_limit: self.reading_limit,
            reading_start: if wrapped {
                None
            } else {
                self.reading_start
            },
            ticks: if wrapped {
                1
            } else {
                self.ticks + 1
            },
        };
    }

    /// Takes a sample at the current poll and returns the rotation that it
    /// completes.
    pub fn step(&mut self, sample: (bool, bool)) -> (rotation: Option<RotEncRotation>)
        ensures
            (final(self)@, rotation) == old(self)@.stepped(sample),
    {
        proof {
            use_type_invariant(&*self);
        }
        let previous: (bool, bool) = self.state;
        if sample.0 == previous.0 && sample.1 == previous.1 {
            return None;
        }
        let previous_index: u8 = Self::position(previous);
        let current_index: u8 = Self::position(sample);
        let mut tick_count: i8 = self.tick_count;
        let mut reading_start: Option<u32> = self.reading_start;
        if (current_index + 1) % 4 == previous_index {
            tick_count = tick_count - 1;
            if reading_start.is_none() {
                reading_start = Some(self.ticks);
            }
        } else if (previous_index + 1) % 4 == current_index {
            tick_count = tick_count + 1;
            if reading_start.is_none() {
                reading_start = Some(self.ticks);
            }
        }
        match reading_start {
            Some(start) => {
                if start as u64 + self.reading_limit as u64 <= self.ticks as u64 {
                    reading_start = None;
                    tick_count = 0;
                }
            },
            None => {},
        }
        let rotation: Option<RotEncRotation> = if tick_count >= self.ticks_per_rotation as i8 {
            Some(RotEncRotation::Clockwise)
        } else if tick_count <= -(self.ticks_per_rotation as i8) {
            Some(RotEncRotation::CounterClockwise)
        } else {
            None
        };
        if rotation.is_some() {
            tick_count = 0;
            reading_start = None;
        }
        *self = RotEncState {
            state: sample,
            ticks_per_rotation: self.ticks_per_rotation,
            tick_count,
            reading_limit: self.reading_limit,
            reading_start,
            ticks: self.ticks,
        };
        rotation
    }

    /// One poll: advances the counter, then takes the sample.
    pub fn poll(&mut self, sample: (bool, bool)) -> (rotation: Option<RotEncRotation>)
        ensures
            (final(self)@, rotation) == old(self)@.polled(sample),
    {
        self.tick();
        self.step(sample)
    }

    /// The place of a state of the two channels in the clockwise cycle.
    fn position(state: (bool, bool)) -> (index: u8)
        ensures
            index == cycle_index(state),
            index < 4,
    {
        match state {
            (false, false) => 0,
            (true, false) => 1,
            (true, true) => 2,
            (false, true) => 3,
        }
    }
}

/// A rotary encoder on two input pins.
#[derive(Debug)]
pub struct RotEnc<'a, A: GpioInput, B: GpioInput> {
    /// The pin of the first channel.
    pub pin_a: &'a A,
    /// The pin of the second channel.
    pub pin_b: &'a B,
    decoder: RotEncState,
}

impl<'a, A: GpioInput, B: GpioInput> RotEnc<'a, A, B> {
    /// What the decoder knows.
    pub closed spec fn view(&self) -> RotEncModel {
        self.decoder@
    }

    /// The pin of the first channel.
    pub closed spec fn first_pin(&self) -> &'a A {
        self.pin_a
    }

    /// The pin of the second channel.
    pub closed spec fn second_pin(&self) -> &'a B {
        self.pin_b
    }

    /// An encoder on two pins. The first sample is taken at once; where a pin
    /// fails, both channels are taken to be low.
    pub fn new(pin_a: &'a A, pin_b: &'a B) -> (encoder: Self)
        ensures
            encoder.first_pin() == pin_a,
            encoder.second_pin() == pin_b,
            pair_read(pin_a, pin_b, Ok(encoder@.state)) || (encoder@.state == (false, false)
                && exists|error: GpioError| #[trigger] pair_read(pin_a, pin_b, Err(error))),
            encoder@.valid(),
            encoder@.count == 0,
            encoder@.start is None,
            encoder@.ticks == 1,
            encoder@.pulses == DEFAULT_PULSES,
            encoder@.limit == DEFAULT_NOISE_TIMEOUT,
    {
        let initial: (bool, bool) = match Self::sample(pin_a, pin_b) {
            Ok(state) => state,
            Err(_) => (false, false),
        };
        RotEnc { pin_a, pin_b, decoder: RotEncState::new(initial) }
    }

    /// Samples both pins, the first channel first. The error of the first
    /// pin that fails is handed on.
    fn sample(pin_a: &A, pin_b: &B) -> (r: GpioResult<(bool, bool)>)
        ensures
            pair_read(pin_a, pin_b, r),
    {
        let a: bool = pin_a.read()?;
        let b: bool = pin_b.read()?;
        Ok((a, b))
    }

    /// Samples both pins, the first channel first. The error of the first
    /// pin that fails is handed on.
    pub fn read_raw(&self) -> (r: GpioResult<(bool, bool)>)
        ensures
            pair_read(self.first_pin(), self.second_pin(), r),
    {
        Self::sample(self.pin_a, self.pin_b)
    }

    /// Polls the encoder: advances the poll counter, samples both pins and
    /// returns the rotation that the sample completes. Where a pin fails, the
    /// error is handed on and only the counter has advanced.
    pub fn read(&mut self) -> (r: GpioResult<Option<RotEncRotation>>)
        ensures
            final(self).first_pin() == old(self).first_pin(),
            final(self).second_pin() == old(self).second_pin(),
            match r {
                Err(error) => pair_read(old(self).first_pin(), old(self).second_pin(), Err(error))
                    && final(self)@ == old(self)@.ticked(),
                Ok(rotation) => exists|sample: (bool, bool)|
                    pair_read(old(self).first_pin(), old(self).second_pin(), Ok(sample)) && (
                    final(self)@,
                    rotation,
                    ) == #[trigger] old(self)@.polled(sample),
            },
    {
        self.decoder.tick();
        let sample: (bool, bool) = match Self::sample(self.pin_a, self.pin_b) {
            Ok(sample) => sample,
            Err(error) => {
                return Err(error);
            },
        };
        let ghost before: RotEncModel = self.decoder@;
        let rotation: Option<RotEncRotation> = self.decoder.step(sample);
        assert((self@, rotation) == old(self)@.polled(sample));
        Ok(rotation)
    }
}

} // verus!
