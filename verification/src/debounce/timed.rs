//! A debounce filter that holds a change back for a set time.
//!
//! The filter reports its stable value. A sample that differs from it starts
//! a hold; while the hold runs the filter goes on reporting the stable value,
//! and a sample that equals it again cancels the hold. The first read after
//! the hold time has passed makes the sample of that read the stable value.

use crate::error::GpioResult;
use crate::gpio::GpioInput;
use crate::time::{duration_as_nanos, duration_from_millis, instant_elapsed, instant_now, nanos_of};
use std::time::{Duration, Instant};
use vstd::prelude::*;

verus! {

/// The hold time of a new filter, in milliseconds.
pub const DEFAULT_HOLD_MS: u64 = 50;

/// What a debounce filter knows between two reads.
#[derive(Copy, Clone, Debug, PartialEq, Eq, Structural)]
pub struct DebounceState {
    /// The value that the filter reports.
    pub stable: bool,
    /// Whether a change waits to be confirmed.
    pub holding: bool,
}

impl DebounceState {
    /// The state after a read, and what the read reports, for a sample and
    /// for whether the hold time has passed since the hold began.
    pub open spec fn next(self, sample: bool, expired: bool) -> (DebounceState, bool) {
        if self.holding {
            if !expired {
                (
                    DebounceState { stable: self.stable, holding: sample != self.stable },
                    self.stable,
                )
            } else {
                (DebounceState { stable: sample, holding: false }, sample)
            }
        } else if sample != self.stable {
            (DebounceState { stable: self.stable, holding: true }, self.stable)
        } else {
            (self, self.stable)
        }
    }

    /// A filter at rest that reports `stable`.
    pub fn new(stable: bool) -> (state: DebounceState)
        ensures
            state == (DebounceState { stable, holding: false }),
    {
        DebounceState { stable, holding: false }
    }

    /// Takes one sample, with the time since the hold began and the hold
    /// time, both in nanoseconds, and returns what the read reports. The hold
    /// has expired when the time since it began is the hold time or more; the
    /// times are not looked at where no hold runs.
    pub fn step(&mut self, sample: bool, elapsed_ns: u128, hold_ns: u128) -> (reported: bool)
        ensures
            (*final(self), reported) == old(self).next(sample, elapsed_ns >= hold_ns),
    {
        let expired: bool = elapsed_ns >= hold_ns;
        if self.holding {
            if !expired {
                if sample == self.stable {
                    self.holding = false;
                }
                return self.stable;
            } else {
                self.holding = false;
                self.stable = sample;
                return sample;
            }
        }
        if sample != self.stable {
            self.holding = true;
        }
        self.stable
    }
}

/// A read reports the stable value that the filter has after it, and the
/// stable value changes only at a read that finds the hold time passed.
pub proof fn law_reports_stable_value(state: DebounceState, sample: bool, expired: bool)
    ensures
        state.next(sample, expired).1 == state.next(sample, expired).0.stable,
        state.next(sample, expired).0.stable != state.stable ==> state.holding && expired
            && state.next(sample, expired).0.stable == sample,
        !(state.holding && expired) ==> state.next(sample, expired).1 == state.stable,
{
}

/// A hold begins only on a sample that differs from the stable value, goes on
/// only while the samples differ from it, and ends when its time has passed.
pub proof fn law_hold_follows_samples(state: DebounceState, sample: bool, expired: bool)
    ensures
        state.next(sample, expired).0.holding ==> sample != state.stable && !(state.holding
            && expired),
        !state.holding && sample != state.stable ==> state.next(sample, expired).0.holding,
        state.holding && expired ==> !state.next(sample, expired).0.holding,
{
}

/// Whether a hold has expired: the time since it began is the hold time or
/// more.
pub open spec fn hold_passed(elapsed: Duration, hold: Duration) -> bool {
    nanos_of(elapsed) >= nanos_of(hold)
}

/// A debounced view of an input.
#[derive(Debug)]
pub struct TimedDebounce<'a, I: GpioInput> {
    input: &'a I,
    state: bool,
    changed_since: Option<Instant>,
    /// How long a change has to wait before a read confirms it.
    pub debounce_time: Duration,
}

impl<'a, I: GpioInput> TimedDebounce<'a, I> {
    /// What the filter knows: its stable value, and whether a hold runs.
    pub closed spec fn state(&self) -> DebounceState {
        DebounceState { stable: self.state, holding: self.changed_since is Some }
    }

    /// The instant at which the hold began, where one runs.
    pub closed spec fn since(&self) -> Option<Instant> {
        self.changed_since
    }

    /// The input that the filter samples.
    pub closed spec fn input(&self) -> &'a I {
        self.input
    }

    /// The hold time of the filter.
    pub closed spec fn hold(&self) -> Duration {
        self.debounce_time
    }

    /// A filter on an input, at rest, that reports `false` and holds a change
    /// for 50 ms.
    pub fn new(input: &'a I) -> (filter: Self)
        ensures
            filter.input() == input,
            filter.state() == (DebounceState { stable: false, holding: false }),
            filter.since() is None,
            nanos_of(filter.hold()) == 50_000_000,
    {
        Self {
            input,
            state: false,
            changed_since: None,
            debounce_time: duration_from_millis(DEFAULT_HOLD_MS),
        }
    }

    /// The same filter with another hold time.
    pub fn with_debounce_time(self, debounce_time: Duration) -> (filter: Self)
        ensures
            filter.input() == self.input(),
            filter.state() == self.state(),
            filter.since() == self.since(),
            filter.hold() == debounce_time,
    {
        let mut filter: Self = self;
        filter.debounce_time = debounce_time;
        filter
    }

    /// Samples the input and reports the debounced value. Where the input
    /// fails, its error is handed on and the filter is as it was. Else the
    /// filter takes the step that [`DebounceState::next`] describes, for the
    /// sample that the input gave and for the time that the clock showed
    /// since the hold began, held against the hold time. The instant at which
    /// a hold began is kept for as long as the hold runs.
    pub fn read(&mut self) -> (r: GpioResult<bool>)
        ensures
            final(self).hold() == old(self).hold(),
            final(self).input() == old(self).input(),
            final(self).since() is Some <==> final(self).state().holding,
            old(self).state().holding && final(self).state().holding ==> final(self).since()
                == old(self).since(),
            match r {
                Err(error) => old(self).input().read_gives(Err(error)) && final(self).state()
                    == old(self).state() && final(self).since() == old(self).since(),
                Ok(reported) => exists|sample: bool, elapsed: Duration|
                    old(self).input().read_gives(Ok(sample)) && (final(self).state(), reported)
                        == #[trigger] old(self).state().next(
                        sample,
                        hold_passed(elapsed, old(self).hold()),
                    ),
            },
    {
        let sample: bool = match self.input.read() {
            Ok(sample) => sample,
            Err(error) => {
                return Err(error);
            },
        };
        let hold_ns: u128 = duration_as_nanos(&self.debounce_time);
        let was_holding: bool = self.changed_since.is_some();
        let mut state: DebounceState = DebounceState { stable: self.state, holding: was_holding };
        let ghost before: DebounceState = state;
        let ghost mut shown: Duration = self.debounce_time;
        let reported: bool = match &self.changed_since {
            Some(since) => {
                let elapsed: Duration = instant_elapsed(since);
                proof {
                    shown = elapsed;
                }
                state.step(sample, duration_as_nanos(&elapsed), hold_ns)
            },
            None => state.step(sample, 0, hold_ns),
        };
        self.state = state.stable;
        if !state.holding {
            self.changed_since = None;
        } else if !was_holding {
            self.changed_since = Some(instant_now());
        }
        assert(before == old(self).state());
        assert((self.state(), reported) == old(self).state().next(
            sample,
            hold_passed(shown, old(self).hold()),
        ));
        Ok(reported)
    }
}

} // verus!
