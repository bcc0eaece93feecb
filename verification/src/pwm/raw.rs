//! A chip of the pulse-width modulator, register by register.
//!
//! The control word, at offset `0x00`, holds one byte for each channel: the
//! enable bit at bit 0, the mode at bit 1, and the mark-space bit at bit 7.
//! The range word of channel `c`, at `0x10 + 0x10 * c`, holds the period and
//! the data word, at `0x14 + 0x10 * c`, the active time, both in cycles.
//!
//! A cycle is taken to last 50 ns. That holds where the feeding clock runs at
//! 20 MHz, which is for the caller to arrange.

use crate::error::{GpioError, GpioResult};
use crate::lease::{after_release, lease_outcome, PinPool};
use crate::pwm::PwmPolarity;
use crate::registers::RegisterOp;
use vstd::prelude::*;

verus! {

/// The physical address of the first chip.
pub const PWM_BASE: u32 = 0x3F20_C000;

/// The distance between the chips.
pub const PWM_CHIP_STRIDE: u32 = 0x800;

/// The length in bytes of the window to map over a chip.
pub const PWM_WINDOW_LEN: usize = 0x28;

/// The number of chips.
pub const CHIP_COUNT: usize = 2;

/// The number of channels of a chip.
pub const PIN_COUNT: usize = 2;

/// The nanoseconds in a cycle.
pub const CYCLE_NS: u32 = 50;

/// The byte of a running channel in the control word: enabled, in
/// pulse-width mode, in mark-space transmission.
pub const CHANNEL_RUNNING: u32 = 0x81;

/// The position of a channel's byte in the control word.
pub open spec fn channel_shift(pin: usize) -> u32 {
    (8 * pin) as u32
}

/// The byte of a channel in the control word.
pub open spec fn channel_byte_of(control: u32, pin: usize) -> u32 {
    (control >> channel_shift(pin)) & 0xFF
}

/// Whether the control word says that a channel is enabled.
pub open spec fn channel_enabled_of(control: u32, pin: usize) -> bool {
    control & (1u32 << channel_shift(pin)) != 0
}

/// The access that starts a channel.
pub open spec fn init_op(pin: usize) -> RegisterOp {
    RegisterOp::Update {
        offset: 0,
        mask: 0xFFu32 << channel_shift(pin),
        bits: CHANNEL_RUNNING << channel_shift(pin),
    }
}

/// The access that stops a channel.
pub open spec fn stop_op(pin: usize) -> RegisterOp {
    RegisterOp::Update { offset: 0, mask: 0xFFu32 << channel_shift(pin), bits: 0 }
}

/// The byte offset of the range word of a channel.
pub open spec fn range_offset(pin: usize) -> usize {
    (0x10 + 0x10 * pin) as usize
}

/// The byte offset of the data word of a channel.
pub open spec fn data_offset(pin: usize) -> usize {
    (0x14 + 0x10 * pin) as usize
}

/// The access that reads a word and replaces it whole.
pub open spec fn replace_op(offset: usize, value: u32) -> RegisterOp {
    RegisterOp::Update { offset, mask: 0xFFFF_FFFFu32, bits: value }
}

proof fn lemma_channel_byte(control: u32, pin: u32, other: u32, value: u32)
    by (bit_vector)
    requires
        pin < 2,
        other < 2,
        value <= 0xFF,
    ensures
        ({
            let w: u32 = (control & !(0xFFu32 << (8 * pin))) | (value << (8 * pin));
            &&& (w >> (8 * pin)) & 0xFF == value
            &&& other != pin ==> (w >> (8 * other)) & 0xFF == (control >> (8 * other)) & 0xFF
            &&& w & !(0xFFu32 << (8 * pin)) == control & !(0xFFu32 << (8 * pin))
            &&& (w & (1u32 << (8 * pin)) != 0) == (value & 1 != 0)
            &&& other != pin ==> (w & (1u32 << (8 * other)) != 0) == (control & (1u32 << (8
                * other)) != 0)
        }),
        (control & !0xFFFF_FFFFu32) | value == value,
{
}

/// Starting a channel fills its byte of the control word and enables it, and
/// leaves every bit outside that byte, so the byte and the state of the
/// other channel, as it was.
pub proof fn law_enable_keeps_other_channel(control: u32, pin: usize, other: usize)
    requires
        pin < PIN_COUNT,
        other < PIN_COUNT,
    ensures
        channel_byte_of(init_op(pin).spec_apply(control), pin) == CHANNEL_RUNNING,
        channel_enabled_of(init_op(pin).spec_apply(control), pin),
        init_op(pin).spec_apply(control) & !(0xFFu32 << channel_shift(pin)) == control & !(0xFFu32
            << channel_shift(pin)),
        other != pin ==> channel_byte_of(init_op(pin).spec_apply(control), other)
            == channel_byte_of(control, other),
        other != pin ==> channel_enabled_of(init_op(pin).spec_apply(control), other)
            == channel_enabled_of(control, other),
{
    lemma_channel_byte(control, pin as u32, other as u32, CHANNEL_RUNNING);
    assert(0x81u32 & 1 != 0) by (bit_vector);
    assert(channel_shift(pin) == 8 * (pin as u32));
    assert(channel_shift(other) == 8 * (other as u32));
}

/// Stopping a channel clears its byte of the control word and disables it,
/// and leaves every bit outside that byte as it was.
pub proof fn law_disable_keeps_other_channel(control: u32, pin: usize, other: usize)
    requires
        pin < PIN_COUNT,
        other < PIN_COUNT,
    ensures
        channel_byte_of(stop_op(pin).spec_apply(control), pin) == 0,
        !channel_enabled_of(stop_op(pin).spec_apply(control), pin),
        stop_op(pin).spec_apply(control) & !(0xFFu32 << channel_shift(pin)) == control & !(0xFFu32
            << channel_shift(pin)),
        other != pin ==> channel_byte_of(stop_op(pin).spec_apply(control), other)
            == channel_byte_of(control, other),
        other != pin ==> channel_enabled_of(stop_op(pin).spec_apply(control), other)
            == channel_enabled_of(control, other),
{
    lemma_channel_byte(control, pin as u32, other as u32, 0);
    assert(0u32 & 1 == 0) by (bit_vector);
    assert(channel_shift(pin) == 8 * (pin as u32));
    assert(channel_shift(other) == 8 * (other as u32));
    assert(forall|s: u32| s < 32 ==> #[trigger] (0u32 << s) == 0) by (bit_vector);
}

/// Every access to the registers of a channel is an access to a whole word
/// inside the window over the chip.
pub proof fn law_accesses_lie_in_window(pin: usize, value: u32)
    requires
        pin < PIN_COUNT,
    ensures
        init_op(pin).spec_offset() == 0,
        stop_op(pin).spec_offset() == 0,
        range_offset(pin) % 4 == 0 && range_offset(pin) + 4 <= PWM_WINDOW_LEN,
        data_offset(pin) % 4 == 0 && data_offset(pin) + 4 <= PWM_WINDOW_LEN,
        replace_op(range_offset(pin), value).spec_offset() == range_offset(pin),
        replace_op(data_offset(pin), value).spec_offset() == data_offset(pin),
{
}

/// The word that a replacing access stores is the value, whatever was read.
pub proof fn law_replace_stores_value(word: u32, offset: usize, value: u32)
    ensures
        replace_op(offset, value).spec_apply(word) == value,
{
    lemma_channel_byte(word, 0, 0, 0);
    assert((word & !0xFFFF_FFFFu32) | value == value) by (bit_vector);
}

/// The driver of one chip of the modulator: the leases of its channels, and
/// the accesses that each operation makes on its registers.
pub struct RawPwmDriver {
    chip_index: u8,
    used_pins: PinPool,
}

impl RawPwmDriver {
    /// The pool holds one flag for each channel, and the chip exists. `new`
    /// establishes it and every method keeps it.
    pub closed spec fn wf(&self) -> bool {
        self.used_pins@.len() == PIN_COUNT && self.chip_index < CHIP_COUNT
    }

    /// Which channels are leased out.
    pub closed spec fn leases(&self) -> Seq<bool> {
        self.used_pins@
    }

    /// The index of the chip.
    pub closed spec fn chip(&self) -> u8 {
        self.chip_index
    }

    /// A driver knows of every channel of its chip, and of no other.
    pub proof fn law_pool_size(&self)
        requires
            self.wf(),
        ensures
            self.leases().len() == PIN_COUNT,
            self.chip() < CHIP_COUNT,
    {
    }

    /// The driver of a chip, every channel free: `InvalidArgument` for a chip
    /// that does not exist.
    pub fn new(chip_index: usize) -> (r: GpioResult<RawPwmDriver>)
        ensures
            chip_index >= CHIP_COUNT <==> r matches Err(GpioError::InvalidArgument),
            chip_index < CHIP_COUNT <==> r is Ok,
            r matches Ok(driver) ==> driver.wf() && driver.chip() == chip_index && driver.leases()
                == Seq::new(PIN_COUNT as nat, |i: int| false),
    {
        if chip_index >= CHIP_COUNT {
            return Err(GpioError::InvalidArgument);
        }
        Ok(RawPwmDriver { chip_index: chip_index as u8, used_pins: PinPool::new(PIN_COUNT) })
    }

    /// The physical address of the window to map over the chip.
    pub fn window_address(&self) -> (address: u64)
        requires
            self.wf(),
        ensures
            address == PWM_BASE + self.chip() * PWM_CHIP_STRIDE,
    {
        PWM_BASE as u64 + self.chip_index as u64 * 0x800
    }

    /// The number of channels.
    pub fn count(&self) -> (r: GpioResult<usize>)
        ensures
            r == Ok::<usize, GpioError>(PIN_COUNT),
    {
        Ok(PIN_COUNT)
    }

    /// The access that starts a channel: it fills the channel's byte of the
    /// control word and no other bit.
    pub fn init_channel(pin_index: usize) -> (r: GpioResult<RegisterOp>)
        ensures
            pin_index >= PIN_COUNT <==> r == Err::<RegisterOp, GpioError>(
                GpioError::InvalidArgument,
            ),
            pin_index < PIN_COUNT <==> r == Ok::<RegisterOp, GpioError>(init_op(pin_index)),
    {
        if pin_index >= PIN_COUNT {
            return Err(GpioError::InvalidArgument);
        }
        let shift: u32 = (pin_index * 8) as u32;
        let mask: u32 = 0xFFu32 << shift;
        let mut value: u32 = 0;
        value |= 1;
        value |= 1 << 7;
        assert(value == CHANNEL_RUNNING) by (bit_vector)
            requires
                value == (0u32 | 1) | (1u32 << 7),
        ;
        Ok(RegisterOp::Update { offset: 0, mask, bits: value << shift })
    }

    /// Whether a channel is enabled, from the control word.
    pub fn get_enabled(pin_index: usize, control: u32) -> (r: GpioResult<bool>)
        ensures
            pin_index >= PIN_COUNT <==> r == Err::<bool, GpioError>(GpioError::InvalidArgument),
            pin_index < PIN_COUNT <==> r == Ok::<bool, GpioError>(
                channel_enabled_of(control, pin_index),
            ),
    {
        if pin_index >= PIN_COUNT {
            return Err(GpioError::InvalidArgument);
        }
        let shift: u32 = (pin_index * 8) as u32;
        let mask: u32 = 1u32 << shift;
        Ok((control & mask) != 0)
    }

    /// The access that stops a channel: it clears the channel's byte of the
    /// control word and no other bit.
    pub fn reset_channel(pin_index: usize) -> (r: GpioResult<RegisterOp>)
        ensures
            pin_index >= PIN_COUNT <==> r == Err::<RegisterOp, GpioError>(
                GpioError::InvalidArgument,
            ),
            pin_index < PIN_COUNT <==> r == Ok::<RegisterOp, GpioError>(stop_op(pin_index)),
    {
        if pin_index >= PIN_COUNT {
            return Err(GpioError::InvalidArgument);
        }
        let shift: u32 = (pin_index * 8) as u32;
        Ok(RegisterOp::Update { offset: 0, mask: 0xFFu32 << shift, bits: 0 })
    }

    /// The byte offset of the range word of a channel.
    pub fn period_offset(pin_index: usize) -> (r: GpioResult<usize>)
        ensures
            pin_index >= PIN_COUNT <==> r == Err::<usize, GpioError>(GpioError::InvalidArgument),
            pin_index < PIN_COUNT <==> r == Ok::<usize, GpioError>(range_offset(pin_index)),
    {
        if pin_index >= PIN_COUNT {
            return Err(GpioError::InvalidArgument);
        }
        Ok(0x10 + 0x10 * pin_index)
    }

    /// The period of a channel in cycles, from its range word.
    pub fn get_period(pin_index: usize, word: u32) -> (r: GpioResult<u32>)
        ensures
            pin_index >= PIN_COUNT <==> r == Err::<u32, GpioError>(GpioError::InvalidArgument),
            pin_index < PIN_COUNT <==> r == Ok::<u32, GpioError>(word),
    {
        if pin_index >= PIN_COUNT {
            return Err(GpioError::InvalidArgument);
        }
        Ok(word)
    }

    /// The access that sets the period of a channel in cycles.
    pub fn set_period(pin_index: usize, period: u32) -> (r: GpioResult<RegisterOp>)
        ensures
            pin_index >= PIN_COUNT <==> r == Err::<RegisterOp, GpioError>(
                GpioError::InvalidArgument,
            ),
            pin_index < PIN_COUNT <==> r == Ok::<RegisterOp, GpioError>(
                replace_op(range_offset(pin_index), period),
            ),
    {
        if pin_index >= PIN_COUNT {
            return Err(GpioError::InvalidArgument);
        }
        Ok(RegisterOp::Update { offset: 0x10 + 0x10 * pin_index, mask: 0xFFFF_FFFFu32, bits: period })
    }

    /// The byte offset of the data word of a channel.
    pub fn duty_offset(pin_index: usize) -> (r: GpioResult<usize>)
        ensures
            pin_index >= PIN_COUNT <==> r == Err::<usize, GpioError>(GpioError::InvalidArgument),
            pin_index < PIN_COUNT <==> r == Ok::<usize, GpioError>(data_offset(pin_index)),
    {
        if pin_index >= PIN_COUNT {
            return Err(GpioError::InvalidArgument);
        }
        Ok(0x14 + 0x10 * pin_index)
    }

    /// The active time of a channel in cycles, from its data word.
    pub fn get_duty(pin_index: usize, word: u32) -> (r: GpioResult<u32>)
        ensures
            pin_index >= PIN_COUNT <==> r == Err::<u32, GpioError>(GpioError::InvalidArgument),
            pin_index < PIN_COUNT <==> r == Ok::<u32, GpioError>(word),
    {
        if pin_index >= PIN_COUNT {
            return Err(GpioError::InvalidArgument);
        }
        Ok(word)
    }

    /// The access that sets the active time of a channel in cycles.
    pub fn set_duty(pin_index: usize, duty: u32) -> (r: GpioResult<RegisterOp>)
        ensures
            pin_index >= PIN_COUNT <==> r == Err::<RegisterOp, GpioError>(
                GpioError::InvalidArgument,
            ),
            pin_index < PIN_COUNT <==> r == Ok::<RegisterOp, GpioError>(
                replace_op(data_offset(pin_index), duty),
            ),
    {
        if pin_index >= PIN_COUNT {
            return Err(GpioError::InvalidArgument);
        }
        Ok(RegisterOp::Update { offset: 0x14 + 0x10 * pin_index, mask: 0xFFFF_FFFFu32, bits: duty })
    }

    /// Leases one channel: `InvalidArgument` out of range, `AlreadyInUse`
    /// where the channel is leased out; a refused request changes nothing.
    pub fn get_pin(&mut self, index: usize) -> (r: GpioResult<RawPwmPin>)
        requires
            old(self).wf(),
        ensures
            final(self).wf(),
            final(self).chip() == old(self).chip(),
            match lease_outcome(old(self).leases(), index as int) {
                Ok(used) => {
                    &&& r matches Ok(pin)
                    &&& pin.index() == index
                    &&& pin.chip() == old(self).chip()
                    &&& final(self).leases() == used
                },
                Err(error) => {
                    &&& r matches Err(e)
                    &&& e == error
                    &&& final(self).leases() == old(self).leases()
                },
            },
    {
        self.used_pins.lease(index)?;
        Ok(RawPwmPin { chip_index: self.chip_index, pin_index: index })
    }

    /// Takes a channel of this chip back and frees its index. A channel of
    /// another chip is handed back, and nothing changes.
    pub fn release_pin(&mut self, pin: RawPwmPin) -> (r: Result<(), RawPwmPin>)
        requires
            old(self).wf(),
        ensures
            final(self).wf(),
            final(self).chip() == old(self).chip(),
            pin.chip() == old(self).chip() ==> r is Ok && final(self).leases() == after_release(
                old(self).leases(),
                pin.index() as int,
            ),
            pin.chip() != old(self).chip() ==> r == Err::<(), RawPwmPin>(pin),
            pin.chip() != old(self).chip() ==> final(self).leases() == old(self).leases(),
    {
        if pin.chip_index != self.chip_index {
            return Err(pin);
        }
        self.used_pins.release(pin.pin_index);
        Ok(())
    }
}

/// A leased channel of the modulator.
#[derive(Debug)]
pub struct RawPwmPin {
    chip_index: u8,
    pin_index: usize,
}

impl RawPwmPin {
    #[verifier::type_invariant]
    spec fn wf(&self) -> bool {
        self.pin_index < PIN_COUNT
    }

    /// The index of the channel.
    pub closed spec fn index(&self) -> usize {
        self.pin_index
    }

    /// The index of the chip that the channel was leased from.
    pub closed spec fn chip(&self) -> u8 {
        self.chip_index
    }

    /// The index of the chip that the channel was leased from.
    pub fn chip_index(&self) -> (chip: u8)
        ensures
            chip == self.chip(),
    {
        self.chip_index
    }

    /// The index of the channel.
    pub fn pin_index(&self) -> (index: usize)
        ensures
            index == self.index(),
            index < PIN_COUNT,
    {
        proof {
            use_type_invariant(self);
        }
        self.pin_index
    }

    /// The byte offset of the range word of the channel.
    pub fn period_offset(&self) -> (offset: usize)
        ensures
            offset == range_offset(self.index()),
    {
        proof {
            use_type_invariant(self);
        }
        0x10 + 0x10 * self.pin_index
    }

    /// The byte offset of the data word of the channel.
    pub fn duty_offset(&self) -> (offset: usize)
        ensures
            offset == data_offset(self.index()),
    {
        proof {
            use_type_invariant(self);
        }
        0x14 + 0x10 * self.pin_index
    }

    /// The period in nanoseconds, from the range word: 50 for each cycle.
    pub fn period_ns(&self, cycles: u32) -> (r: GpioResult<u32>)
        requires
            cycles * CYCLE_NS <= u32::MAX,
        ensures
            r == Ok::<u32, GpioError>((cycles * CYCLE_NS) as u32),
    {
        proof {
            use_type_invariant(self);
        }
        let cycles: u32 = RawPwmDriver::get_period(self.pin_index, cycles)?;
        Ok(cycles * CYCLE_NS)
    }

    /// The access that sets the period, given in nanoseconds and rounded down
    /// to whole cycles.
    pub fn set_period_ns(&mut self, period_ns: u32) -> (r: GpioResult<RegisterOp>)
        ensures
            *final(self) == *old(self),
            r == Ok::<RegisterOp, GpioError>(
                replace_op(range_offset(old(self).index()), period_ns / CYCLE_NS),
            ),
    {
        proof {
            use_type_invariant(&*self);
        }
        let cycles: u32 = period_ns / CYCLE_NS;
        RawPwmDriver::set_period(self.pin_index, cycles)
    }

    /// The active time in nanoseconds, from the data word: 50 for each cycle.
    pub fn duty_ns(&self, cycles: u32) -> (r: GpioResult<u32>)
        requires
            cycles * CYCLE_NS <= u32::MAX,
        ensures
            r == Ok::<u32, GpioError>((cycles * CYCLE_NS) as u32),
    {
        proof {
            use_type_invariant(self);
        }
        let cycles: u32 = RawPwmDriver::get_duty(self.pin_index, cycles)?;
        Ok(cycles * CYCLE_NS)
    }

    /// The access that sets the active time, given in nanoseconds and rounded
    /// down to whole cycles.
    pub fn set_duty_ns(&mut self, duty_ns: u32) -> (r: GpioResult<RegisterOp>)
        ensures
            *final(self) == *old(self),
            r == Ok::<RegisterOp, GpioError>(
                replace_op(data_offset(old(self).index()), duty_ns / CYCLE_NS),
            ),
    {
        proof {
            use_type_invariant(&*self);
        }
        let cycles: u32 = duty_ns / CYCLE_NS;
        RawPwmDriver::set_duty(self.pin_index, cycles)
    }

    /// The polarity, which is always normal.
    pub fn polarity(&self) -> (r: GpioResult<PwmPolarity>)
        ensures
            r == Ok::<PwmPolarity, GpioError>(PwmPolarity::Normal),
    {
        Ok(PwmPolarity::Normal)
    }

    /// The polarity cannot be set: `NotSupported`, whatever is asked for.
    pub fn set_polarity(&mut self, _polarity: PwmPolarity) -> (r: GpioResult<()>)
        ensures
            *final(self) == *old(self),
            r == Err::<(), GpioError>(GpioError::NotSupported),
    {
        Err(GpioError::NotSupported)
    }

    /// Whether the channel is enabled, from the control word.
    pub fn is_enabled(&self, control: u32) -> (r: GpioResult<bool>)
        ensures
            r == Ok::<bool, GpioError>(channel_enabled_of(control, self.index())),
    {
        proof {
            use_type_invariant(self);
        }
        RawPwmDriver::get_enabled(self.pin_index, control)
    }

    /// The access that starts the channel.
    pub fn enable(&mut self) -> (r: GpioResult<RegisterOp>)
        ensures
            *final(self) == *old(self),
            r == Ok::<RegisterOp, GpioError>(init_op(old(self).index())),
    {
        proof {
            use_type_invariant(&*self);
        }
        RawPwmDriver::init_channel(self.pin_index)
    }

    /// The access that stops the channel.
    pub fn disable(&mut self) -> (r: GpioResult<RegisterOp>)
        ensures
            *final(self) == *old(self),
            r == Ok::<RegisterOp, GpioError>(stop_op(old(self).index())),
    {
        proof {
            use_type_invariant(&*self);
        }
        RawPwmDriver::reset_channel(self.pin_index)
    }
}

/// The largest number of cycles whose time in nanoseconds fits 32 bits.
pub const MAX_CYCLES: u32 = 85_899_345;

/// The time of a number of cycles in nanoseconds, or `None` where it does not
/// fit 32 bits.
pub fn cycles_to_ns(cycles: u32) -> (ns: Option<u32>)
    ensures
        cycles * CYCLE_NS <= u32::MAX <==> ns is Some,
        ns matches Some(value) ==> value == cycles * CYCLE_NS,
{
    if cycles > MAX_CYCLES {
        None
    } else {
        Some(cycles * CYCLE_NS)
    }
}

} // verus!
