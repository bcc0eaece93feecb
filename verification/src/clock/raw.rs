//! A channel of the clock generator, register by register.
//!
//! A channel has two words. The control word, at offset `0x00`, holds the
//! source in bits 0 to 3, the enable bit at bit 4, the busy flag at bit 7 and
//! the mash mode in bits 9 and 10. The divisor word, at offset `0x04`, holds
//! the fractional part in bits 0 to 11 and the integer part in bits 12 to 23.
//! The hardware ignores a write whose top byte does not hold the password
//! `0x5A`, so every access that this driver returns sets it.
//!
//! The driver encodes fields. It does not order accesses: a caller disables
//! the channel, waits until it is no longer busy, changes the fields and
//! enables it again.

use crate::clock::{ClockSource, MashMode};
use crate::error::{GpioError, GpioResult};
use crate::registers::RegisterOp;
use vstd::prelude::*;

verus! {

/// The physical address of the clock generator.
pub const CLOCK_BASE: u32 = 0x3F10_1000;

/// The length in bytes of the window to map over a channel.
pub const CLOCK_WINDOW_LEN: usize = 8;

/// The byte offset of the control word in the window of a channel.
pub const CONTROL_OFFSET: usize = 0x00;

/// The byte offset of the divisor word in the window of a channel.
pub const DIVISOR_OFFSET: usize = 0x04;

/// The password, in place in the top byte.
pub const PASSWORD: u32 = 0x5A00_0000;

/// The largest value of a 12-bit field.
pub const FIELD_MAX: u16 = 0xFFF;

/// The units of a divisor in each whole.
pub const DIVISOR_UNITS: u32 = 1024;

/// Whether the control word says that the channel is enabled.
pub open spec fn enabled_of(control: u32) -> bool {
    (control >> 4) & 0b1 != 0
}

/// Whether the control word says that the channel is busy.
pub open spec fn busy_of(control: u32) -> bool {
    (control >> 7) & 0b1 != 0
}

/// The code of the mash mode in the control word.
pub open spec fn mash_code_of(control: u32) -> u32 {
    (control >> 9) & 0b11
}

/// The code of the source in the control word.
pub open spec fn source_code_of(control: u32) -> u32 {
    control & 0b1111
}

/// The integer part in the divisor word.
pub open spec fn divi_of(word: u32) -> u32 {
    (word >> 12) & 0xFFF
}

/// The fractional part in the divisor word.
pub open spec fn divf_of(word: u32) -> u32 {
    word & 0xFFF
}

/// Whether a word to be written carries the password.
pub open spec fn has_password(word: u32) -> bool {
    word & PASSWORD == PASSWORD
}

/// The access that enables or disables the channel.
pub open spec fn enable_op(enabled: bool) -> RegisterOp {
    RegisterOp::Update {
        offset: CONTROL_OFFSET,
        mask: 0b1u32 << 4,
        bits: PASSWORD | (if enabled { 0b1u32 << 4 } else { 0u32 }),
    }
}

/// The access that sets the mash mode.
pub open spec fn mash_op(mode: MashMode) -> RegisterOp {
    RegisterOp::Update {
        offset: CONTROL_OFFSET,
        mask: 0b11u32 << 9,
        bits: PASSWORD | ((mode.index_of() as u32) << 9),
    }
}

/// The access that sets the source.
pub open spec fn source_op(source: ClockSource) -> RegisterOp {
    RegisterOp::Update { offset: CONTROL_OFFSET, mask: 0b1111u32, bits: PASSWORD | source.index_of() }
}

/// The access that sets both parts of the divisor.
pub open spec fn divisor_op(divi: u16, divf: u16) -> RegisterOp {
    RegisterOp::Update {
        offset: DIVISOR_OFFSET,
        mask: 0x00FF_FFFFu32,
        bits: PASSWORD | ((divi as u32) << 12) | (divf as u32),
    }
}

/// Whether a divisor, in units of 1/1024, has an integer part that the
/// hardware takes: from 1 to 4095.
pub open spec fn divisor_valid(divisor: u32) -> bool {
    1024 <= divisor < 4096 * 1024
}

/// Whether the parts of a divisor fit their fields, the integer part not 0.
pub open spec fn parts_valid(divi: u16, divf: u16) -> bool {
    1 <= divi <= 0xFFF && divf <= 0xFFF
}

/// The divisor of two parts, in units of 1/1024: `divi + divf / 1024`.
pub open spec fn divisor_of_parts(divi: u16, divf: u16) -> int {
    1024 * divi + divf
}

proof fn lemma_control_fields(control: u32, enable: u32, mash: u32, source: u32)
    by (bit_vector)
    requires
        enable <= 1,
        mash <= 3,
        source <= 7,
    ensures
        ({
            let w: u32 = (control & !(0b1u32 << 4)) | (0x5A00_0000u32 | (enable << 4));
            &&& (w >> 4) & 0b1 == enable
            &&& (w >> 9) & 0b11 == (control >> 9) & 0b11
            &&& w & 0b1111 == control & 0b1111
            &&& w & 0x5A00_0000 == 0x5A00_0000
        }),
        ({
            let w: u32 = (control & !(0b11u32 << 9)) | (0x5A00_0000u32 | (mash << 9));
            &&& (w >> 9) & 0b11 == mash
            &&& (w >> 4) & 0b1 == (control >> 4) & 0b1
            &&& w & 0b1111 == control & 0b1111
            &&& w & 0x5A00_0000 == 0x5A00_0000
        }),
        ({
            let w: u32 = (control & !0b1111u32) | (0x5A00_0000u32 | source);
            &&& w & 0b1111 == source
            &&& (w >> 4) & 0b1 == (control >> 4) & 0b1
            &&& (w >> 9) & 0b11 == (control >> 9) & 0b11
            &&& w & 0x5A00_0000 == 0x5A00_0000
        }),
{
}

proof fn lemma_divisor_fields(word: u32, divi: u32, divf: u32)
    by (bit_vector)
    requires
        divi <= 0xFFF,
        divf <= 0xFFF,
    ensures
        ({
            let w: u32 = (word & !0x00FF_FFFFu32) | ((0x5A00_0000u32 | (divi << 12)) | divf);
            &&& (w >> 12) & 0xFFF == divi
            &&& w & 0xFFF == divf
            &&& w & 0x5A00_0000 == 0x5A00_0000
        }),
        (word >> 12) & 0xFFF <= 0xFFF,
        word & 0xFFF <= 0xFFF,
        (word >> 9) & 0b11 <= 3,
        word & 0b1111 <= 15,
{
}

/// After the access that enables or disables the channel, the control word
/// says so, holds the mash mode and the source that it held, and carries the
/// password.
pub proof fn law_set_enabled(control: u32, enabled: bool)
    ensures
        enabled_of(enable_op(enabled).spec_apply(control)) == enabled,
        mash_code_of(enable_op(enabled).spec_apply(control)) == mash_code_of(control),
        source_code_of(enable_op(enabled).spec_apply(control)) == source_code_of(control),
        has_password(enable_op(enabled).spec_apply(control)),
{
    let enable: u32 = if enabled { 1 } else { 0 };
    lemma_control_fields(control, enable, 0, 0);
    assert(1u32 << 4 == 16u32) by (bit_vector);
    assert(0u32 << 4 == 0u32) by (bit_vector);
}

/// After the access that sets the mash mode, the control word holds it, the
/// enable bit and the source that it held, and the password.
pub proof fn law_set_mash_mode(control: u32, mode: MashMode)
    ensures
        mash_code_of(mash_op(mode).spec_apply(control)) == mode.index_of(),
        enabled_of(mash_op(mode).spec_apply(control)) == enabled_of(control),
        source_code_of(mash_op(mode).spec_apply(control)) == source_code_of(control),
        has_password(mash_op(mode).spec_apply(control)),
{
    lemma_control_fields(control, 0, mode.index_of() as u32, 0);
}

/// After the access that sets the source, the control word holds it, the
/// enable bit and the mash mode that it held, and the password.
pub proof fn law_set_source(control: u32, source: ClockSource)
    ensures
        source_code_of(source_op(source).spec_apply(control)) == source.index_of(),
        enabled_of(source_op(source).spec_apply(control)) == enabled_of(control),
        mash_code_of(source_op(source).spec_apply(control)) == mash_code_of(control),
        has_password(source_op(source).spec_apply(control)),
{
    lemma_control_fields(control, 0, 0, source.index_of());
}

/// After the access that sets the divisor, the divisor word holds both parts
/// and the password.
pub proof fn law_set_divisor(word: u32, divi: u16, divf: u16)
    requires
        divi <= 0xFFF,
        divf <= 0xFFF,
    ensures
        divi_of(divisor_op(divi, divf).spec_apply(word)) == divi,
        divf_of(divisor_op(divi, divf).spec_apply(word)) == divf,
        has_password(divisor_op(divi, divf).spec_apply(word)),
{
    lemma_divisor_fields(word, divi as u32, divf as u32);
}

/// Every access to the registers of a channel is an access to a whole word
/// inside the window over the channel.
pub proof fn law_accesses_lie_in_window(enabled: bool, mode: MashMode, source: ClockSource, divi:
    u16, divf: u16)
    ensures
        enable_op(enabled).spec_offset() == CONTROL_OFFSET,
        mash_op(mode).spec_offset() == CONTROL_OFFSET,
        source_op(source).spec_offset() == CONTROL_OFFSET,
        divisor_op(divi, divf).spec_offset() == DIVISOR_OFFSET,
        CONTROL_OFFSET % 4 == 0 && CONTROL_OFFSET + 4 <= CLOCK_WINDOW_LEN,
        DIVISOR_OFFSET % 4 == 0 && DIVISOR_OFFSET + 4 <= CLOCK_WINDOW_LEN,
{
}

/// A pair of parts whose fractional part is below one whole is recovered
/// from its divisor.
pub proof fn law_divisor_round_trip(divi: u16, divf: u16)
    requires
        1 <= divi <= 0xFFF,
        divf < 1024,
    ensures
        divisor_valid(divisor_of_parts(divi, divf) as u32),
        divisor_of_parts(divi, divf) / 1024 == divi,
        divisor_of_parts(divi, divf) % 1024 == divf,
{
}

/// A valid divisor is the divisor of its parts.
pub proof fn law_parts_round_trip(divisor: u32)
    requires
        divisor_valid(divisor),
    ensures
        parts_valid((divisor / 1024) as u16, (divisor % 1024) as u16),
        divisor_of_parts((divisor / 1024) as u16, (divisor % 1024) as u16) == divisor,
{
}

/// One channel of the clock generator.
#[derive(Debug)]
pub struct RawClockDriver {
    offset: u32,
}

impl RawClockDriver {
    /// The offset of the channel from the base of the clock generator.
    pub closed spec fn spec_offset(&self) -> u32 {
        self.offset
    }

    /// The channel at an offset from the base of the clock generator.
    pub fn with_offset(offset: u32) -> (r: GpioResult<Self>)
        ensures
            r matches Ok(driver) && driver.spec_offset() == offset,
    {
        Ok(RawClockDriver { offset })
    }

    /// The offset of the channel from the base of the clock generator.
    pub fn offset(&self) -> (offset: u32)
        ensures
            offset == self.spec_offset(),
    {
        self.offset
    }

    /// The physical address of the window to map over the channel.
    pub fn window_address(&self) -> (address: u64)
        ensures
            address == CLOCK_BASE + self.spec_offset(),
    {
        CLOCK_BASE as u64 + self.offset as u64
    }

    /// General-purpose clock 0.
    pub fn get_gp0() -> (r: GpioResult<Self>)
        ensures
            r matches Ok(driver) && driver.spec_offset() == 0x70,
    {
        Self::with_offset(0x70)
    }

    /// General-purpose clock 1.
    pub fn get_gp1() -> (r: GpioResult<Self>)
        ensures
            r matches Ok(driver) && driver.spec_offset() == 0x78,
    {
        Self::with_offset(0x78)
    }

    /// General-purpose clock 2.
    pub fn get_gp2() -> (r: GpioResult<Self>)
        ensures
            r matches Ok(driver) && driver.spec_offset() == 0x80,
    {
        Self::with_offset(0x80)
    }

    /// The clock of the audio interface.
    pub fn get_pcm() -> (r: GpioResult<Self>)
        ensures
            r matches Ok(driver) && driver.spec_offset() == 0x98,
    {
        Self::with_offset(0x98)
    }

    /// The clock of the pulse-width modulator, with the access that disables
    /// it, to be made before anything else.
    pub fn get_pwm() -> (r: GpioResult<(Self, RegisterOp)>)
        ensures
            r matches Ok((driver, op)) && driver.spec_offset() == 0xA0 && op == enable_op(false),
    {
        let mut pwm: RawClockDriver = Self::with_offset(0xA0)?;
        let op: RegisterOp = pwm.set_enabled(false)?;
        Ok((pwm, op))
    }

    /// The parts of a divisor given in units of 1/1024: the integer part is
    /// the number of wholes, the fractional part the units that remain.
    /// `InvalidArgument` where the integer part is 0 or above 4095.
    pub fn divisor_to_divi_divf(divisor: u32) -> (r: GpioResult<(u16, u16)>)
        ensures
            !divisor_valid(divisor) <==> r == Err::<(u16, u16), GpioError>(
                GpioError::InvalidArgument,
            ),
            divisor_valid(divisor) <==> r == Ok::<(u16, u16), GpioError>(
                ((divisor / 1024) as u16, (divisor % 1024) as u16),
            ),
            r matches Ok((divi, divf)) ==> parts_valid(divi, divf) && divf < 1024
                && divisor_of_parts(divi, divf) == divisor,
    {
        let wholes: u32 = divisor / DIVISOR_UNITS;
        let int_part: u16 = if wholes > 0xFFFF { 0xFFFF } else { wholes as u16 };
        let frac_part: u16 = (divisor % DIVISOR_UNITS) as u16;
        if int_part > FIELD_MAX || int_part == 0 {
            return Err(GpioError::InvalidArgument);
        }
        if frac_part > FIELD_MAX {
            return Err(GpioError::InvalidArgument);
        }
        Ok((int_part, frac_part))
    }

    /// The divisor of two parts, in units of 1/1024: `InvalidArgument` where
    /// the integer part is 0 or a part is above 4095.
    pub fn divi_divf_to_divisor(divi: u16, divf: u16) -> (r: GpioResult<u32>)
        ensures
            !parts_valid(divi, divf) <==> r == Err::<u32, GpioError>(GpioError::InvalidArgument),
            parts_valid(divi, divf) <==> r == Ok::<u32, GpioError>(
                divisor_of_parts(divi, divf) as u32,
            ),
    {
        if divi == 0 || divi > FIELD_MAX || divf > FIELD_MAX {
            return Err(GpioError::InvalidArgument);
        }
        Ok(divi as u32 * DIVISOR_UNITS + divf as u32)
    }

    /// Whether the channel is busy, from its control word.
    pub fn get_busy(&self, control: u32) -> (r: GpioResult<bool>)
        ensures
            r == Ok::<bool, GpioError>(busy_of(control)),
    {
        let value: u32 = (control >> 7) & 0b1;
        Ok(value != 0)
    }

    /// Whether the channel is enabled, from its control word.
    pub fn enabled(&self, control: u32) -> (r: GpioResult<bool>)
        ensures
            r == Ok::<bool, GpioError>(enabled_of(control)),
    {
        let value: u32 = (control >> 4) & 0b1;
        Ok(value != 0)
    }

    /// The access that enables or disables the channel.
    pub fn set_enabled(&mut self, enabled: bool) -> (r: GpioResult<RegisterOp>)
        ensures
            *final(self) == *old(self),
            r == Ok::<RegisterOp, GpioError>(enable_op(enabled)),
    {
        let bit: u32 = if enabled { 0b1u32 << 4 } else { 0 };
        Ok(RegisterOp::Update { offset: CONTROL_OFFSET, mask: 0b1u32 << 4, bits: PASSWORD | bit })
    }

    /// The mash mode, from the control word.
    pub fn mash_mode(&self, control: u32) -> (r: GpioResult<MashMode>)
        ensures
            r matches Ok(mode) && mode.index_of() == mash_code_of(control),
    {
        let value: u32 = (control >> 9) & 0b11;
        proof {
            lemma_divisor_fields(control, 0, 0);
        }
        MashMode::from_index(value as u8)
    }

    /// The access that sets the mash mode.
    pub fn set_mash_mode(&mut self, mode: MashMode) -> (r: GpioResult<RegisterOp>)
        ensures
            *final(self) == *old(self),
            r == Ok::<RegisterOp, GpioError>(mash_op(mode)),
    {
        let value: u8 = mode.to_index();
        Ok(
            RegisterOp::Update {
                offset: CONTROL_OFFSET,
                mask: 0b11u32 << 9,
                bits: PASSWORD | ((value as u32) << 9),
            },
        )
    }

    /// The source, from the control word.
    pub fn source(&self, control: u32) -> (r: GpioResult<ClockSource>)
        ensures
            r == Ok::<ClockSource, GpioError>(ClockSource::of_index(source_code_of(control))),
    {
        let value: u32 = control & 0b1111;
        ClockSource::from_index(value)
    }

    /// The access that sets the source.
    pub fn set_source(&mut self, source: ClockSource) -> (r: GpioResult<RegisterOp>)
        ensures
            *final(self) == *old(self),
            r == Ok::<RegisterOp, GpioError>(source_op(source)),
    {
        let value: u32 = source.to_index();
        Ok(RegisterOp::Update { offset: CONTROL_OFFSET, mask: 0b1111u32, bits: PASSWORD | value })
    }

    /// The divisor in units of 1/1024, from the divisor word:
    /// `InvalidArgument` where the integer part is 0, as it is before the
    /// channel was ever set up.
    pub fn divisor(&self, word: u32) -> (r: GpioResult<u32>)
        ensures
            divi_of(word) == 0 <==> r == Err::<u32, GpioError>(GpioError::InvalidArgument),
            divi_of(word) != 0 <==> r == Ok::<u32, GpioError>(
                (1024 * divi_of(word) + divf_of(word)) as u32,
            ),
    {
        let divi: u32 = (word >> 12) & 0xFFF;
        let divf: u32 = word & 0xFFF;
        proof {
            lemma_divisor_fields(word, 0, 0);
        }
        let divisor: u32 = Self::divi_divf_to_divisor(divi as u16, divf as u16)?;
        Ok(divisor)
    }

    /// The access that sets the divisor, given in units of 1/1024:
    /// `InvalidArgument` where the integer part is 0 or above 4095.
    pub fn set_divisor(&mut self, divisor: u32) -> (r: GpioResult<RegisterOp>)
        ensures
            *final(self) == *old(self),
            !divisor_valid(divisor) <==> r == Err::<RegisterOp, GpioError>(
                GpioError::InvalidArgument,
            ),
            divisor_valid(divisor) <==> r == Ok::<RegisterOp, GpioError>(
                divisor_op((divisor / 1024) as u16, (divisor % 1024) as u16),
            ),
    {
        let (divi, divf): (u16, u16) = Self::divisor_to_divi_divf(divisor)?;
        Ok(
            RegisterOp::Update {
                offset: DIVISOR_OFFSET,
                mask: 0x00FF_FFFFu32,
                bits: PASSWORD | ((divi as u32) << 12) | (divf as u32),
            },
        )
    }
}

} // verus!
