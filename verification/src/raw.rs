//! The general-purpose pin block, register by register.
//!
//! | Register        | Offset                | Layout                         |
//! |-----------------|-----------------------|--------------------------------|
//! | function select | `0x00 + 4 * (pin/10)` | 3 bits per pin, 10 pins a word |
//! | output set      | `0x1C + 4 * (pin/32)` | 1 bit per pin, write 1 to set  |
//! | output clear    | `0x28 + 4 * (pin/32)` | 1 bit per pin, write 1 to clear|
//! | level           | `0x34 + 4 * (pin/32)` | 1 bit per pin, read only       |
//! | pull up / down  | `0xE4 + 4 * (pin/16)` | 2 bits per pin, 16 pins a word |

use crate::bits::{field_get, lemma_field_set_get, lemma_field_set_other};
use crate::error::{GpioError, GpioResult};
use crate::gpio::{GpioActiveLevel, GpioBias, GpioDriveMode};
use crate::lease::{
    after_release, lease_all_outcome, lease_outcome, with_all_released, PinPool,
};
use crate::registers::RegisterOp;
use vstd::prelude::*;

verus! {

/// The number of pins of the block.
pub const PIN_COUNT: usize = 58;

/// The physical address of the block.
pub const GPIO_BASE: u32 = 0x3F20_0000;

/// The length in bytes of the window to map over the block.
pub const GPIO_WINDOW_LEN: usize = 4096;

/// The function code of an input.
pub const FUNCTION_INPUT: u8 = 0;

/// The function code of an output.
pub const FUNCTION_OUTPUT: u8 = 1;

/// The byte offset of the function-select word of a pin.
pub open spec fn select_offset(pin: usize) -> usize {
    (4 * (pin / 10)) as usize
}

/// The position of a pin's field in its function-select word.
pub open spec fn select_shift(pin: usize) -> u32 {
    (3 * (pin % 10)) as u32
}

/// The access that gives a pin a function.
pub open spec fn select_op(pin: usize, function: u8) -> RegisterOp {
    RegisterOp::Update {
        offset: select_offset(pin),
        mask: 0b111u32 << select_shift(pin),
        bits: (function as u32) << select_shift(pin),
    }
}

/// The function of a pin, read from its function-select word.
pub open spec fn pin_function_of(word: u32, pin: usize) -> u32 {
    field_get(word, select_shift(pin), 0b111)
}

/// The byte offset of the word that sets (`high`) or clears a pin's output.
pub open spec fn output_offset(pin: usize, high: bool) -> usize {
    ((if high { 0x1Cint } else { 0x28int }) + 4 * (pin / 32)) as usize
}

/// The access that sets or clears the output level of a pin.
pub open spec fn output_op(pin: usize, high: bool) -> RegisterOp {
    RegisterOp::Write { offset: output_offset(pin, high), value: 1u32 << ((pin % 32) as u32) }
}

/// The byte offset of the level word of a pin.
pub open spec fn level_offset(pin: usize) -> usize {
    (0x34 + 4 * (pin / 32)) as usize
}

/// The physical level of a pin, read from its level word.
pub open spec fn pin_level_of(word: u32, pin: usize) -> bool {
    (word >> ((pin % 32) as u32)) & 1 != 0
}

/// The byte offset of the pull word of a pin.
pub open spec fn bias_offset(pin: usize) -> usize {
    (0xE4 + 4 * (pin / 16)) as usize
}

/// The position of a pin's field in its pull word.
pub open spec fn bias_shift(pin: usize) -> u32 {
    (2 * (pin % 16)) as u32
}

/// The code of a bias in a pull field.
pub open spec fn bias_code(bias: GpioBias) -> u32 {
    match bias {
        GpioBias::NoBias => 0b00,
        GpioBias::PullUp => 0b01,
        GpioBias::PullDown => 0b10,
    }
}

/// The bias that a pull field holds; the code `0b11` stands for none.
pub open spec fn bias_of_code(code: u32) -> Option<GpioBias> {
    if code == 0b00 {
        Some(GpioBias::NoBias)
    } else if code == 0b01 {
        Some(GpioBias::PullUp)
    } else if code == 0b10 {
        Some(GpioBias::PullDown)
    } else {
        None
    }
}

/// The access that gives a pin a bias.
pub open spec fn bias_op(pin: usize, bias: GpioBias) -> RegisterOp {
    RegisterOp::Update {
        offset: bias_offset(pin),
        mask: 0b11u32 << bias_shift(pin),
        bits: bias_code(bias) << bias_shift(pin),
    }
}

/// The bias of a pin, read from its pull word.
pub open spec fn pin_bias_of(word: u32, pin: usize) -> Option<GpioBias> {
    bias_of_code(field_get(word, bias_shift(pin), 0b11))
}

/// The accesses that put a physical level on a pin under a drive mode: where
/// the mode drives the level, the pin becomes an output and the level is set
/// or cleared; where it does not, the pin becomes an input and floats.
pub open spec fn drive_ops(pin: usize, high: bool, mode: GpioDriveMode) -> Seq<RegisterOp> {
    match mode.state_of(high) {
        Some(level) => seq![select_op(pin, FUNCTION_OUTPUT), output_op(pin, level)],
        None => seq![select_op(pin, FUNCTION_INPUT)],
    }
}

/// The accesses that bring a pin to its safe default: input, no bias, output
/// level low.
pub open spec fn reset_ops(pin: usize) -> Seq<RegisterOp> {
    seq![select_op(pin, FUNCTION_INPUT), bias_op(pin, GpioBias::NoBias), output_op(pin, false)]
}

/// The accesses that give every pin of a bus a function, in bus order.
pub open spec fn bus_select_ops(pins: Seq<usize>, function: u8) -> Seq<RegisterOp> {
    Seq::new(pins.len(), |i: int| select_op(pins[i], function))
}

/// The accesses that give every pin of a bus a bias, in bus order.
pub open spec fn bus_bias_ops(pins: Seq<usize>, bias: GpioBias) -> Seq<RegisterOp> {
    Seq::new(pins.len(), |i: int| bias_op(pins[i], bias))
}

/// The accesses that put physical levels on the first `n` pins of a bus, in
/// bus order.
pub open spec fn bus_drive_ops(
    pins: Seq<usize>,
    levels: Seq<bool>,
    mode: GpioDriveMode,
    n: nat,
) -> Seq<RegisterOp>
    decreases n,
{
    if n == 0 {
        Seq::empty()
    } else {
        bus_drive_ops(pins, levels, mode, (n - 1) as nat) + drive_ops(
            pins[n - 1],
            levels[n - 1],
            mode,
        )
    }
}

/// The accesses that bring every one of the first `n` pins of a bus to its
/// safe default, in bus order.
pub open spec fn bus_reset_ops(pins: Seq<usize>, n: nat) -> Seq<RegisterOp>
    decreases n,
{
    if n == 0 {
        Seq::empty()
    } else {
        bus_reset_ops(pins, (n - 1) as nat) + reset_ops(pins[n - 1])
    }
}

/// The physical levels that bring logical values onto a bus.
pub open spec fn physical_levels(active_level: GpioActiveLevel, values: Seq<bool>) -> Seq<bool> {
    Seq::new(values.len(), |i: int| active_level.state_of(values[i]))
}

proof fn lemma_select_field(slot: u32)
    by (bit_vector)
    requires
        slot < 10,
    ensures
        3 * slot < 32,
        ((0b111u32 << (3 * slot)) >> (3 * slot)) == 0b111u32,
{
}

proof fn lemma_select_fields_apart(slot: u32, other: u32)
    by (bit_vector)
    requires
        slot < 10,
        other < 10,
        slot != other,
    ensures
        (0b111u32 << (3 * other)) & (0b111u32 << (3 * slot)) == 0,
{
}

proof fn lemma_bias_field(slot: u32)
    by (bit_vector)
    requires
        slot < 16,
    ensures
        2 * slot < 32,
        ((0b11u32 << (2 * slot)) >> (2 * slot)) == 0b11u32,
{
}

proof fn lemma_bias_fields_apart(slot: u32, other: u32)
    by (bit_vector)
    requires
        slot < 16,
        other < 16,
        slot != other,
    ensures
        (0b11u32 << (2 * other)) & (0b11u32 << (2 * slot)) == 0,
{
}

proof fn lemma_small_codes(function: u32, code: u32)
    by (bit_vector)
    ensures
        function <= 7 ==> function & !0b111u32 == 0,
        code <= 3 ==> code & !0b11u32 == 0,
        (function & 0b111) <= 7,
        (code & 0b11) <= 3,
{
}

/// A pin has the function that was written to it, and writing the function of
/// one pin leaves the function of every other pin of the same word as it was.
pub proof fn law_function_select(word: u32, pin: usize, function: u8, other: usize)
    requires
        pin < PIN_COUNT,
        function <= 0b111,
    ensures
        pin_function_of(select_op(pin, function).spec_apply(word), pin) == function,
        other != pin && select_offset(other) == select_offset(pin) ==> pin_function_of(
            select_op(pin, function).spec_apply(word),
            other,
        ) == pin_function_of(word, other),
{
    let slot: u32 = (pin % 10) as u32;
    lemma_select_field(slot);
    lemma_small_codes(function as u32, 0);
    assert(select_shift(pin) == 3 * slot);
    lemma_field_set_get(word, select_shift(pin), 0b111, function as u32);
    if other != pin && select_offset(other) == select_offset(pin) {
        let other_slot: u32 = (other % 10) as u32;
        assert(other / 10 == pin / 10);
        assert(other_slot != slot);
        lemma_select_field(other_slot);
        lemma_select_fields_apart(slot, other_slot);
        assert(select_shift(other) == 3 * other_slot);
        lemma_field_set_other(
            word,
            select_shift(pin),
            0b111,
            function as u32,
            select_shift(other),
            0b111,
        );
    }
}

/// A pin has the bias that was written to it, and writing the bias of one pin
/// leaves the bias of every other pin of the same word as it was.
pub proof fn law_bias(word: u32, pin: usize, bias: GpioBias, other: usize)
    requires
        pin < PIN_COUNT,
    ensures
        pin_bias_of(bias_op(pin, bias).spec_apply(word), pin) == Some(bias),
        other != pin && bias_offset(other) == bias_offset(pin) ==> pin_bias_of(
            bias_op(pin, bias).spec_apply(word),
            other,
        ) == pin_bias_of(word, other),
{
    let slot: u32 = (pin % 16) as u32;
    lemma_bias_field(slot);
    lemma_small_codes(0, bias_code(bias));
    assert(bias_shift(pin) == 2 * slot);
    lemma_field_set_get(word, bias_shift(pin), 0b11, bias_code(bias));
    if other != pin && bias_offset(other) == bias_offset(pin) {
        let other_slot: u32 = (other % 16) as u32;
        assert(other / 16 == pin / 16);
        assert(other_slot != slot);
        lemma_bias_field(other_slot);
        lemma_bias_fields_apart(slot, other_slot);
        assert(bias_shift(other) == 2 * other_slot);
        lemma_field_set_other(
            word,
            bias_shift(pin),
            0b11,
            bias_code(bias),
            bias_shift(other),
            0b11,
        );
    }
}

/// Every access to the registers of a pin is an access to a whole word inside
/// the window over the block.
pub proof fn law_accesses_lie_in_window(pin: usize, function: u8, high: bool, bias: GpioBias)
    requires
        pin < PIN_COUNT,
    ensures
        select_op(pin, function).spec_offset() % 4 == 0,
        select_op(pin, function).spec_offset() + 4 <= GPIO_WINDOW_LEN,
        output_op(pin, high).spec_offset() % 4 == 0,
        output_op(pin, high).spec_offset() + 4 <= GPIO_WINDOW_LEN,
        bias_op(pin, bias).spec_offset() % 4 == 0,
        bias_op(pin, bias).spec_offset() + 4 <= GPIO_WINDOW_LEN,
        level_offset(pin) % 4 == 0,
        level_offset(pin) + 4 <= GPIO_WINDOW_LEN,
{
}

/// A pin in push-pull mode is an output at either level. A pin in open-drain
/// mode is an output that is cleared for the low level and an input for the
/// high one; a pin in open-source mode is an output that is set for the high
/// level and an input for the low one.
pub proof fn law_drive_modes(pin: usize, high: bool)
    ensures
        drive_ops(pin, high, GpioDriveMode::PushPull) == seq![
            select_op(pin, FUNCTION_OUTPUT),
            output_op(pin, high),
        ],
        drive_ops(pin, false, GpioDriveMode::OpenDrain) == seq![
            select_op(pin, FUNCTION_OUTPUT),
            output_op(pin, false),
        ],
        drive_ops(pin, true, GpioDriveMode::OpenDrain) == seq![select_op(pin, FUNCTION_INPUT)],
        drive_ops(pin, true, GpioDriveMode::OpenSource) == seq![
            select_op(pin, FUNCTION_OUTPUT),
            output_op(pin, true),
        ],
        drive_ops(pin, false, GpioDriveMode::OpenSource) == seq![select_op(pin, FUNCTION_INPUT)],
{
}

/// The driver of the pin block: the leases of its pins, and the accesses that
/// each operation makes on its registers. There is one block, and a program
/// makes one driver for it: a handle says which pin it holds, not which
/// driver leased it.
pub struct RawGpioDriver {
    used_pins: PinPool,
}

impl RawGpioDriver {
    /// The pool holds one flag for each pin of the block. `new` establishes
    /// it and every method keeps it.
    pub closed spec fn wf(&self) -> bool {
        self.used_pins@.len() == PIN_COUNT
    }

    /// Which pins are leased out: `leases()[i]` for pin `i`.
    pub closed spec fn leases(&self) -> Seq<bool> {
        self.used_pins@
    }

    /// A driver knows of every pin of the block, and of no other.
    pub proof fn law_pool_size(&self)
        requires
            self.wf(),
        ensures
            self.leases().len() == PIN_COUNT,
    {
    }

    /// A request for a bus whose pins are all pins of the block, and one of
    /// them leased out, is refused with `AlreadyInUse`.
    pub proof fn law_bus_with_leased_pin_is_refused(&self, indices: Seq<usize>, k: int)
        requires
            self.wf(),
            forall|j: int| 0 <= j < indices.len() ==> (#[trigger] indices[j]) < PIN_COUNT,
            0 <= k < indices.len(),
            self.leases()[indices[k] as int],
        ensures
            lease_all_outcome(self.leases(), indices) == Err::<Seq<bool>, GpioError>(
                GpioError::AlreadyInUse,
            ),
    {
    }

    /// A request for a pin of the block that is free is granted, and one for
    /// an index that is no pin of the block is refused with
    /// `InvalidArgument`.
    pub proof fn law_lease_by_index(&self, index: usize)
        requires
            self.wf(),
        ensures
            index >= PIN_COUNT ==> lease_outcome(self.leases(), index as int) == Err::<
                Seq<bool>,
                GpioError,
            >(GpioError::InvalidArgument),
            index < PIN_COUNT && !self.leases()[index as int] ==> lease_outcome(
                self.leases(),
                index as int,
            ) is Ok,
    {
    }

    /// A driver with every pin free.
    pub fn new() -> (driver: RawGpioDriver)
        ensures
            driver.wf(),
            driver.leases() == Seq::new(PIN_COUNT as nat, |i: int| false),
    {
        RawGpioDriver { used_pins: PinPool::new(PIN_COUNT) }
    }

    /// The number of pins.
    pub fn count(&self) -> (r: GpioResult<usize>)
        ensures
            r == Ok::<usize, GpioError>(PIN_COUNT),
    {
        Ok(PIN_COUNT)
    }

    /// Whether a pin is leased out.
    pub fn is_leased(&self, index: usize) -> (leased: bool)
        requires
            self.wf(),
        ensures
            leased == (index < PIN_COUNT && self.leases()[index as int]),
    {
        self.used_pins.is_leased(index)
    }

    /// The byte offset of the word to read for the function of a pin.
    pub fn pin_function_offset(pin_index: usize) -> (r: GpioResult<usize>)
        ensures
            pin_index >= PIN_COUNT <==> r == Err::<usize, GpioError>(GpioError::InvalidArgument),
            pin_index < PIN_COUNT <==> r == Ok::<usize, GpioError>(select_offset(pin_index)),
    {
        if pin_index >= PIN_COUNT {
            return Err(GpioError::InvalidArgument);
        }
        Ok(4 * (pin_index / 10))
    }

    /// The function of a pin, from the word read at
    /// [`pin_function_offset`](Self::pin_function_offset).
    pub fn raw_get_pin_function(pin_index: usize, word: u32) -> (r: GpioResult<u32>)
        ensures
            pin_index >= PIN_COUNT <==> r == Err::<u32, GpioError>(GpioError::InvalidArgument),
            pin_index < PIN_COUNT <==> r == Ok::<u32, GpioError>(
                pin_function_of(word, pin_index),
            ),
            r matches Ok(function) ==> function <= 0b111,
    {
        if pin_index >= PIN_COUNT {
            return Err(GpioError::InvalidArgument);
        }
        let shift: u32 = ((pin_index % 10) * 3) as u32;
        let value: u32 = (word >> shift) & 0b111;
        proof {
            lemma_small_codes(word >> shift, 0);
        }
        Ok(value)
    }

    /// The access that gives a pin a function: `InvalidArgument` for a
    /// function above `0b111` or a pin out of range.
    pub fn raw_set_pin_function(pin_index: usize, function: u8) -> (r: GpioResult<RegisterOp>)
        ensures
            (function > 0b111 || pin_index >= PIN_COUNT) <==> r == Err::<RegisterOp, GpioError>(
                GpioError::InvalidArgument,
            ),
            (function <= 0b111 && pin_index < PIN_COUNT) <==> r == Ok::<RegisterOp, GpioError>(
                select_op(pin_index, function),
            ),
    {
        if function > 0b111 {
            return Err(GpioError::InvalidArgument);
        }
        if pin_index >= PIN_COUNT {
            return Err(GpioError::InvalidArgument);
        }
        let shift: u32 = ((pin_index % 10) * 3) as u32;
        Ok(
            RegisterOp::Update {
                offset: 4 * (pin_index / 10),
                mask: 0b111u32 << shift,
                bits: (function as u32) << shift,
            },
        )
    }

    /// The access that sets (`high`) or clears the output level of a pin.
    pub fn raw_set_pin_output(pin_index: usize, high: bool) -> (r: GpioResult<RegisterOp>)
        ensures
            pin_index >= PIN_COUNT <==> r == Err::<RegisterOp, GpioError>(
                GpioError::InvalidArgument,
            ),
            pin_index < PIN_COUNT <==> r == Ok::<RegisterOp, GpioError>(
                output_op(pin_index, high),
            ),
    {
        if pin_index >= PIN_COUNT {
            return Err(GpioError::InvalidArgument);
        }
        let base: usize = if high { 0x1C } else { 0x28 };
        let shift: u32 = (pin_index % 32) as u32;
        Ok(RegisterOp::Write { offset: base + 4 * (pin_index / 32), value: 1u32 << shift })
    }

    /// The byte offset of the word to read for the level of a pin.
    pub fn pin_level_offset(pin_index: usize) -> (r: GpioResult<usize>)
        ensures
            pin_index >= PIN_COUNT <==> r == Err::<usize, GpioError>(GpioError::InvalidArgument),
            pin_index < PIN_COUNT <==> r == Ok::<usize, GpioError>(level_offset(pin_index)),
    {
        if pin_index >= PIN_COUNT {
            return Err(GpioError::InvalidArgument);
        }
        Ok(0x34 + 4 * (pin_index / 32))
    }

    /// The physical level of a pin, from the word read at
    /// [`pin_level_offset`](Self::pin_level_offset).
    pub fn raw_get_pin_level(pin_index: usize, word: u32) -> (r: GpioResult<bool>)
        ensures
            pin_index >= PIN_COUNT <==> r == Err::<bool, GpioError>(GpioError::InvalidArgument),
            pin_index < PIN_COUNT <==> r == Ok::<bool, GpioError>(pin_level_of(word, pin_index)),
    {
        if pin_index >= PIN_COUNT {
            return Err(GpioError::InvalidArgument);
        }
        let shift: u32 = (pin_index % 32) as u32;
        let level: u32 = (word >> shift) & 1;
        Ok(level != 0)
    }

    /// The accesses that put a physical level on a pin under a drive mode.
    pub fn drive_pin(pin_index: usize, high: bool, mode: GpioDriveMode) -> (r: GpioResult<
        Vec<RegisterOp>,
    >)
        ensures
            pin_index >= PIN_COUNT <==> r == Err::<Vec<RegisterOp>, GpioError>(
                GpioError::InvalidArgument,
            ),
            pin_index < PIN_COUNT <==> r is Ok,
            r matches Ok(ops) ==> ops@ == drive_ops(pin_index, high, mode),
    {
        let mut ops: Vec<RegisterOp> = Vec::new();
        match mode.get_state(high) {
            Some(level) => {
                ops.push(Self::raw_set_pin_function(pin_index, FUNCTION_OUTPUT)?);
                ops.push(Self::raw_set_pin_output(pin_index, level)?);
            },
            None => {
                ops.push(Self::raw_set_pin_function(pin_index, FUNCTION_INPUT)?);
            },
        }
        assert(ops@ =~= drive_ops(pin_index, high, mode));
        Ok(ops)
    }

    /// The access that gives a pin a bias.
    pub fn raw_set_bias(pin_index: usize, bias: GpioBias) -> (r: GpioResult<RegisterOp>)
        ensures
            pin_index >= PIN_COUNT <==> r == Err::<RegisterOp, GpioError>(
                GpioError::InvalidArgument,
            ),
            pin_index < PIN_COUNT <==> r == Ok::<RegisterOp, GpioError>(bias_op(pin_index, bias)),
    {
        if pin_index >= PIN_COUNT {
            return Err(GpioError::InvalidArgument);
        }
        let bias_value: u32 = match bias {
            GpioBias::NoBias => 0b00,
            GpioBias::PullUp => 0b01,
            GpioBias::PullDown => 0b10,
        };
        let shift: u32 = ((pin_index % 16) * 2) as u32;
        Ok(
            RegisterOp::Update {
                offset: 0xE4 + 4 * (pin_index / 16),
                mask: 0b11u32 << shift,
                bits: bias_value << shift,
            },
        )
    }

    /// The byte offset of the word to read for the bias of a pin.
    pub fn pin_bias_offset(pin_index: usize) -> (r: GpioResult<usize>)
        ensures
            pin_index >= PIN_COUNT <==> r == Err::<usize, GpioError>(GpioError::InvalidArgument),
            pin_index < PIN_COUNT <==> r == Ok::<usize, GpioError>(bias_offset(pin_index)),
    {
        if pin_index >= PIN_COUNT {
            return Err(GpioError::InvalidArgument);
        }
        Ok(0xE4 + 4 * (pin_index / 16))
    }

    /// The bias of a pin, from the word read at
    /// [`pin_bias_offset`](Self::pin_bias_offset): `InvalidArgument` for a pin
    /// out of range, `NotSupported` where the field holds the code `0b11`.
    pub fn raw_get_bias(pin_index: usize, word: u32) -> (r: GpioResult<GpioBias>)
        ensures
            pin_index >= PIN_COUNT <==> r == Err::<GpioBias, GpioError>(
                GpioError::InvalidArgument,
            ),
            (pin_index < PIN_COUNT && pin_bias_of(word, pin_index) is None) <==> r == Err::<
                GpioBias,
                GpioError,
            >(GpioError::NotSupported),
            r is Ok <==> pin_index < PIN_COUNT && pin_bias_of(word, pin_index) is Some,
            r matches Ok(bias) ==> pin_bias_of(word, pin_index) == Some(bias),
    {
        if pin_index >= PIN_COUNT {
            return Err(GpioError::InvalidArgument);
        }
        let shift: u32 = ((pin_index % 16) * 2) as u32;
        let bias_value: u32 = (word >> shift) & 0b11;
        if bias_value == 0b00 {
            Ok(GpioBias::NoBias)
        } else if bias_value == 0b01 {
            Ok(GpioBias::PullUp)
        } else if bias_value == 0b10 {
            Ok(GpioBias::PullDown)
        } else {
            Err(GpioError::NotSupported)
        }
    }

    /// The accesses that bring a pin to its safe default.
    pub fn raw_reset(pin_index: usize) -> (r: GpioResult<Vec<RegisterOp>>)
        ensures
            pin_index >= PIN_COUNT <==> r == Err::<Vec<RegisterOp>, GpioError>(
                GpioError::InvalidArgument,
            ),
            pin_index < PIN_COUNT <==> r is Ok,
            r matches Ok(ops) ==> ops@ == reset_ops(pin_index),
    {
        let mut ops: Vec<RegisterOp> = Vec::new();
        ops.push(Self::raw_set_pin_function(pin_index, FUNCTION_INPUT)?);
        ops.push(Self::raw_set_bias(pin_index, GpioBias::NoBias)?);
        ops.push(Self::raw_set_pin_output(pin_index, false)?);
        assert(ops@ =~= reset_ops(pin_index));
        Ok(ops)
    }

    /// Leases one pin: `InvalidArgument` out of range, `AlreadyInUse` where
    /// the pin is leased out. A granted lease comes with the accesses that
    /// bring the pin to its safe default; a refused one changes nothing.
    pub fn get_pin(&mut self, index: usize) -> (r: GpioResult<(RawGpioPin, Vec<RegisterOp>)>)
        requires
            old(self).wf(),
        ensures
            final(self).wf(),
            match lease_outcome(old(self).leases(), index as int) {
                Ok(used) => {
                    &&& r matches Ok((pin, ops))
                    &&& pin.index() == index
                    &&& pin.spec_active_level() == GpioActiveLevel::High
                    &&& pin.spec_drive_mode() == GpioDriveMode::PushPull
                    &&& ops@ == reset_ops(index)
                    &&& final(self).leases() == used
                },
                Err(error) => {
                    &&& r matches Err(e)
                    &&& e == error
                    &&& final(self).leases() == old(self).leases()
                },
            },
    {
        self.used_pins.lease(index)?;
        let ops: Vec<RegisterOp> = match Self::raw_reset(index) {
            Ok(ops) => ops,
            Err(error) => {
                return Err(error);
            },
        };
        Ok(
            (
                RawGpioPin {
                    pin_index: index,
                    active_level: GpioActiveLevel::High,
                    drive_mode: GpioDriveMode::PushPull,
                },
                ops,
            ),
        )
    }

    /// Takes a pin back: frees its index, and returns the accesses that bring
    /// the pin to its safe default, to be made first.
    pub fn release_pin(&mut self, pin: RawGpioPin) -> (ops: Vec<RegisterOp>)
        requires
            old(self).wf(),
        ensures
            final(self).wf(),
            ops@ == reset_ops(pin.index()),
            final(self).leases() == after_release(old(self).leases(), pin.index() as int),
    {
        proof {
            use_type_invariant(&pin);
        }
        let ops: Vec<RegisterOp> = match Self::raw_reset(pin.pin_index) {
            Ok(ops) => ops,
            Err(_) => Vec::new(),
        };
        self.used_pins.release(pin.pin_index);
        ops
    }

    /// Leases a bus, all of its pins or none: `InvalidArgument` where an index
    /// is out of range, else `AlreadyInUse` where a pin is leased out. A
    /// granted lease comes with the accesses that bring every pin to its safe
    /// default; a refused one changes nothing.
    pub fn get_pin_bus<const N: usize>(&mut self, indices: [usize; N]) -> (r: GpioResult<
        (RawGpioBus<N>, Vec<RegisterOp>),
    >)
        requires
            old(self).wf(),
        ensures
            final(self).wf(),
            match lease_all_outcome(old(self).leases(), indices@) {
                Ok(used) => {
                    &&& r matches Ok((bus, ops))
                    &&& bus.pins() == indices@
                    &&& bus.spec_active_level() == GpioActiveLevel::High
                    &&& bus.spec_drive_mode() == GpioDriveMode::PushPull
                    &&& ops@ == bus_reset_ops(indices@, N as nat)
                    &&& final(self).leases() == used
                },
                Err(error) => {
                    &&& r matches Err(e)
                    &&& e == error
                    &&& final(self).leases() == old(self).leases()
                },
            },
    {
        self.used_pins.lease_all(&indices)?;
        let mut ops: Vec<RegisterOp> = Vec::new();
        let mut k: usize = 0;
        while k < N
            invariant
                k <= N,
                indices@.len() == N,
                forall|j: int| 0 <= j < N ==> (#[trigger] indices@[j]) < PIN_COUNT,
                ops@ == bus_reset_ops(indices@, k as nat),
            decreases N - k,
        {
            let pin_index: usize = indices[k];
            ops.push(RegisterOp::Update {
                offset: 4 * (pin_index / 10),
                mask: 0b111u32 << (((pin_index % 10) * 3) as u32),
                bits: 0,
            });
            ops.push(RegisterOp::Update {
                offset: 0xE4 + 4 * (pin_index / 16),
                mask: 0b11u32 << (((pin_index % 16) * 2) as u32),
                bits: 0,
            });
            ops.push(RegisterOp::Write {
                offset: 0x28 + 4 * (pin_index / 32),
                value: 1u32 << ((pin_index % 32) as u32),
            });
            proof {
                lemma_zero_shifted(select_shift(pin_index));
                lemma_zero_shifted(bias_shift(pin_index));
                assert(ops@ =~= bus_reset_ops(indices@, k as nat) + reset_ops(pin_index));
            }
            k += 1;
        }
        Ok(
            (
                RawGpioBus {
                    pin_indices: indices,
                    active_level: GpioActiveLevel::High,
                    drive_mode: GpioDriveMode::PushPull,
                },
                ops,
            ),
        )
    }

    /// Takes a bus back: frees its indices, and returns the accesses that
    /// switch every one of its pins to input, to be made first.
    pub fn release_bus<const N: usize>(&mut self, bus: RawGpioBus<N>) -> (ops: Vec<RegisterOp>)
        requires
            old(self).wf(),
        ensures
            final(self).wf(),
            ops@ == bus_select_ops(bus.pins(), FUNCTION_INPUT),
            final(self).leases() == with_all_released(old(self).leases(), bus.pins()),
    {
        let ops: Vec<RegisterOp> = bus.select_all(FUNCTION_INPUT);
        self.used_pins.release_all(&bus.pin_indices);
        ops
    }
}

proof fn lemma_zero_shifted(shift: u32)
    by (bit_vector)
    requires
        shift < 32,
    ensures
        0u32 << shift == 0,
{
}

/// A leased pin with its policies.
#[derive(Debug)]
pub struct RawGpioPin {
    pin_index: usize,
    active_level: GpioActiveLevel,
    drive_mode: GpioDriveMode,
}

impl RawGpioPin {
    #[verifier::type_invariant]
    spec fn wf(&self) -> bool {
        self.pin_index < PIN_COUNT
    }

    /// The index of the pin.
    pub closed spec fn index(&self) -> usize {
        self.pin_index
    }

    /// The active level of the pin.
    pub closed spec fn spec_active_level(&self) -> GpioActiveLevel {
        self.active_level
    }

    /// The drive mode of the pin.
    pub closed spec fn spec_drive_mode(&self) -> GpioDriveMode {
        self.drive_mode
    }

    /// The index of the pin.
    pub fn pin_index(&self) -> (index: usize)
        ensures
            index == self.index(),
            index < PIN_COUNT,
    {
        proof {
            use_type_invariant(self);
        }
        self.pin_index
    }

    /// The input view of the pin, and the access that switches it to input.
    pub fn as_input(&mut self) -> (r: GpioResult<(RawGpioInput<'_>, RegisterOp)>)
        ensures
            *final(self) == *old(self),
            r matches Ok((input, op)) && input.index() == old(self).index()
                && input.spec_active_level() == old(self).spec_active_level() && op == select_op(
                old(self).index(),
                FUNCTION_INPUT,
            ),
    {
        proof {
            use_type_invariant(&*self);
        }
        let op: RegisterOp = RawGpioDriver::raw_set_pin_function(self.pin_index, FUNCTION_INPUT)?;
        Ok((RawGpioInput { pin: &*self }, op))
    }

    /// The output view of the pin, and the access that switches it to output.
    pub fn as_output(&mut self) -> (r: GpioResult<(RawGpioOutput<'_>, RegisterOp)>)
        ensures
            *final(self) == *old(self),
            r matches Ok((output, op)) && output.index() == old(self).index()
                && output.spec_active_level() == old(self).spec_active_level()
                && output.spec_drive_mode() == old(self).spec_drive_mode() && op == select_op(
                old(self).index(),
                FUNCTION_OUTPUT,
            ),
    {
        proof {
            use_type_invariant(&*self);
        }
        let op: RegisterOp = RawGpioDriver::raw_set_pin_function(self.pin_index, FUNCTION_OUTPUT)?;
        Ok((RawGpioOutput { pin: &*self }, op))
    }

    /// The active level can be set.
    pub fn supports_active_level(&self) -> (supported: bool)
        ensures
            supported,
    {
        true
    }

    /// The active level.
    pub fn active_level(&self) -> (level: GpioActiveLevel)
        ensures
            level == self.spec_active_level(),
    {
        self.active_level
    }

    /// Sets the active level, which the views handed out afterwards apply.
    pub fn set_active_level(&mut self, level: GpioActiveLevel) -> (r: GpioResult<()>)
        ensures
            r is Ok,
            final(self).spec_active_level() == level,
            final(self).index() == old(self).index(),
            final(self).spec_drive_mode() == old(self).spec_drive_mode(),
    {
        proof {
            use_type_invariant(&*self);
        }
        self.active_level = level;
        Ok(())
    }

    /// The bias can be set.
    pub fn supports_bias(&self) -> (supported: bool)
        ensures
            supported,
    {
        true
    }

    /// The byte offset of the word to read for the bias of the pin.
    pub fn bias_offset(&self) -> (offset: usize)
        ensures
            offset == bias_offset(self.index()),
    {
        proof {
            use_type_invariant(self);
        }
        0xE4 + 4 * (self.pin_index / 16)
    }

    /// The bias of the pin, from the word read at
    /// [`bias_offset`](Self::bias_offset); no bias where the field holds the
    /// code `0b11`.
    pub fn bias(&self, word: u32) -> (bias: GpioBias)
        ensures
            bias == match pin_bias_of(word, self.index()) {
                Some(bias) => bias,
                None => GpioBias::NoBias,
            },
    {
        proof {
            use_type_invariant(self);
        }
        match RawGpioDriver::raw_get_bias(self.pin_index, word) {
            Ok(bias) => bias,
            Err(_) => GpioBias::NoBias,
        }
    }

    /// The access that gives the pin a bias.
    pub fn set_bias(&mut self, bias: GpioBias) -> (r: GpioResult<RegisterOp>)
        ensures
            *final(self) == *old(self),
            r == Ok::<RegisterOp, GpioError>(bias_op(old(self).index(), bias)),
    {
        proof {
            use_type_invariant(&*self);
        }
        RawGpioDriver::raw_set_bias(self.pin_index, bias)
    }

    /// The drive mode can be set.
    pub fn supports_drive_mode(&self) -> (supported: bool)
        ensures
            supported,
    {
        true
    }

    /// The drive mode.
    pub fn drive_mode(&self) -> (mode: GpioDriveMode)
        ensures
            mode == self.spec_drive_mode(),
    {
        self.drive_mode
    }

    /// Sets the drive mode, which the output views handed out afterwards
    /// apply.
    pub fn set_drive_mode(&mut self, mode: GpioDriveMode) -> (r: GpioResult<()>)
        ensures
            r is Ok,
            final(self).spec_drive_mode() == mode,
            final(self).index() == old(self).index(),
            final(self).spec_active_level() == old(self).spec_active_level(),
    {
        proof {
            use_type_invariant(&*self);
        }
        self.drive_mode = mode;
        Ok(())
    }
}

/// The input view of a leased pin.
#[derive(Debug)]
pub struct RawGpioInput<'a> {
    pin: &'a RawGpioPin,
}

impl<'a> RawGpioInput<'a> {
    /// The index of the pin.
    pub closed spec fn index(&self) -> usize {
        self.pin.pin_index
    }

    /// The active level that the view applies.
    pub closed spec fn spec_active_level(&self) -> GpioActiveLevel {
        self.pin.active_level
    }

    /// The byte offset of the word to read for the level of the pin.
    pub fn level_offset(&self) -> (offset: usize)
        ensures
            offset == level_offset(self.index()),
    {
        proof {
            use_type_invariant(self.pin);
        }
        0x34 + 4 * (self.pin.pin_index / 32)
    }

    /// The logical value of the pin, from the word read at
    /// [`level_offset`](Self::level_offset): its physical level under the
    /// active level.
    pub fn read(&self, word: u32) -> (r: GpioResult<bool>)
        ensures
            r == Ok::<bool, GpioError>(
                self.spec_active_level().state_of(pin_level_of(word, self.index())),
            ),
    {
        proof {
            use_type_invariant(self.pin);
        }
        let level: bool = RawGpioDriver::raw_get_pin_level(self.pin.pin_index, word)?;
        Ok(self.pin.active_level.get_state(level))
    }
}

/// The output view of a leased pin.
#[derive(Debug)]
pub struct RawGpioOutput<'a> {
    pin: &'a RawGpioPin,
}

impl<'a> RawGpioOutput<'a> {
    /// The index of the pin.
    pub closed spec fn index(&self) -> usize {
        self.pin.pin_index
    }

    /// The active level that the view applies.
    pub closed spec fn spec_active_level(&self) -> GpioActiveLevel {
        self.pin.active_level
    }

    /// The drive mode that the view applies.
    pub closed spec fn spec_drive_mode(&self) -> GpioDriveMode {
        self.pin.drive_mode
    }

    /// The accesses that put a logical value on the pin: its physical level
    /// under the active level, driven or left floating as the drive mode has
    /// it.
    pub fn write(&self, value: bool) -> (r: GpioResult<Vec<RegisterOp>>)
        ensures
            r matches Ok(ops) && ops@ == drive_ops(
                self.index(),
                self.spec_active_level().state_of(value),
                self.spec_drive_mode(),
            ),
    {
        proof {
            use_type_invariant(self.pin);
        }
        RawGpioDriver::drive_pin(
            self.pin.pin_index,
            self.pin.active_level.get_state(value),
            self.pin.drive_mode,
        )
    }
}

/// A leased bus of `N` pins under one policy.
#[derive(Debug)]
pub struct RawGpioBus<const N: usize> {
    pin_indices: [usize; N],
    active_level: GpioActiveLevel,
    drive_mode: GpioDriveMode,
}

impl<const N: usize> RawGpioBus<N> {
    #[verifier::type_invariant]
    spec fn wf(&self) -> bool {
        forall|i: int| 0 <= i < N ==> (#[trigger] self.pin_indices@[i]) < PIN_COUNT
    }

    /// The indices of the pins, in bus order.
    pub closed spec fn pins(&self) -> Seq<usize> {
        self.pin_indices@
    }

    /// The active level of the bus.
    pub closed spec fn spec_active_level(&self) -> GpioActiveLevel {
        self.active_level
    }

    /// The drive mode of the bus.
    pub closed spec fn spec_drive_mode(&self) -> GpioDriveMode {
        self.drive_mode
    }

    /// The indices of the pins, in bus order.
    pub fn pin_indices(&self) -> (indices: [usize; N])
        ensures
            indices@ == self.pins(),
            forall|i: int| 0 <= i < N ==> (#[trigger] indices@[i]) < PIN_COUNT,
    {
        proof {
            use_type_invariant(self);
        }
        self.pin_indices
    }

    /// The accesses that give every pin of the bus a function.
    fn select_all(&self, function: u8) -> (ops: Vec<RegisterOp>)
        requires
            function <= 0b111,
        ensures
            ops@ == bus_select_ops(self.pins(), function),
    {
        proof {
            use_type_invariant(self);
        }
        let mut ops: Vec<RegisterOp> = Vec::new();
        let mut k: usize = 0;
        while k < N
            invariant
                k <= N,
                function <= 0b111,
                self.pin_indices@.len() == N,
                forall|i: int| 0 <= i < N ==> (#[trigger] self.pin_indices@[i]) < PIN_COUNT,
                ops@.len() == k,
                forall|i: int|
                    0 <= i < k ==> ops@[i] == select_op(self.pin_indices@[i], function),
            decreases N - k,
        {
            let pin_index: usize = self.pin_indices[k];
            let shift: u32 = ((pin_index % 10) * 3) as u32;
            ops.push(
                RegisterOp::Update {
                    offset: 4 * (pin_index / 10),
                    mask: 0b111u32 << shift,
                    bits: (function as u32) << shift,
                },
            );
            k += 1;
        }
        assert(ops@ =~= bus_select_ops(self.pins(), function));
        ops
    }

    /// The input view of the bus, and the accesses that switch every pin to
    /// input.
    pub fn as_input(&mut self) -> (r: GpioResult<(RawGpioBusInput<'_, N>, Vec<RegisterOp>)>)
        ensures
            *final(self) == *old(self),
            r matches Ok((input, ops)) && input.pins() == old(self).pins()
                && input.spec_active_level() == old(self).spec_active_level() && ops@
                == bus_select_ops(old(self).pins(), FUNCTION_INPUT),
    {
        proof {
            use_type_invariant(&*self);
        }
        let ops: Vec<RegisterOp> = self.select_all(FUNCTION_INPUT);
        Ok((RawGpioBusInput { bus: &*self }, ops))
    }

    /// The output view of the bus, and the accesses that switch every pin to
    /// output.
    pub fn as_output(&mut self) -> (r: GpioResult<(RawGpioBusOutput<'_, N>, Vec<RegisterOp>)>)
        ensures
            *final(self) == *old(self),
            r matches Ok((output, ops)) && output.pins() == old(self).pins()
                && output.spec_active_level() == old(self).spec_active_level()
                && output.spec_drive_mode() == old(self).spec_drive_mode() && ops@
                == bus_select_ops(old(self).pins(), FUNCTION_OUTPUT),
    {
        proof {
            use_type_invariant(&*self);
        }
        let ops: Vec<RegisterOp> = self.select_all(FUNCTION_OUTPUT);
        Ok((RawGpioBusOutput { bus: &*self }, ops))
    }

    /// The active level can be set.
    pub fn supports_active_level(&self) -> (supported: bool)
        ensures
            supported,
    {
        true
    }

    /// The active level.
    pub fn active_level(&self) -> (level: GpioActiveLevel)
        ensures
            level == self.spec_active_level(),
    {
        self.active_level
    }

    /// Sets the active level, which the views handed out afterwards apply.
    pub fn set_active_level(&mut self, level: GpioActiveLevel) -> (r: GpioResult<()>)
        ensures
            r is Ok,
            final(self).spec_active_level() == level,
            final(self).pins() == old(self).pins(),
            final(self).spec_drive_mode() == old(self).spec_drive_mode(),
    {
        proof {
            use_type_invariant(&*self);
        }
        self.active_level = level;
        Ok(())
    }

    /// The bias can be set.
    pub fn supports_bias(&self) -> (supported: bool)
        ensures
            supported,
    {
        true
    }

    /// The byte offset of the word to read for the bias of the bus, which is
    /// that of its first pin. The bus has a pin.
    pub fn bias_offset(&self) -> (offset: usize)
        requires
            N > 0,
        ensures
            offset == bias_offset(self.pins()[0]),
    {
        proof {
            use_type_invariant(self);
        }
        0xE4 + 4 * (self.pin_indices[0] / 16)
    }

    /// The bias of the bus, which is that of its first pin, from the word
    /// read at [`bias_offset`](Self::bias_offset); no bias where the field
    /// holds the code `0b11`. The bus has a pin.
    pub fn bias(&self, word: u32) -> (bias: GpioBias)
        requires
            N > 0,
        ensures
            bias == match pin_bias_of(word, self.pins()[0]) {
                Some(bias) => bias,
                None => GpioBias::NoBias,
            },
    {
        proof {
            use_type_invariant(self);
        }
        match RawGpioDriver::raw_get_bias(self.pin_indices[0], word) {
            Ok(bias) => bias,
            Err(_) => GpioBias::NoBias,
        }
    }

    /// The accesses that give every pin of the bus a bias.
    pub fn set_bias(&mut self, bias: GpioBias) -> (r: GpioResult<Vec<RegisterOp>>)
        ensures
            *final(self) == *old(self),
            r matches Ok(ops) && ops@ == bus_bias_ops(old(self).pins(), bias),
    {
        proof {
            use_type_invariant(&*self);
        }
        let bias_value: u32 = match bias {
            GpioBias::NoBias => 0b00,
            GpioBias::PullUp => 0b01,
            GpioBias::PullDown => 0b10,
        };
        let mut ops: Vec<RegisterOp> = Vec::new();
        let mut k: usize = 0;
        while k < N
            invariant
                k <= N,
                bias_value == bias_code(bias),
                self.pin_indices@.len() == N,
                forall|i: int| 0 <= i < N ==> (#[trigger] self.pin_indices@[i]) < PIN_COUNT,
                ops@.len() == k,
                forall|i: int| 0 <= i < k ==> ops@[i] == bias_op(self.pin_indices@[i], bias),
            decreases N - k,
        {
            let pin_index: usize = self.pin_indices[k];
            let shift: u32 = ((pin_index % 16) * 2) as u32;
            ops.push(
                RegisterOp::Update {
                    offset: 0xE4 + 4 * (pin_index / 16),
                    mask: 0b11u32 << shift,
                    bits: bias_value << shift,
                },
            );
            k += 1;
        }
        assert(ops@ =~= bus_bias_ops(self.pins(), bias));
        Ok(ops)
    }

    /// The drive mode can be set.
    pub fn supports_drive_mode(&self) -> (supported: bool)
        ensures
            supported,
    {
        true
    }

    /// The drive mode.
    pub fn drive_mode(&self) -> (mode: GpioDriveMode)
        ensures
            mode == self.spec_drive_mode(),
    {
        self.drive_mode
    }

    /// Sets the drive mode, and returns the accesses that put a low level on
    /// every pin under it.
    pub fn set_drive_mode(&mut self, mode: GpioDriveMode) -> (r: GpioResult<Vec<RegisterOp>>)
        ensures
            final(self).spec_drive_mode() == mode,
            final(self).pins() == old(self).pins(),
            final(self).spec_active_level() == old(self).spec_active_level(),
            r matches Ok(ops) && ops@ == bus_drive_ops(
                old(self).pins(),
                Seq::new(N as nat, |i: int| false),
                mode,
                N as nat,
            ),
    {
        proof {
            use_type_invariant(&*self);
        }
        self.drive_mode = mode;
        let levels: [bool; N] = [false; N];
        let ops: Vec<RegisterOp> = drive_all(&self.pin_indices, &levels, mode);
        assert(levels@ =~= Seq::new(N as nat, |i: int| false));
        Ok(ops)
    }
}

/// The accesses that put physical levels on the pins of a bus, in bus order.
fn drive_all<const N: usize>(pins: &[usize; N], levels: &[bool; N], mode: GpioDriveMode) -> (ops:
    Vec<RegisterOp>)
    requires
        forall|i: int| 0 <= i < N ==> (#[trigger] pins@[i]) < PIN_COUNT,
    ensures
        ops@ == bus_drive_ops(pins@, levels@, mode, N as nat),
{
    let mut ops: Vec<RegisterOp> = Vec::new();
    let mut k: usize = 0;
    while k < N
        invariant
            k <= N,
            pins@.len() == N,
            levels@.len() == N,
            forall|i: int| 0 <= i < N ==> (#[trigger] pins@[i]) < PIN_COUNT,
            ops@ == bus_drive_ops(pins@, levels@, mode, k as nat),
        decreases N - k,
    {
        let pin_index: usize = pins[k];
        let ghost before: Seq<RegisterOp> = ops@;
        match mode.get_state(levels[k]) {
            Some(level) => {
                ops.push(
                    RegisterOp::Update {
                        offset: 4 * (pin_index / 10),
                        mask: 0b111u32 << (((pin_index % 10) * 3) as u32),
                        bits: 1u32 << (((pin_index % 10) * 3) as u32),
                    },
                );
                let base: usize = if level { 0x1C } else { 0x28 };
                ops.push(
                    RegisterOp::Write {
                        offset: base + 4 * (pin_index / 32),
                        value: 1u32 << ((pin_index % 32) as u32),
                    },
                );
            },
            None => {
                ops.push(
                    RegisterOp::Update {
                        offset: 4 * (pin_index / 10),
                        mask: 0b111u32 << (((pin_index % 10) * 3) as u32),
                        bits: 0,
                    },
                );
                proof {
                    lemma_zero_shifted(select_shift(pin_index));
                }
            },
        }
        assert(ops@ =~= before + drive_ops(pin_index, levels@[k as int], mode));
        k += 1;
    }
    ops
}

/// The input view of a leased bus.
#[derive(Debug)]
pub struct RawGpioBusInput<'a, const N: usize> {
    bus: &'a RawGpioBus<N>,
}

impl<'a, const N: usize> RawGpioBusInput<'a, N> {
    /// The indices of the pins, in bus order.
    pub closed spec fn pins(&self) -> Seq<usize> {
        self.bus.pin_indices@
    }

    /// The active level that the view applies.
    pub closed spec fn spec_active_level(&self) -> GpioActiveLevel {
        self.bus.active_level
    }

    /// The byte offsets of the words to read for the levels of the pins, one
    /// for each pin in bus order.
    pub fn level_offsets(&self) -> (offsets: [usize; N])
        ensures
            forall|i: int| 0 <= i < N ==> offsets@[i] == level_offset(#[trigger] self.pins()[i]),
    {
        proof {
            use_type_invariant(self.bus);
        }
        let mut offsets: [usize; N] = [0usize; N];
        let mut k: usize = 0;
        while k < N
            invariant
                k <= N,
                self.bus.pin_indices@.len() == N,
                forall|i: int| 0 <= i < N ==> (#[trigger] self.bus.pin_indices@[i]) < PIN_COUNT,
                forall|i: int|
                    0 <= i < k ==> offsets@[i] == level_offset(#[trigger] self.bus.pin_indices@[i]),
            decreases N - k,
        {
            offsets[k] = 0x34 + 4 * (self.bus.pin_indices[k] / 32);
            k += 1;
        }
        offsets
    }

    /// The logical values of the pins, from the words read at
    /// [`level_offsets`](Self::level_offsets): for each pin its physical level
    /// under the active level.
    pub fn read(&self, words: &[u32; N]) -> (r: GpioResult<[bool; N]>)
        ensures
            r matches Ok(values) && forall|i: int|
                0 <= i < N ==> #[trigger] values@[i] == self.spec_active_level().state_of(
                    pin_level_of(words@[i], self.pins()[i]),
                ),
    {
        proof {
            use_type_invariant(self.bus);
        }
        let mut values: [bool; N] = [false; N];
        let mut k: usize = 0;
        while k < N
            invariant
                k <= N,
                self.bus.pin_indices@.len() == N,
                words@.len() == N,
                forall|i: int| 0 <= i < N ==> (#[trigger] self.bus.pin_indices@[i]) < PIN_COUNT,
                forall|i: int|
                    0 <= i < k ==> #[trigger] values@[i] == self.bus.active_level.state_of(
                        pin_level_of(words@[i], self.bus.pin_indices@[i]),
                    ),
            decreases N - k,
        {
            let level: bool = RawGpioDriver::raw_get_pin_level(self.bus.pin_indices[k], words[k])?;
            values[k] = self.bus.active_level.get_state(level);
            k += 1;
        }
        Ok(values)
    }
}

/// The output view of a leased bus.
#[derive(Debug)]
pub struct RawGpioBusOutput<'a, const N: usize> {
    bus: &'a RawGpioBus<N>,
}

impl<'a, const N: usize> RawGpioBusOutput<'a, N> {
    /// The indices of the pins, in bus order.
    pub closed spec fn pins(&self) -> Seq<usize> {
        self.bus.pin_indices@
    }

    /// The active level that the view applies.
    pub closed spec fn spec_active_level(&self) -> GpioActiveLevel {
        self.bus.active_level
    }

    /// The drive mode that the view applies.
    pub closed spec fn spec_drive_mode(&self) -> GpioDriveMode {
        self.bus.drive_mode
    }

    /// The accesses that put logical values on the pins, in bus order: for
    /// each pin its physical level under the active level, driven or left
    /// floating as the drive mode has it.
    pub fn write(&self, values: &[bool; N]) -> (r: GpioResult<Vec<RegisterOp>>)
        ensures
            r matches Ok(ops) && ops@ == bus_drive_ops(
                self.pins(),
                physical_levels(self.spec_active_level(), values@),
                self.spec_drive_mode(),
                N as nat,
            ),
    {
        proof {
            use_type_invariant(self.bus);
        }
        let mut levels: [bool; N] = [false; N];
        let mut k: usize = 0;
        while k < N
            invariant
                k <= N,
                values@.len() == N,
                forall|i: int|
                    0 <= i < k ==> #[trigger] levels@[i] == self.bus.active_level.state_of(values@[i]),
            decreases N - k,
        {
            levels[k] = self.bus.active_level.get_state(values[k]);
            k += 1;
        }
        assert(levels@ =~= physical_levels(self.bus.active_level, values@));
        Ok(drive_all(&self.bus.pin_indices, &levels, self.bus.drive_mode))
    }
}

} // verus!
