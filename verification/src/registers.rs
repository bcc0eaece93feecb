//! Accesses to a memory-mapped register block, as values.
//!
//! A driver of this crate never touches a register. It says which 32-bit word
//! to access and what to store there; the owner of the mapped window performs
//! the access, volatile and whole-word.

use vstd::prelude::*;

verus! {

/// One access to a register block. `offset` is in bytes from the start of the
/// block and is a multiple of four.
#[derive(Copy, Clone, Debug, PartialEq, Eq, Structural)]
pub enum RegisterOp {
    /// Read the word, clear the bits under `mask`, set `bits`, store the word.
    Update { offset: usize, mask: u32, bits: u32 },
    /// Store `value`, whatever the word held.
    Write { offset: usize, value: u32 },
}

impl RegisterOp {
    /// The byte offset of the word that the access is made on.
    pub open spec fn spec_offset(&self) -> usize {
        match *self {
            RegisterOp::Update { offset, .. } => offset,
            RegisterOp::Write { offset, .. } => offset,
        }
    }

    /// The word to store, given the word that was read.
    pub open spec fn spec_apply(&self, old_word: u32) -> u32 {
        match *self {
            RegisterOp::Update { mask, bits, .. } => (old_word & !mask) | bits,
            RegisterOp::Write { value, .. } => value,
        }
    }

    /// Whether the word has to be read before it is stored.
    pub open spec fn spec_reads(&self) -> bool {
        *self is Update
    }

    /// The byte offset of the word that the access is made on.
    #[verifier::when_used_as_spec(spec_offset)]
    pub fn offset(&self) -> (offset: usize)
        ensures
            offset == self.spec_offset(),
    {
        match self {
            RegisterOp::Update { offset, .. } => *offset,
            RegisterOp::Write { offset, .. } => *offset,
        }
    }

    /// Whether the word has to be read before it is stored.
    #[verifier::when_used_as_spec(spec_reads)]
    pub fn reads(&self) -> (reads: bool)
        ensures
            reads == self.spec_reads(),
    {
        match self {
            RegisterOp::Update { .. } => true,
            RegisterOp::Write { .. } => false,
        }
    }

    /// The word to store, given the word that was read. For a plain write the
    /// argument is ignored.
    #[verifier::when_used_as_spec(spec_apply)]
    pub fn apply(&self, old_word: u32) -> (new_word: u32)
        ensures
            new_word == self.spec_apply(old_word),
    {
        match self {
            RegisterOp::Update { mask, bits, .. } => (old_word & !*mask) | *bits,
            RegisterOp::Write { value, .. } => *value,
        }
    }
}

} // verus!
