//! The allocator of a fixed pool of pins: which indices are leased out.
//!
//! The flags live in a `bitvec::vec::BitVec` over atomic bytes, so that the
//! owner of a pool may share it between threads; the pool itself is a
//! sequential state machine, and every change to it goes through `&mut self`.

use crate::error::{GpioError, GpioResult};
use bitvec::vec::BitVec;
use std::sync::atomic::AtomicU8;
use vstd::prelude::*;

verus! {

/// Trusted: a `bitvec::vec::BitVec<AtomicU8>`, one flag per pin. The verifier
/// sees nothing inside it; what it holds is named by [`flags_of`].
#[verifier::external_body]
pub struct LeaseBits {
    bits: BitVec<AtomicU8>,
}

/// Trusted name: the flags that a bit vector holds, in index order.
pub uninterp spec fn flags_of(bits: LeaseBits) -> Seq<bool>;

/// The largest pool: the longest bit vector that `bitvec` can address where
/// `usize` has 32 bits.
pub const MAX_POOL: usize = 0x1FFF_FFFF;

/// Trusted: `BitVec::repeat(false, len)`. The crate builds a vector of `len`
/// bits, every one of them clear; it panics only where `len` is above its
/// `MAX_BITS`, an eighth of the range of `usize`, which `requires` leaves out.
#[verifier::external_body]
fn bits_cleared(len: usize) -> (bits: LeaseBits)
    requires
        len <= MAX_POOL,
    ensures
        flags_of(bits) == Seq::new(len as nat, |i: int| false),
{
    LeaseBits { bits: BitVec::repeat(false, len) }
}

/// Trusted: `BitVec::len`, the number of bits.
#[verifier::external_body]
fn bits_len(bits: &LeaseBits) -> (len: usize)
    ensures
        len == flags_of(*bits).len(),
{
    bits.bits.len()
}

/// Trusted: indexing a `BitSlice` by `usize`, which yields the bit at that
/// index and panics out of bounds; `requires` leaves that out.
#[verifier::external_body]
fn bits_get(bits: &LeaseBits, index: usize) -> (bit: bool)
    requires
        index < flags_of(*bits).len(),
    ensures
        bit == flags_of(*bits)[index as int],
{
    bits.bits[index]
}

/// Trusted: `BitSlice::set_aliased`, which stores `value` at `index` with an
/// atomic access to the one byte that holds the bit, leaves every other bit
/// and the length as they were, and panics out of bounds; `requires` leaves
/// that out.
#[verifier::external_body]
fn bits_put(bits: &mut LeaseBits, index: usize, value: bool)
    requires
        index < flags_of(*old(bits)).len(),
    ensures
        flags_of(*final(bits)) == flags_of(*old(bits)).update(index as int, value),
{
    bits.bits.set_aliased(index, value)
}

/// What leasing one index does to a pool: the new flags, or the error.
pub open spec fn lease_outcome(used: Seq<bool>, index: int) -> GpioResult<Seq<bool>> {
    if index < 0 || index >= used.len() {
        Err(GpioError::InvalidArgument)
    } else if used[index] {
        Err(GpioError::AlreadyInUse)
    } else {
        Ok(used.update(index, true))
    }
}

/// The flags after one index is released.
pub open spec fn after_release(used: Seq<bool>, index: int) -> Seq<bool> {
    if 0 <= index < used.len() {
        used.update(index, false)
    } else {
        used
    }
}

/// Whether every requested index names a pin of the pool.
pub open spec fn all_in_range(count: nat, indices: Seq<usize>) -> bool {
    forall|k: int| 0 <= k < indices.len() ==> (#[trigger] indices[k]) < count
}

/// Whether some requested index is leased out.
pub open spec fn any_leased(used: Seq<bool>, indices: Seq<usize>) -> bool {
    exists|k: int| 0 <= k < indices.len() && used[#[trigger] indices[k] as int]
}

/// The flags after every requested index is leased.
pub open spec fn with_all_leased(used: Seq<bool>, indices: Seq<usize>) -> Seq<bool> {
    Seq::new(used.len(), |p: int| used[p] || indices.contains(p as usize))
}

/// The flags after every requested index is released.
pub open spec fn with_all_released(used: Seq<bool>, indices: Seq<usize>) -> Seq<bool> {
    Seq::new(used.len(), |p: int| used[p] && !indices.contains(p as usize))
}

/// What leasing a bus does to a pool: all of its indices or none.
pub open spec fn lease_all_outcome(used: Seq<bool>, indices: Seq<usize>) -> GpioResult<
    Seq<bool>,
> {
    if !all_in_range(used.len(), indices) {
        Err(GpioError::InvalidArgument)
    } else if any_leased(used, indices) {
        Err(GpioError::AlreadyInUse)
    } else {
        Ok(with_all_leased(used, indices))
    }
}

/// The leases of a fixed pool of pins.
pub struct PinPool {
    used: LeaseBits,
}

impl PinPool {
    /// The flags of the pool: `self@[i]` says whether pin `i` is leased out.
    pub closed spec fn view(&self) -> Seq<bool> {
        flags_of(self.used)
    }

    /// A pool of `count` pins, none of them leased.
    pub fn new(count: usize) -> (pool: PinPool)
        requires
            count <= MAX_POOL,
        ensures
            pool@ == Seq::new(count as nat, |i: int| false),
    {
        PinPool { used: bits_cleared(count) }
    }

    /// The number of pins in the pool.
    pub fn count(&self) -> (count: usize)
        ensures
            count == self@.len(),
    {
        bits_len(&self.used)
    }

    /// Whether `index` names a pin that is leased out.
    pub fn is_leased(&self, index: usize) -> (leased: bool)
        ensures
            leased == (index < self@.len() && self@[index as int]),
    {
        index < bits_len(&self.used) && bits_get(&self.used, index)
    }

    /// Leases one pin: `InvalidArgument` out of range, `AlreadyInUse` where the
    /// pin is leased out; a failed call changes nothing.
    pub fn lease(&mut self, index: usize) -> (r: GpioResult<()>)
        ensures
            match lease_outcome(old(self)@, index as int) {
                Ok(used) => r is Ok && final(self)@ == used,
                Err(error) => r == Err::<(), GpioError>(error) && final(self)@ == old(self)@,
            },
    {
        if index >= bits_len(&self.used) {
            return Err(GpioError::InvalidArgument);
        }
        if bits_get(&self.used, index) {
            return Err(GpioError::AlreadyInUse);
        }
        bits_put(&mut self.used, index, true);
        Ok(())
    }

    /// Releases one pin. An index out of range is ignored.
    pub fn release(&mut self, index: usize)
        ensures
            final(self)@ == after_release(old(self)@, index as int),
    {
        if index < bits_len(&self.used) {
            bits_put(&mut self.used, index, false);
        }
    }

    /// Leases every pin of a bus, or none: `InvalidArgument` where an index is
    /// out of range, else `AlreadyInUse` where one is leased out; a failed call
    /// changes nothing.
    pub fn lease_all<const N: usize>(&mut self, indices: &[usize; N]) -> (r: GpioResult<()>)
        ensures
            match lease_all_outcome(old(self)@, indices@) {
                Ok(used) => r is Ok && final(self)@ == used,
                Err(error) => r == Err::<(), GpioError>(error) && final(self)@ == old(self)@,
            },
    {
        let count: usize = bits_len(&self.used);
        let mut k: usize = 0;
        while k < N
            invariant
                k <= N,
                indices@.len() == N,
                count == self@.len(),
                self@ == old(self)@,
                forall|j: int| 0 <= j < k ==> (#[trigger] indices@[j]) < count,
            decreases N - k,
        {
            if indices[k] >= count {
                assert(!(indices@[k as int] < count));
                return Err(GpioError::InvalidArgument);
            }
            k += 1;
        }
        k = 0;
        while k < N
            invariant
                k <= N,
                indices@.len() == N,
                count == self@.len(),
                self@ == old(self)@,
                all_in_range(count as nat, indices@),
                forall|j: int| 0 <= j < k ==> !self@[#[trigger] indices@[j] as int],
            decreases N - k,
        {
            if bits_get(&self.used, indices[k]) {
                return Err(GpioError::AlreadyInUse);
            }
            k += 1;
        }
        k = 0;
        while k < N
            invariant
                k <= N,
                indices@.len() == N,
                self@.len() == old(self)@.len() == count,
                all_in_range(count as nat, indices@),
                forall|p: int|
                    0 <= p < count ==> self@[p] == (old(self)@[p] || indices@.take(
                        k as int,
                    ).contains(p as usize)),
            decreases N - k,
        {
            let ghost before: Seq<bool> = self@;
            bits_put(&mut self.used, indices[k], true);
            proof {
                let done: Seq<usize> = indices@.take(k as int);
                let next: Seq<usize> = indices@.take(k as int + 1);
                assert(next == done.push(indices@[k as int]));
                assert forall|p: int| 0 <= p < count implies self@[p] == (old(self)@[p]
                    || next.contains(p as usize)) by {
                    if p == indices@[k as int] as int {
                        assert(next[k as int] == p as usize);
                    } else if done.contains(p as usize) {
                        let w: int = choose|w: int| 0 <= w < done.len() && done[w] == p as usize;
                        assert(next[w] == p as usize);
                    } else if next.contains(p as usize) {
                        let w: int = choose|w: int| 0 <= w < next.len() && next[w] == p as usize;
                        assert(w < k);
                        assert(done[w] == p as usize);
                    }
                }
            }
            k += 1;
        }
        proof {
            assert(indices@.take(N as int) == indices@);
            assert(self@ =~= with_all_leased(old(self)@, indices@));
        }
        Ok(())
    }

    /// Releases every pin of a bus. An index out of range is ignored.
    pub fn release_all<const N: usize>(&mut self, indices: &[usize; N])
        ensures
            final(self)@ == with_all_released(old(self)@, indices@),
    {
        let count: usize = bits_len(&self.used);
        let mut k: usize = 0;
        while k < N
            invariant
                k <= N,
                indices@.len() == N,
                self@.len() == old(self)@.len() == count,
                forall|p: int|
                    0 <= p < count ==> self@[p] == (old(self)@[p] && !indices@.take(
                        k as int,
                    ).contains(p as usize)),
            decreases N - k,
        {
            let index: usize = indices[k];
            if index < count {
                bits_put(&mut self.used, index, false);
            }
            proof {
                let done: Seq<usize> = indices@.take(k as int);
                let next: Seq<usize> = indices@.take(k as int + 1);
                assert(next == done.push(indices@[k as int]));
                assert forall|p: int| 0 <= p < count implies self@[p] == (old(self)@[p]
                    && !next.contains(p as usize)) by {
                    if p == index as int {
                        assert(next[k as int] == p as usize);
                    } else if done.contains(p as usize) {
                        let w: int = choose|w: int| 0 <= w < done.len() && done[w] == p as usize;
                        assert(next[w] == p as usize);
                    } else if next.contains(p as usize) {
                        let w: int = choose|w: int| 0 <= w < next.len() && next[w] == p as usize;
                        assert(w < k);
                        assert(done[w] == p as usize);
                    }
                }
            }
            k += 1;
        }
        proof {
            assert(indices@.take(N as int) == indices@);
            assert(self@ =~= with_all_released(old(self)@, indices@));
        }
    }
}

/// A pin that was leased cannot be leased again until it is released: the
/// second request is refused with `AlreadyInUse`, and a request after the
/// release is granted.
pub proof fn law_lease_is_exclusive(used: Seq<bool>, index: int)
    requires
        lease_outcome(used, index) is Ok,
    ensures
        lease_outcome(lease_outcome(used, index)->Ok_0, index) == Err::<Seq<bool>, GpioError>(
            GpioError::AlreadyInUse,
        ),
        lease_outcome(after_release(lease_outcome(used, index)->Ok_0, index), index) is Ok,
        after_release(lease_outcome(used, index)->Ok_0, index) == used,
{
    let leased: Seq<bool> = lease_outcome(used, index)->Ok_0;
    assert(after_release(leased, index) =~= used);
}

/// For every index of the pool, a request for a pin that is leased out is
/// refused with `AlreadyInUse`, whoever holds it, and changes nothing.
pub proof fn law_leased_pin_is_refused(used: Seq<bool>, index: int)
    requires
        0 <= index < used.len(),
        used[index],
    ensures
        lease_outcome(used, index) == Err::<Seq<bool>, GpioError>(GpioError::AlreadyInUse),
{
}

/// A bus request that names a leased pin fails as a whole, and a bus request
/// that fails leaves every pin of the pool as it was: no other pin of the
/// request becomes leased.
pub proof fn law_bus_lease_is_all_or_nothing(used: Seq<bool>, indices: Seq<usize>, k: int)
    requires
        0 <= k < indices.len(),
        indices[k] < used.len(),
        used[indices[k] as int],
    ensures
        lease_all_outcome(used, indices) is Err,
        all_in_range(used.len(), indices) ==> lease_all_outcome(used, indices) == Err::<
            Seq<bool>,
            GpioError,
        >(GpioError::AlreadyInUse),
{
}

/// A bus request that is granted leases exactly the requested pins: every pin
/// of the request is leased afterwards, and every other pin is as it was.
pub proof fn law_bus_lease_takes_its_pins(used: Seq<bool>, indices: Seq<usize>)
    requires
        lease_all_outcome(used, indices) is Ok,
    ensures
        forall|k: int|
            0 <= k < indices.len() ==> lease_all_outcome(used, indices)->Ok_0[#[trigger] indices[k] as int],
        forall|p: int|
            0 <= p < used.len() && !indices.contains(p as usize) ==> lease_all_outcome(
                used,
                indices,
            )->Ok_0[p] == used[p],
        forall|k: int| 0 <= k < indices.len() ==> !used[#[trigger] indices[k] as int],
{
    let leased: Seq<bool> = lease_all_outcome(used, indices)->Ok_0;
    assert forall|k: int| 0 <= k < indices.len() implies leased[#[trigger] indices[k] as int] by {
        assert(indices[k] < used.len());
        assert(indices.contains(indices[k]));
    }
}

} // verus!
