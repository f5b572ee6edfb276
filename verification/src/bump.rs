//! The bump arena allocator.
//!
//! An arena is constructed with a fixed capacity and no reserved
//! region. The region is reserved lazily: the first caller that finds
//! `needs_reservation` true obtains a block of address space (an
//! operation outside this library) and records its base address with
//! `complete_reservation`. From then on `alloc` serves requests by
//! rounding the current offset up to the requested alignment and
//! advancing the offset past the consumed bytes; nothing is ever
//! reclaimed, so `deallocate` leaves the arena untouched.

use vstd::prelude::*;

use crate::align::{align_to, lemma_mod_sum_zero, lemma_round_up_properties, round_up};
use vstd::arithmetic::power2::is_pow2;

verus! {

/// The two unrecoverable failures of the arena: the one-time address
/// space reservation could not be obtained, or the bump offset would
/// move a request past the arena's capacity.
#[derive(Clone, Copy, Debug, PartialEq, Eq)]
pub enum AllocError {
    ReservationFailure,
    CapacityExhausted,
}

/// The bytes an allocation of `size` at alignment `align` consumes
/// from the offset: `size + align`, rounded up to a multiple of
/// `align`. The deliberate extra `align` bytes guarantee room for the
/// alignment adjustment of the start without a second pass.
pub open spec fn consumed(size: int, align: int) -> int
    recommends
        align >= 1,
{
    round_up(size + align, align)
}

/// The address an allocation starting at offset `off` in an arena
/// based at `base` is served from: the offset rounded up to the
/// requested alignment, relative to the base.
pub open spec fn served_address(base: int, off: int, align: int) -> int
    recommends
        align >= 1,
{
    base + round_up(off, align)
}

pub struct BumpAllocator {
    size: usize,
    offset: usize,
    base: usize,
    reserved: bool,
}

impl BumpAllocator {
    /// Total reservable size in bytes, fixed at construction.
    pub closed spec fn spec_capacity(&self) -> int {
        self.size as int
    }

    /// Bytes already claimed from the region; never decreases.
    pub closed spec fn spec_offset(&self) -> int {
        self.offset as int
    }

    /// Start address of the reserved region, meaningful once reserved.
    pub closed spec fn spec_base(&self) -> int {
        self.base as int
    }

    /// Whether the one-time reservation has been performed.
    pub closed spec fn spec_reserved(&self) -> bool {
        self.reserved
    }

    /// A reserved arena's region lies within the address space: every
    /// address `base + k` with `k <= capacity` fits in a `usize`.
    pub open spec fn wf(&self) -> bool {
        self.spec_reserved() ==> self.spec_base() + self.spec_capacity() <= usize::MAX
    }

    /// Creates a new empty bump allocator with the default capacity of
    /// 1 GiB. No address space is reserved yet.
    pub fn new() -> (r: BumpAllocator)
        ensures
            r.spec_capacity() == 1024 * 1024 * 1024,
            r.spec_offset() == 0,
            !r.spec_reserved(),
            r.wf(),
    {
        BumpAllocator::with_size(1024 * 1024 * 1024)
    }

    /// Creates a new empty bump allocator of capacity `size`. No
    /// address space is reserved yet.
    pub fn with_size(size: usize) -> (r: BumpAllocator)
        ensures
            r.spec_capacity() == size,
            r.spec_offset() == 0,
            !r.spec_reserved(),
            r.wf(),
    {
        BumpAllocator { size, offset: 0, base: 0, reserved: false }
    }

    /// True until the one-time reservation has been recorded.
    pub fn needs_reservation(&self) -> (r: bool)
        ensures
            r == !self.spec_reserved(),
    {
        !self.reserved
    }

    /// Records the outcome of the one-time address space reservation.
    ///
    /// `base` is the start address the reservation handed back, or
    /// `None` when the reservation failed. A successful outcome marks
    /// the arena reserved, once and for all: the precondition forbids
    /// a second reservation, so `base` is assigned exactly once over
    /// the arena's lifetime. A failed outcome leaves the arena
    /// untouched and reports the fatal `ReservationFailure`.
    pub fn complete_reservation(&mut self, base: Option<usize>) -> (r: Result<(), AllocError>)
        requires
            !old(self).spec_reserved(),
            base matches Some(b) ==> b + old(self).spec_capacity() <= usize::MAX,
        ensures
            final(self).spec_capacity() == old(self).spec_capacity(),
            final(self).spec_offset() == old(self).spec_offset(),
            final(self).wf(),
            r is Ok <==> base is Some,
            base matches Some(b) ==> final(self).spec_reserved() && final(self).spec_base() == b,
            base is None ==> r == Err::<(), AllocError>(AllocError::ReservationFailure)
                && *final(self) == *old(self),
    {
        match base {
            Some(b) => {
                self.base = b;
                self.reserved = true;
                Ok(())
            },
            None => Err(AllocError::ReservationFailure),
        }
    }

    /// Serves one allocation request from the reserved region.
    ///
    /// The start is the current offset rounded up to `align`; the
    /// offset advances by `consumed(size, align)` whether or not the
    /// request succeeds, so a failing request irrecoverably burns
    /// capacity. The request succeeds exactly when the aligned range
    /// of `size` bytes still lies within the capacity; the address
    /// handed back is then aligned relative to the base, inside the
    /// region, and past every previously served range.
    pub fn allocate(&mut self, size: usize, align: usize) -> (r: Result<usize, AllocError>)
        requires
            old(self).wf(),
            old(self).spec_reserved(),
            is_pow2(align as int),
            old(self).spec_offset() + consumed(size as int, align as int) <= usize::MAX,
        ensures
            final(self).spec_capacity() == old(self).spec_capacity(),
            final(self).spec_base() == old(self).spec_base(),
            final(self).spec_reserved(),
            final(self).wf(),
            final(self).spec_offset() == old(self).spec_offset() + consumed(
                size as int,
                align as int,
            ),
            final(self).spec_offset() >= old(self).spec_offset(),
            r is Ok <==> round_up(old(self).spec_offset(), align as int) + size
                <= old(self).spec_capacity(),
            r matches Ok(p) ==> {
                &&& p == served_address(old(self).spec_base(), old(self).spec_offset(), align as int)
                &&& (p - old(self).spec_base()) % (align as int) == 0
                &&& old(self).spec_base() % (align as int) == 0 ==> p as int % (align as int) == 0
                &&& old(self).spec_base() <= p
                &&& p + size <= old(self).spec_base() + old(self).spec_capacity()
                &&& p + size <= old(self).spec_base() + final(self).spec_offset()
            },
            r is Err ==> r == Err::<usize, AllocError>(AllocError::CapacityExhausted),
    {
        proof {
            reveal(vstd::arithmetic::power2::is_pow2);
            assert(align >= 1);
            lemma_round_up_properties(size as int + align as int, align as int);
            lemma_round_up_properties(self.offset as int, align as int);
        }
        let bytes_required = align_to(size + align, align);
        let my_offset = self.offset;
        self.offset = my_offset + bytes_required;
        let aligned_offset = align_to(my_offset, align);
        if aligned_offset + size > self.size {
            Err(AllocError::CapacityExhausted)
        } else {
            proof {
                if self.base as int % (align as int) == 0 {
                    lemma_mod_sum_zero(
                        self.base as int,
                        round_up(my_offset as int, align as int),
                        align as int,
                    );
                }
            }
            Ok(self.base + aligned_offset)
        }
    }

    /// Deallocation never reclaims memory: the arena's state is left
    /// exactly as it was, whatever pointer and layout are handed in,
    /// and every other live allocation stays intact.
    pub fn deallocate(&mut self, _ptr: usize, _size: usize, _align: usize)
        ensures
            *final(self) == *old(self),
    {
    }

    /// The fixed capacity in bytes.
    pub fn capacity(&self) -> (r: usize)
        ensures
            r == self.spec_capacity(),
    {
        self.size
    }

    /// The bytes claimed from the region so far.
    pub fn offset(&self) -> (r: usize)
        ensures
            r == self.spec_offset(),
    {
        self.offset
    }

    /// The recorded base address, zero until the reservation is done.
    pub fn base(&self) -> (r: usize)
        ensures
            r == self.spec_base(),
    {
        self.base
    }
}

} // verus!
