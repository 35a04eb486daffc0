//! The bucket table of the size-dispatch allocator: a monotone step function
//! that rounds a requested element count up to one of a fixed menu of
//! capacities, and the feasibility test that decides between bucket-backed
//! (automatic) storage and exactly-sized (heap) storage.

use vstd::prelude::*;
use crate::guards::SliceRegion;

verus! {

/// Largest element count the bucket table covers. Requests beyond it always
/// take the exactly-sized path.
pub const MAX_BUCKET_CAPACITY: usize = 4096;

/// Ceiling, in bytes, on the storage a bucket may occupy. A bucket whose
/// byte size exceeds it is not used, and the exactly-sized path is taken.
pub const BUCKET_BYTE_LIMIT: usize = 4096;

/// The bucket step function: counts up to 32 get a bucket of exactly their
/// size, larger counts are rounded up to the next multiple of 32. The result
/// is never smaller than `size`.
pub open spec fn bucket_spec(size: nat) -> nat {
    if size <= 32 {
        size
    } else {
        ((size + 31) / 32) * 32
    }
}

/// Whether the dispatch places `size` elements of `T` in bucket-backed
/// automatic storage: the bucket table must cover `size`, and the bucket's
/// byte size must stay within [`BUCKET_BYTE_LIMIT`]. A function of `size`
/// and `T` alone, so the choice is deterministic.
pub open spec fn automatic_storage_chosen<T>(size: nat) -> bool {
    size <= MAX_BUCKET_CAPACITY && bucket_spec(size) * vstd::layout::size_of::<T>()
        <= BUCKET_BYTE_LIMIT
}

/// The region the dispatch hands to its consumer for a request of `size`
/// elements of `T`: it starts at the region's origin, holds exactly `size`
/// slots whichever storage was picked, and records the storage choice.
pub open spec fn dispatched_region<T>(size: nat) -> SliceRegion {
    SliceRegion { offset: 0, len: size, automatic: automatic_storage_chosen::<T>(size) }
}

/// Rounds a covered element count up to its bucket's capacity.
pub fn bucket_of(size: usize) -> (bucket: usize)
    requires
        size <= MAX_BUCKET_CAPACITY,
    ensures
        bucket == bucket_spec(size as nat),
        size <= bucket,
{
    if size <= 32 {
        size
    } else {
        ((size + 31) / 32) * 32
    }
}

/// Decides the storage strategy for `size` elements of `T`.
pub fn chooses_automatic<T>(size: usize) -> (automatic: bool)
    ensures
        automatic == automatic_storage_chosen::<T>(size as nat),
{
    if size > MAX_BUCKET_CAPACITY {
        false
    } else {
        let bucket = bucket_of(size);
        match bucket.checked_mul(core::mem::size_of::<T>()) {
            Some(bytes) => bytes <= BUCKET_BYTE_LIMIT,
            None => false,
        }
    }
}

/// The storage decision is deterministic: two dispatches of the same size
/// with the same element type resolve to the same region, so in particular
/// to the same storage strategy.
pub proof fn lemma_dispatch_deterministic<T>(first: SliceRegion, second: SliceRegion, size: nat)
    requires
        first == dispatched_region::<T>(size),
        second == dispatched_region::<T>(size),
    ensures
        first.automatic == second.automatic,
        first.len == second.len,
        first == second,
{
}

/// The bucket table never under-allocates: the chosen bucket always covers
/// the requested count.
pub proof fn lemma_bucket_covers(size: nat)
    ensures
        bucket_spec(size) >= size,
{
    if size > 32 {
        assert(((size + 31) / 32) * 32 >= size) by (nonlinear_arith);
    }
}

} // verus!
