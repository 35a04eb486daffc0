//! Transient storage of a runtime-chosen size, used through guards that
//! track initialization.
//!
//! A caller asks for room for `size` elements and receives an
//! [`guards::UninitializedSliceMemoryGuard`]: a handle over reserved,
//! not-yet-initialized storage. Filling the storage turns the handle into a
//! [`guards::SliceMemoryGuard`], which owns the constructed values and
//! releases them when it goes out of scope. The dispatch entry points in this
//! module decide, from the requested size and the element type, whether the
//! storage may come from a small fixed-capacity bucket or must be reserved
//! exactly; either way the caller observes exactly `size` slots.

pub mod buckets;
pub mod guards;

use vstd::prelude::*;
use crate::buckets::chooses_automatic;
use crate::buckets::dispatched_region;
use crate::guards::SliceRegion;
use crate::guards::UninitializedMemoryGuard;
use crate::guards::UninitializedSliceMemoryGuard;

verus! {

/// Single-value variant: hands `consumer` an uninitialized guard over one
/// slot of `T` and returns the consumer's result unchanged. No size
/// dispatch is involved for a single slot.
pub fn inplace<T, R, Consumer: FnOnce(UninitializedMemoryGuard<T>) -> R>(
    consumer: Consumer,
) -> (result: R)
    requires
        forall|g: UninitializedMemoryGuard<T>| call_requires(consumer, (g,)),
    ensures
        exists|g: UninitializedMemoryGuard<T>| call_ensures(consumer, (g,), result),
{
    let guard = UninitializedMemoryGuard::<T>::new();
    let ghost witness = guard;
    consumer(guard)
}

/// Heap-only variant of the dispatch: reserves storage for exactly `size`
/// elements, never consulting the bucket table, and hands the consumer a
/// guard of length exactly `size`.
pub fn alloc_array<T, R, Consumer: FnOnce(UninitializedSliceMemoryGuard<T>) -> R>(
    size: usize,
    consumer: Consumer,
) -> (result: R)
    requires
        forall|g: UninitializedSliceMemoryGuard<T>|
            g@ == (SliceRegion { offset: 0, len: size as nat, automatic: false })
                ==> call_requires(consumer, (g,)),
    ensures
        exists|g: UninitializedSliceMemoryGuard<T>|
            g@ == (SliceRegion { offset: 0, len: size as nat, automatic: false })
                && call_ensures(consumer, (g,), result),
{
    let guard = UninitializedSliceMemoryGuard::<T>::new(size, false);
    let ghost witness = guard;
    consumer(guard)
}

/// Tries the automatic-storage path: when the bucket table covers `size` and
/// the rounded capacity fits the byte limit, the consumer runs on a
/// bucket-backed guard of length exactly `size`; otherwise the consumer is
/// handed back untouched.
fn try_inplace_array<T, R, Consumer: FnOnce(UninitializedSliceMemoryGuard<T>) -> R>(
    size: usize,
    consumer: Consumer,
) -> (res: Result<R, Consumer>)
    requires
        buckets::automatic_storage_chosen::<T>(size as nat) ==> forall|
            g: UninitializedSliceMemoryGuard<T>,
        |
            g@ == (SliceRegion { offset: 0, len: size as nat, automatic: true })
                ==> call_requires(consumer, (g,)),
    ensures
        res is Ok <==> buckets::automatic_storage_chosen::<T>(size as nat),
        res matches Ok(result) ==> exists|g: UninitializedSliceMemoryGuard<T>|
            g@ == (SliceRegion { offset: 0, len: size as nat, automatic: true })
                && call_ensures(consumer, (g,), result),
        res matches Err(c) ==> c == consumer,
{
    if chooses_automatic::<T>(size) {
        let guard = UninitializedSliceMemoryGuard::<T>::new(size, true);
        let ghost witness = guard;
        Ok(consumer(guard))
    } else {
        Err(consumer)
    }
}

/// Size-dispatch entry point: chooses bucket-backed or exactly-sized storage
/// for `size` elements of `T` and runs `consumer` on an uninitialized guard
/// of length exactly `size`, returning the consumer's result unchanged.
///
/// The storage choice is a function of `size` and `T` alone (see
/// [`buckets::automatic_storage_chosen`]), so repeated calls with the same
/// arguments always take the same path.
pub fn inplace_or_alloc_array<T, R, Consumer>(size: usize, consumer: Consumer) -> (result: R) where
    Consumer: FnOnce(UninitializedSliceMemoryGuard<T>) -> R,

    requires
        forall|g: UninitializedSliceMemoryGuard<T>|
            g@ == dispatched_region::<T>(size as nat) ==> call_requires(consumer, (g,)),
    ensures
        exists|g: UninitializedSliceMemoryGuard<T>|
            g@ == dispatched_region::<T>(size as nat) && call_ensures(consumer, (g,), result),
{
    match try_inplace_array(size, consumer) {
        Ok(result) => result,
        Err(consumer) => alloc_array(size, consumer),
    }
}

} // verus!
