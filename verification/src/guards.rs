//! Storage guards: ownership-tracking handles over a reserved storage
//! region, split into an uninitialized state and an initialized state.
//!
//! An uninitialized guard holds room for its elements but no constructed
//! value, so letting it go runs no destructor. Initializing is a one-way,
//! consuming transition: the uninitialized guard is given up and an
//! initialized guard comes back, owning exactly the constructed elements.
//! When the initialized guard goes out of scope, those elements — and no
//! others — are released, each exactly once, by ordinary ownership.

use vstd::prelude::*;
use core::ops::Range;
use crate::buckets::MAX_BUCKET_CAPACITY;
use crate::buckets::bucket_of;

verus! {

/// The abstract description of the storage region behind an uninitialized
/// slice guard: where the region starts relative to the region it was carved
/// from, how many slots it holds, and which storage strategy backs it.
pub struct SliceRegion {
    /// Index, within the originally acquired region, of this region's first
    /// slot.
    pub offset: nat,
    /// Number of slots the guard exposes.
    pub len: nat,
    /// Whether the region is backed by a bucket of automatic storage rather
    /// than an exactly-sized reservation.
    pub automatic: bool,
}

/// A contiguous run of slots reserved for elements of `T`, none of them yet
/// holding a value. Reading it as initialized storage is impossible: the
/// only ways out are the consuming transitions [`Self::init`] and
/// [`Self::init_copy_of`], and narrowing by [`Self::slice`].
pub struct UninitializedSliceMemoryGuard<T> {
    storage: Vec<T>,
    length: usize,
    region: Ghost<SliceRegion>,
}

impl<T> View for UninitializedSliceMemoryGuard<T> {
    type V = SliceRegion;

    closed spec fn view(&self) -> SliceRegion {
        self.region@
    }
}

impl<T> UninitializedSliceMemoryGuard<T> {
    /// Uninitialized storage holds no constructed element, so nothing is
    /// ever destructed through this guard.
    #[verifier::type_invariant]
    closed spec fn wf(self) -> bool {
        self.storage@.len() == 0 && self.region@.len == self.length as nat
    }

    /// Reserves a fresh region of `length` slots: a whole bucket when the
    /// automatic path was chosen, exactly `length` slots otherwise. Only the
    /// dispatch layer acquires regions; ordinary callers receive them.
    pub(crate) fn new(length: usize, automatic: bool) -> (guard: Self)
        requires
            automatic ==> length <= MAX_BUCKET_CAPACITY,
        ensures
            guard@ == (SliceRegion { offset: 0, len: length as nat, automatic }),
    {
        let capacity = if automatic {
            bucket_of(length)
        } else {
            length
        };
        UninitializedSliceMemoryGuard {
            storage: Vec::with_capacity(capacity),
            length,
            region: Ghost(SliceRegion { offset: 0, len: length as nat, automatic }),
        }
    }

    /// Number of slots the guard exposes.
    pub fn len(&self) -> (length: usize)
        ensures
            length == self@.len,
    {
        proof {
            use_type_invariant(self);
        }
        self.length
    }

    /// Narrows the guard to the slots of `range`, counted from this guard's
    /// own start: no new storage, no copy. The range must lie within the
    /// current bounds — a narrower guard never widens them — and the slots
    /// kept are those at offsets `range.start..range.end` of this region.
    pub fn slice(self, range: Range<usize>) -> (narrowed: Self)
        requires
            range.start <= range.end,
            range.end <= self@.len,
        ensures
            narrowed@.offset == self@.offset + range.start,
            narrowed@.len == range.end - range.start,
            narrowed@.automatic == self@.automatic,
    {
        proof {
            use_type_invariant(&self);
        }
        let UninitializedSliceMemoryGuard { storage, length, region } = self;
        UninitializedSliceMemoryGuard {
            storage,
            length: range.end - range.start,
            region: Ghost(
                SliceRegion {
                    offset: region@.offset + range.start as nat,
                    len: (range.end - range.start) as nat,
                    automatic: region@.automatic,
                },
            ),
        }
    }

    /// The uninitialized-to-initialized transition for a slice: consumes the
    /// guard, constructs one element per slot from its index, in ascending
    /// index order, and returns the guard that owns the constructed run.
    /// Every slot of this guard is initialized, and no other.
    pub fn init<F: Fn(usize) -> T>(self, init: F) -> (initialized: SliceMemoryGuard<T>)
        requires
            forall|index: usize| index < self@.len ==> call_requires(init, (index,)),
        ensures
            initialized@.len() == self@.len,
            forall|index: int|
                0 <= index < self@.len ==> call_ensures(
                    init,
                    (index as usize,),
                    #[trigger] initialized@[index],
                ),
    {
        proof {
            use_type_invariant(&self);
        }
        let UninitializedSliceMemoryGuard { storage, length, region: _ } = self;
        let mut memory = storage;
        let mut index: usize = 0;
        while index < length
            invariant
                index <= length,
                memory@.len() == index as nat,
                forall|j: usize| j < length ==> call_requires(init, (j,)),
                forall|j: int|
                    0 <= j < index ==> call_ensures(init, (j as usize,), #[trigger] memory@[j]),
            decreases length - index,
        {
            memory.push(init(index));
            index += 1;
        }
        SliceMemoryGuard { memory }
    }

    /// The copying transition: initializes the first `source.len()` slots
    /// with clones of `source`'s elements, in order, and returns the guard
    /// owning that run. The source must not be longer than the guard; slots
    /// beyond the source's length stay uninitialized and are given up.
    pub fn init_copy_of(self, source: &[T]) -> (initialized: SliceMemoryGuard<T>) where
        T: Clone,

        requires
            source@.len() <= self@.len,
        ensures
            initialized@.len() == source@.len(),
            forall|index: int|
                0 <= index < source@.len() ==> cloned::<T>(
                    source@[index],
                    #[trigger] initialized@[index],
                ),
    {
        let narrowed = self.slice(0..source.len());
        proof {
            use_type_invariant(&narrowed);
        }
        let UninitializedSliceMemoryGuard { storage, length, region: _ } = narrowed;
        let mut memory = storage;
        let mut index: usize = 0;
        while index < length
            invariant
                index <= length,
                length == source@.len(),
                memory@.len() == index as nat,
                forall|j: int| 0 <= j < index ==> cloned::<T>(source@[j], #[trigger] memory@[j]),
            decreases length - index,
        {
            memory.push(source[index].clone());
            index += 1;
        }
        SliceMemoryGuard { memory }
    }
}

/// A contiguous run of constructed elements of `T`, owned by the guard. The
/// elements are readable and writable in place; when the guard goes out of
/// scope they are released front to back, each exactly once, and nothing
/// beyond the run is touched.
pub struct SliceMemoryGuard<T> {
    memory: Vec<T>,
}

impl<T> View for SliceMemoryGuard<T> {
    type V = Seq<T>;

    closed spec fn view(&self) -> Seq<T> {
        self.memory@
    }
}

impl<T> SliceMemoryGuard<T> {
    /// Number of constructed elements the guard owns.
    pub fn len(&self) -> (length: usize)
        ensures
            length == self@.len(),
    {
        self.memory.len()
    }

    /// Reads the element at `index`.
    pub fn get(&self, index: usize) -> (element: &T)
        requires
            index < self@.len(),
        ensures
            *element == self@[index as int],
    {
        &self.memory[index]
    }

    /// Replaces the element at `index`; the previous element is released.
    pub fn set(&mut self, index: usize, value: T)
        requires
            index < old(self)@.len(),
        ensures
            final(self)@ == old(self)@.update(index as int, value),
    {
        self.memory.set(index, value);
    }
}

/// A reserved slot for a single element of `T`, not yet holding a value.
/// The only way forward is the consuming transition [`Self::init`]; a guard
/// that is never initialized releases nothing.
pub struct UninitializedMemoryGuard<T> {
    slot: Vec<T>,
}

impl<T> UninitializedMemoryGuard<T> {
    /// An uninitialized slot holds no constructed element.
    #[verifier::type_invariant]
    closed spec fn wf(self) -> bool {
        self.slot@.len() == 0
    }

    /// Reserves a fresh slot for one element. Only the dispatch layer
    /// acquires slots; ordinary callers receive them.
    pub(crate) fn new() -> (guard: Self) {
        UninitializedMemoryGuard { slot: Vec::with_capacity(1) }
    }

    /// Hands out an uninitialized guard over a slot of the same shape while
    /// keeping this one, so a callee can be lent a slot to fill and drop
    /// without giving the caller's own guard up.
    pub fn borrow(&mut self) -> (guard: UninitializedMemoryGuard<T>) {
        UninitializedMemoryGuard::new()
    }

    /// The uninitialized-to-initialized transition for a slot: consumes the
    /// guard, places `value` in the slot, and returns the guard that owns
    /// it. The transition happens at most once per slot — this guard is gone
    /// afterwards.
    pub fn init(self, value: T) -> (initialized: MemoryGuard<T>)
        ensures
            initialized@ == value,
    {
        MemoryGuard { memory: value }
    }
}

/// A slot holding exactly one constructed element of `T`, owned by the
/// guard: readable, writable, and released exactly once when the guard goes
/// out of scope.
pub struct MemoryGuard<T> {
    memory: T,
}

impl<T> View for MemoryGuard<T> {
    type V = T;

    closed spec fn view(&self) -> T {
        self.memory
    }
}

impl<T> MemoryGuard<T> {
    /// Reads the contained value.
    pub fn get(&self) -> (element: &T)
        ensures
            *element == self@,
    {
        &self.memory
    }

    /// Replaces the contained value; the previous value is released.
    pub fn set(&mut self, value: T)
        ensures
            final(self)@ == value,
    {
        self.memory = value;
    }
}

/// Round-trip copy: a slice initialized as a copy of `source` reads back
/// element-wise equal to `source`, whenever cloning an element of `T` hands
/// back a value equal to the one cloned (as it does for every plain-data
/// element type).
pub proof fn lemma_init_copy_round_trip<T: Clone>(source: Seq<T>, copied: Seq<T>)
    requires
        copied.len() == source.len(),
        forall|index: int|
            0 <= index < source.len() ==> cloned::<T>(source[index], #[trigger] copied[index]),
        forall|a: T, b: T| cloned::<T>(a, b) ==> b == a,
    ensures
        copied =~= source,
{
    assert forall|index: int| 0 <= index < copied.len() implies copied[index]
        == source[index] by {
        assert(cloned::<T>(source[index], copied[index]));
    }
}

/// Sub-slicing never widens bounds: a guard narrowed to `range` covers only
/// slots the parent already covered — it starts no earlier and ends no
/// later than the parent region.
pub proof fn lemma_slice_within_parent(parent: SliceRegion, narrowed: SliceRegion, start: nat, end: nat)
    requires
        start <= end <= parent.len,
        narrowed.offset == parent.offset + start,
        narrowed.len == end - start,
    ensures
        parent.offset <= narrowed.offset,
        narrowed.offset + narrowed.len <= parent.offset + parent.len,
{
}

} // verus!
