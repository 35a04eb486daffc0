use std::cell::Cell;
use inplace_it::alloc_array;
use inplace_it::inplace;
use inplace_it::inplace_or_alloc_array;

struct DropCounter {
    count: Cell<usize>,
}

struct DropCounterItem<'a> {
    counter: &'a DropCounter,
}

impl DropCounter {
    fn new() -> Self {
        DropCounter { count: Cell::new(0) }
    }

    fn get(&self) -> usize {
        self.count.get()
    }

    fn inc(&self) {
        self.count.set(self.count.get() + 1)
    }

    fn make_item(&self) -> DropCounterItem<'_> {
        DropCounterItem { counter: self }
    }
}

impl Drop for DropCounterItem<'_> {
    fn drop(&mut self) {
        self.counter.inc()
    }
}

/// A deliberately large element so that even small counts exceed the byte
/// limit for automatic storage and force the exactly-sized path.
struct Big([u64; 64]);

#[test]
fn destructors_run_exactly_once_at_bucket_boundaries() {
    for n in [0, 1, 31, 32, 33, 63, 64, 65, 4096, 4097] {
        let counter = DropCounter::new();
        inplace_or_alloc_array(n, |guard| {
            guard.init(|_| counter.make_item());
        });
        assert_eq!(counter.get(), n);
    }
}

#[test]
fn no_destruction_without_initialization() {
    let counter = DropCounter::new();
    inplace_or_alloc_array::<DropCounterItem, usize, _>(64, |guard| guard.len());
    assert_eq!(counter.get(), 0);

    inplace::<DropCounterItem, (), _>(|_guard| {});
    assert_eq!(counter.get(), 0);
}

#[test]
fn observed_length_is_exactly_the_requested_size() {
    // A size that rounds up internally: the rounding must stay invisible.
    let observed = inplace_or_alloc_array::<u64, usize, _>(50, |guard| guard.len());
    assert_eq!(observed, 50);

    // A large element type: the byte limit forces the exactly-sized path.
    let observed = inplace_or_alloc_array::<Big, usize, _>(50, |guard| guard.len());
    assert_eq!(observed, 50);

    // Beyond the bucket table: again the exactly-sized path.
    let observed = inplace_or_alloc_array::<u8, usize, _>(5000, |guard| guard.len());
    assert_eq!(observed, 5000);

    // The heap-only entry point reports exactly the requested size too.
    let observed = alloc_array::<u64, usize, _>(50, |guard| guard.len());
    assert_eq!(observed, 50);
}

fn round_trip_copy(len: usize) {
    let source: Vec<u32> = (0..len as u32).map(|x| x.wrapping_mul(3).wrapping_add(1)).collect();
    let ok = inplace_or_alloc_array(len, |guard| {
        let filled = guard.init_copy_of(&source);
        if filled.len() != source.len() {
            return false;
        }
        for i in 0..source.len() {
            if *filled.get(i) != source[i] {
                return false;
            }
        }
        true
    });
    assert!(ok);
}

#[test]
fn init_copy_of_reads_back_the_source() {
    round_trip_copy(0);
    round_trip_copy(1);
    round_trip_copy(17);
    round_trip_copy(500);
}

#[test]
fn init_copy_of_shorter_source_initializes_only_that_many() {
    let counter = DropCounter::new();
    let values = [10usize, 11, 12, 13];
    let observed = inplace_or_alloc_array(10, |guard| {
        let sources: Vec<(usize, DropCounterItem)> =
            values.iter().map(|&v| (v, counter.make_item())).collect();
        let filled = guard.init_copy_of(&sources);
        assert_eq!(filled.len(), 4);
        for i in 0..4 {
            assert_eq!(filled.get(i).0, values[i]);
        }
        filled.len()
    });
    assert_eq!(observed, 4);
    // The four clones and the four originals were released; nothing else was.
    assert_eq!(counter.get(), 8);
}

impl Clone for DropCounterItem<'_> {
    fn clone(&self) -> Self {
        self.counter.make_item()
    }
}

#[test]
fn storage_selection_is_deterministic() {
    let first = inplace_or_alloc_array::<u64, usize, _>(50, |guard| guard.len());
    let second = inplace_or_alloc_array::<u64, usize, _>(50, |guard| guard.len());
    assert_eq!(first, second);

    let first = inplace_or_alloc_array::<Big, usize, _>(50, |guard| guard.len());
    let second = inplace_or_alloc_array::<Big, usize, _>(50, |guard| guard.len());
    assert_eq!(first, second);
}

#[test]
fn sub_slicing_narrows_to_the_requested_range() {
    let observed = inplace_or_alloc_array::<u32, usize, _>(10, |guard| {
        let narrowed = guard.slice(3..7);
        narrowed.len()
    });
    assert_eq!(observed, 4);
}

#[test]
fn sub_slicing_limits_initialization_and_destruction() {
    let counter = DropCounter::new();
    inplace_or_alloc_array(10, |guard| {
        let narrowed = guard.slice(3..7);
        narrowed.init(|_| counter.make_item());
    });
    assert_eq!(counter.get(), 4);
}

#[test]
fn end_to_end_doubling_scenario() {
    let counter = DropCounter::new();
    inplace_or_alloc_array(100, |guard| {
        let filled = guard.init(|index| (index * 2, counter.make_item()));
        for i in 0..100 {
            assert_eq!(filled.get(i).0, i * 2);
        }
    });
    assert_eq!(counter.get(), 100);
}

#[test]
fn single_slot_guard_reads_and_writes() {
    let doubled = inplace(|guard| {
        let mut slot = guard.init(21u32);
        assert_eq!(*slot.get(), 21);
        slot.set(42);
        *slot.get()
    });
    assert_eq!(doubled, 42);
}

#[test]
fn single_slot_set_releases_the_previous_value() {
    let counter = DropCounter::new();
    inplace(|guard| {
        let mut slot = guard.init(counter.make_item());
        assert_eq!(counter.get(), 0);
        slot.set(counter.make_item());
        assert_eq!(counter.get(), 1);
    });
    assert_eq!(counter.get(), 2);
}

#[test]
fn borrowed_slot_fills_and_releases_independently() {
    let counter = DropCounter::new();
    inplace(|mut guard| {
        {
            let lent = guard.borrow();
            lent.init(counter.make_item());
        }
        assert_eq!(counter.get(), 1);
        guard.init(counter.make_item());
    });
    assert_eq!(counter.get(), 2);
}

#[test]
fn initialized_slice_supports_in_place_update() {
    let collected = inplace_or_alloc_array::<usize, Vec<usize>, _>(5, |guard| {
        let mut filled = guard.init(|index| index);
        filled.set(2, 77);
        let mut out = Vec::new();
        for i in 0..filled.len() {
            out.push(*filled.get(i));
        }
        out
    });
    assert_eq!(collected, vec![0, 1, 77, 3, 4]);
}
