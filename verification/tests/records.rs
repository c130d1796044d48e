use flexrc::{Discriminant, FlexRcBox, FlexRcHeap, FlexRcRefcount};

#[test]
fn atomic_counter_adds_and_returns_what_it_held() {
    let mut count = FlexRcRefcount::Atomic(1);
    assert_eq!(count.load(), 1);
    assert_eq!(count.fetch_add(1), 1);
    assert_eq!(count, FlexRcRefcount::Atomic(2));
    assert_eq!(count.fetch_add(5), 2);
    assert_eq!(count.load(), 7);
    assert_eq!(count.fetch_add(0), 7);
    assert_eq!(count.load(), 7);
}

#[test]
fn atomic_counter_subtracts_and_returns_what_it_held() {
    let mut count = FlexRcRefcount::Atomic(3);
    assert_eq!(count.fetch_sub(1), 3);
    assert_eq!(count.fetch_sub(1), 2);
    assert_eq!(count.fetch_sub(1), 1);
    assert_eq!(count, FlexRcRefcount::Atomic(0));
}

#[test]
fn atomic_counter_reaches_the_largest_count() {
    let mut count = FlexRcRefcount::Atomic(usize::MAX - 1);
    assert_eq!(count.fetch_add(1), usize::MAX - 1);
    assert_eq!(count.load(), usize::MAX);
    assert_eq!(count.fetch_sub(usize::MAX), usize::MAX);
    assert_eq!(count.load(), 0);
}

#[test]
fn plain_counter_holds_what_was_set() {
    let mut count = FlexRcRefcount::Simple(1);
    assert_eq!(count.get(), 1);
    count.set(9);
    assert_eq!(count.get(), 9);
    assert_eq!(count, FlexRcRefcount::Simple(9));
    count.set(usize::MAX);
    assert_eq!(count.get(), usize::MAX);
}

#[test]
fn empty_heap_holds_no_record() {
    let heap: FlexRcHeap<u8> = FlexRcHeap::new();
    for addr in [0, 1, 7, usize::MAX] {
        assert!(!heap.contains(addr));
        assert!(heap.get(addr).is_none());
    }
}

#[test]
fn record_fields_are_plain_values() {
    let record = FlexRcBox {
        refcount: FlexRcRefcount::Simple(2),
        discriminant: Discriminant::Simple,
        data: Some('x'),
    };
    assert_eq!(record.refcount, FlexRcRefcount::Simple(2));
    assert_eq!(record.discriminant, Discriminant::Simple);
    assert_eq!(record.data, Some('x'));
}
