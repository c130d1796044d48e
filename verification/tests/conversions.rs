use flexrc::{
    Discriminant, FlexRc, FlexRcHeap, FlexRcImpl, FlexRcImplImmortal, FlexRcImplImmortalMake,
    FlexRcImplMake, FlexRcImplSend, FlexRcImplSendMake, FlexRcRefcount,
};
use std::cell::Cell;
use std::rc::Rc;

/// A payload that counts how often it is duplicated and how often destroyed.
struct Probe {
    value: i32,
    clones: Rc<Cell<usize>>,
    drops: Rc<Cell<usize>>,
}

impl Probe {
    fn new(value: i32) -> (Probe, Rc<Cell<usize>>, Rc<Cell<usize>>) {
        let clones = Rc::new(Cell::new(0));
        let drops = Rc::new(Cell::new(0));
        (Probe { value, clones: clones.clone(), drops: drops.clone() }, clones, drops)
    }
}

impl Clone for Probe {
    fn clone(&self) -> Probe {
        self.clones.set(self.clones.get() + 1);
        Probe { value: self.value, clones: self.clones.clone(), drops: self.drops.clone() }
    }
}

impl Drop for Probe {
    fn drop(&mut self) {
        self.drops.set(self.drops.get() + 1);
    }
}

#[test]
fn unique_plain_handle_moves_into_a_send_record() {
    let mut heap = FlexRcHeap::new();
    let (payload, clones, drops) = Probe::new(11);
    let flex = <FlexRc<_, _> as FlexRcImpl<_>>::new(payload, &mut heap);
    let made = flex.make_send(&mut heap);

    assert_eq!(clones.get(), 0);
    assert_eq!(made.deref(&heap).value, 11);
    assert_eq!(made.atomic_count(&heap), 1);
    assert_eq!(made.inner(&heap).discriminant, Discriminant::Send);
    assert_ne!(made.addr(), flex.addr());

    // The source is hollow: still counted once, with nothing in it.
    let source = flex.inner(&heap);
    assert_eq!(source.refcount, FlexRcRefcount::Simple(1));
    assert!(source.data.is_none());

    let addr = flex.addr();
    flex.drop(&mut heap);
    assert!(!heap.contains(addr));
    assert_eq!(drops.get(), 0);

    made.drop(&mut heap);
    assert_eq!(drops.get(), 1);
    assert_eq!(clones.get(), 0);
}

#[test]
fn unique_plain_handle_moves_into_an_immortal_record() {
    let mut heap = FlexRcHeap::new();
    let (payload, clones, drops) = Probe::new(12);
    let flex = <FlexRc<_, _> as FlexRcImpl<_>>::new(payload, &mut heap);
    let made = flex.make_immortal(&mut heap);

    assert_eq!(clones.get(), 0);
    assert_eq!(made.deref(&heap).value, 12);
    assert_eq!(made.inner(&heap).refcount, FlexRcRefcount::Immortal);
    assert_eq!(made.inner(&heap).discriminant, Discriminant::Immortal);
    assert!(flex.inner(&heap).data.is_none());

    flex.drop(&mut heap);
    made.drop(&mut heap);
    assert_eq!(drops.get(), 0);
}

#[test]
fn unique_send_handle_moves_into_a_plain_record() {
    let mut heap = FlexRcHeap::new();
    let (payload, clones, drops) = Probe::new(13);
    let flex = <FlexRc<_, _> as FlexRcImplSend<_>>::new(payload, &mut heap);
    let made = flex.make_simple(&mut heap);

    assert_eq!(clones.get(), 0);
    assert_eq!(made.deref(&heap).value, 13);
    assert_eq!(made.ref_count(&heap), 1);
    assert_eq!(made.inner(&heap).discriminant, Discriminant::Simple);
    assert_eq!(flex.inner(&heap).refcount, FlexRcRefcount::Atomic(1));
    assert!(flex.inner(&heap).data.is_none());

    flex.drop(&mut heap);
    assert_eq!(drops.get(), 0);
    made.drop(&mut heap);
    assert_eq!(drops.get(), 1);
}

#[test]
fn unique_send_handle_moves_into_an_immortal_record() {
    let mut heap = FlexRcHeap::new();
    let (payload, clones, drops) = Probe::new(14);
    let flex = <FlexRc<_, _> as FlexRcImplSend<_>>::new(payload, &mut heap);
    let made = flex.make_immortal(&mut heap);

    assert_eq!(clones.get(), 0);
    assert_eq!(made.deref(&heap).value, 14);
    assert_eq!(made.inner(&heap).refcount, FlexRcRefcount::Immortal);
    assert!(flex.inner(&heap).data.is_none());

    flex.drop(&mut heap);
    made.drop(&mut heap);
    assert_eq!(drops.get(), 0);
}

#[test]
fn shared_plain_handle_is_duplicated() {
    let mut heap = FlexRcHeap::new();
    let (payload, clones, drops) = Probe::new(21);
    let flex = <FlexRc<_, _> as FlexRcImpl<_>>::new(payload, &mut heap);
    let other = flex.clone(&mut heap);

    let send = flex.make_send(&mut heap);
    assert_eq!(clones.get(), 1);
    let immortal = flex.make_immortal(&mut heap);
    assert_eq!(clones.get(), 2);

    assert_eq!(send.deref(&heap).value, 21);
    assert_eq!(send.atomic_count(&heap), 1);
    assert_eq!(immortal.deref(&heap).value, 21);

    // The source keeps its payload and both of its handles.
    assert_eq!(flex.ref_count(&heap), 2);
    assert_eq!(flex.deref(&heap).value, 21);
    assert_eq!(other.deref(&heap).value, 21);

    other.drop(&mut heap);
    flex.drop(&mut heap);
    assert_eq!(drops.get(), 1);
    send.drop(&mut heap);
    assert_eq!(drops.get(), 2);
}

#[test]
fn shared_send_handle_is_duplicated() {
    let mut heap = FlexRcHeap::new();
    let (payload, clones, drops) = Probe::new(22);
    let flex = <FlexRc<_, _> as FlexRcImplSend<_>>::new(payload, &mut heap);
    let other = flex.clone(&mut heap);

    let simple = flex.make_simple(&mut heap);
    assert_eq!(clones.get(), 1);
    let immortal = flex.make_immortal(&mut heap);
    assert_eq!(clones.get(), 2);

    assert_eq!(simple.deref(&heap).value, 22);
    assert_eq!(simple.ref_count(&heap), 1);
    assert_eq!(immortal.deref(&heap).value, 22);
    assert_eq!(flex.atomic_count(&heap), 2);
    assert_eq!(flex.deref(&heap).value, 22);

    other.drop(&mut heap);
    // With the other handle gone the source is unique again, and moves.
    let moved = flex.make_simple(&mut heap);
    assert_eq!(clones.get(), 2);
    assert_eq!(moved.deref(&heap).value, 22);
    assert!(flex.inner(&heap).data.is_none());

    flex.drop(&mut heap);
    assert_eq!(drops.get(), 0);
    simple.drop(&mut heap);
    moved.drop(&mut heap);
    assert_eq!(drops.get(), 2);
}

#[test]
fn immortal_handle_is_always_duplicated() {
    let mut heap = FlexRcHeap::new();
    let (payload, clones, drops) = Probe::new(31);
    let flex = <FlexRc<_, _> as FlexRcImplImmortal<_>>::new(payload, &mut heap);

    let simple = flex.make_simple(&mut heap);
    assert_eq!(clones.get(), 1);
    let send = flex.make_send(&mut heap);
    assert_eq!(clones.get(), 2);

    assert_eq!(simple.deref(&heap).value, 31);
    assert_eq!(simple.ref_count(&heap), 1);
    assert_eq!(send.deref(&heap).value, 31);
    assert_eq!(send.atomic_count(&heap), 1);
    assert_eq!(flex.deref(&heap).value, 31);
    assert_eq!(flex.inner(&heap).refcount, FlexRcRefcount::Immortal);

    let addr = flex.addr();
    simple.drop(&mut heap);
    send.drop(&mut heap);
    flex.drop(&mut heap);
    assert_eq!(drops.get(), 2);
    let left = heap.get(addr).expect("an immortal record is never released");
    assert_eq!(left.discriminant, Discriminant::Immortal);
    assert_eq!(left.data.as_ref().map(|probe| probe.value), Some(31));
}
