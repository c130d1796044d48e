//! The immortal strategy.

use vstd::prelude::*;
use crate::handle::{FlexRc, FlexRcImmortal, FlexRcSend, FlexRcSimple};
use crate::heap::FlexRcHeap;
use crate::protocol::{converted, governed};
use crate::record::{Discriminant, FlexRcBox, FlexRcRefcount};
use crate::send::FlexRcImplSend;
use crate::simple::FlexRcImpl;

verus! {

/// What a handle of the immortal strategy offers.
pub trait FlexRcImplImmortal<T>: View<V = usize> + Sized {
    /// Puts `data` into a record of its own, which is never released, and
    /// returns a handle to it.
    fn new(data: T, heap: &mut FlexRcHeap<T>) -> (rc: Self)
        requires
            old(heap).wf(),
        ensures
            final(heap).wf(),
            !old(heap)@.contains_key(rc@),
            final(heap)@ == old(heap)@.insert(
                rc@,
                FlexRcBox::fresh(Discriminant::Immortal, data),
            ),
    ;

    /// Another handle to the same record. Nothing is counted, so the heap
    /// is not even touched.
    fn clone(&self) -> (rc: Self)
        ensures
            rc@ == self@,
    ;
}

/// A handle around the payload type's default value.
pub trait FlexRcImplImmortalDefault<T: Default>: FlexRcImplImmortal<T> {
    /// Puts the default value of `T` into a record of its own.
    fn default(heap: &mut FlexRcHeap<T>) -> (rc: Self)
        requires
            old(heap).wf(),
        ensures
            final(heap).wf(),
            !old(heap)@.contains_key(rc@),
            final(heap)@.contains_key(rc@),
            ({
                let data = final(heap)@[rc@].data->0;
                &&& T::default.ensures((), data)
                &&& final(heap)@ == old(heap)@.insert(
                    rc@,
                    FlexRcBox::fresh(Discriminant::Immortal, data),
                )
            }),
    ;
}

/// Conversions from the immortal strategy. An immortal record may have any
/// number of handles and counts none of them, so its payload is never moved:
/// a conversion always duplicates it and leaves the source as it was.
pub trait FlexRcImplImmortalMake<T: Clone>: FlexRcImplImmortal<T> {
    /// A single-threaded counted handle to a duplicate of the payload.
    fn make_simple(&self, heap: &mut FlexRcHeap<T>) -> (rc: FlexRc<T, FlexRcSimple>)
        requires
            old(heap).wf(),
            governed(old(heap)@, self@, Discriminant::Immortal),
        ensures
            final(heap).wf(),
            converted(old(heap)@, final(heap)@, self@, rc@, Discriminant::Simple),
    ;

    /// A thread-safe counted handle to a duplicate of the payload.
    fn make_send(&self, heap: &mut FlexRcHeap<T>) -> (rc: FlexRc<T, FlexRcSend>)
        requires
            old(heap).wf(),
            governed(old(heap)@, self@, Discriminant::Immortal),
        ensures
            final(heap).wf(),
            converted(old(heap)@, final(heap)@, self@, rc@, Discriminant::Send),
    ;
}

impl<T> FlexRcImplImmortal<T> for FlexRc<T, FlexRcImmortal> {
    fn new(data: T, heap: &mut FlexRcHeap<T>) -> (rc: Self) {
        let refcount = FlexRcRefcount::Immortal;
        let ptr = FlexRcBox { refcount, discriminant: Discriminant::Immortal, data: Some(data) };
        let ptr: usize = heap.allocate(ptr);
        FlexRc::from_addr(ptr)
    }

    fn clone(&self) -> (rc: Self) {
        FlexRc::from_addr(self.addr())
    }
}

impl<T: Default> FlexRcImplImmortalDefault<T> for FlexRc<T, FlexRcImmortal> {
    fn default(heap: &mut FlexRcHeap<T>) -> (rc: Self) {
        <FlexRc<_, _> as FlexRcImplImmortal<_>>::new(Default::default(), heap)
    }
}

impl<T: Clone> FlexRcImplImmortalMake<T> for FlexRc<T, FlexRcImmortal> {
    fn make_simple(&self, heap: &mut FlexRcHeap<T>) -> (rc: FlexRc<T, FlexRcSimple>) {
        let data = self.deref(heap).clone();
        <FlexRc<_, _> as FlexRcImpl<_>>::new(data, heap)
    }

    fn make_send(&self, heap: &mut FlexRcHeap<T>) -> (rc: FlexRc<T, FlexRcSend>) {
        let data = self.deref(heap).clone();
        <FlexRc<_, _> as FlexRcImplSend<_>>::new(data, heap)
    }
}

} // verus!
