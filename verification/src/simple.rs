//! The single-threaded counted strategy.

use vstd::prelude::*;
use crate::handle::{FlexRc, FlexRcImmortal, FlexRcSend, FlexRcSimple};
use crate::heap::FlexRcHeap;
use crate::immortal::FlexRcImplImmortal;
use crate::protocol::{after_clone, converted, governed};
use crate::record::{Discriminant, FlexRcBox, FlexRcRefcount};
use crate::send::FlexRcImplSend;

verus! {

/// What a handle of the single-threaded counted strategy offers.
pub trait FlexRcImpl<T>: View<V = usize> + Sized {
    /// Puts `data` into a record of its own and returns the one handle to it.
    fn new(data: T, heap: &mut FlexRcHeap<T>) -> (rc: Self)
        requires
            old(heap).wf(),
        ensures
            final(heap).wf(),
            !old(heap)@.contains_key(rc@),
            final(heap)@ == old(heap)@.insert(rc@, FlexRcBox::fresh(Discriminant::Simple, data)),
    ;

    /// Another handle to the same record, which then counts one more. The
    /// caller keeps the count below `usize::MAX`.
    fn clone(&self, heap: &mut FlexRcHeap<T>) -> (rc: Self)
        requires
            old(heap).wf(),
            governed(old(heap)@, self@, Discriminant::Simple),
            old(heap)@[self@].refcount != FlexRcRefcount::Simple(usize::MAX),
        ensures
            final(heap).wf(),
            rc@ == self@,
            final(heap)@ == after_clone(old(heap)@, self@),
    ;

    /// The number of handles that the record counts.
    fn ref_count(&self, heap: &FlexRcHeap<T>) -> (count: usize)
        requires
            heap.wf(),
            governed(heap@, self@, Discriminant::Simple),
        ensures
            heap@[self@].refcount == FlexRcRefcount::Simple(count),
    ;
}

/// Conversions from the single-threaded counted strategy.
///
/// A conversion builds a new record of the target strategy. Where the source
/// handle is the only one to its record, the payload is moved into the new
/// record and the old record is left hollow: its handle can still be
/// dropped, which frees the record and destroys nothing, and can no longer
/// be read or converted. Where the record is shared, the payload is
/// duplicated and the source is left as it was.
pub trait FlexRcImplMake<T: Clone>: FlexRcImpl<T> {
    /// An immortal handle to the same payload.
    fn make_immortal(&self, heap: &mut FlexRcHeap<T>) -> (rc: FlexRc<T, FlexRcImmortal>)
        requires
            old(heap).wf(),
            governed(old(heap)@, self@, Discriminant::Simple),
            old(heap)@[self@].data is Some,
        ensures
            final(heap).wf(),
            converted(old(heap)@, final(heap)@, self@, rc@, Discriminant::Immortal),
    ;

    /// A thread-safe counted handle to the same payload.
    fn make_send(&self, heap: &mut FlexRcHeap<T>) -> (rc: FlexRc<T, FlexRcSend>)
        requires
            old(heap).wf(),
            governed(old(heap)@, self@, Discriminant::Simple),
            old(heap)@[self@].data is Some,
        ensures
            final(heap).wf(),
            converted(old(heap)@, final(heap)@, self@, rc@, Discriminant::Send),
    ;
}

/// A handle around the payload type's default value.
pub trait FlexRcImplDefault<T: Default>: FlexRcImpl<T> {
    /// Puts the default value of `T` into a record of its own.
    fn default(heap: &mut FlexRcHeap<T>) -> (rc: Self)
        requires
            old(heap).wf(),
        ensures
            final(heap).wf(),
            !old(heap)@.contains_key(rc@),
            final(heap)@.contains_key(rc@),
            ({
                let data = final(heap)@[rc@].data->0;
                &&& T::default.ensures((), data)
                &&& final(heap)@ == old(heap)@.insert(
                    rc@,
                    FlexRcBox::fresh(Discriminant::Simple, data),
                )
            }),
    ;
}

impl<T> FlexRcImpl<T> for FlexRc<T, FlexRcSimple> {
    fn new(data: T, heap: &mut FlexRcHeap<T>) -> (rc: Self) {
        let refcount = FlexRcRefcount::Simple(1);
        let ptr = FlexRcBox { refcount, discriminant: Discriminant::Simple, data: Some(data) };
        let ptr: usize = heap.allocate(ptr);
        FlexRc::from_addr(ptr)
    }

    fn clone(&self, heap: &mut FlexRcHeap<T>) -> (rc: Self) {
        let refcount = &mut self.inner_mut(heap).refcount;
        let refcount_new: usize = refcount.get() + 1;
        refcount.set(refcount_new);
        FlexRc::from_addr(self.addr())
    }

    fn ref_count(&self, heap: &FlexRcHeap<T>) -> (count: usize) {
        let refcount = &self.inner(heap).refcount;
        refcount.get()
    }
}

impl<T: Clone> FlexRcImplMake<T> for FlexRc<T, FlexRcSimple> {
    fn make_send(&self, heap: &mut FlexRcHeap<T>) -> (rc: FlexRc<T, FlexRcSend>) {
        if self.inner(heap).refcount.get() == 1 {
            let data = self.take_data(heap);
            <FlexRc<_, _> as FlexRcImplSend<_>>::new(data, heap)
        } else {
            let data = self.deref(heap).clone();
            <FlexRc<_, _> as FlexRcImplSend<_>>::new(data, heap)
        }
    }

    fn make_immortal(&self, heap: &mut FlexRcHeap<T>) -> (rc: FlexRc<T, FlexRcImmortal>) {
        if self.inner(heap).refcount.get() == 1 {
            let data = self.take_data(heap);
            <FlexRc<_, _> as FlexRcImplImmortal<_>>::new(data, heap)
        } else {
            let data = self.deref(heap).clone();
            <FlexRc<_, _> as FlexRcImplImmortal<_>>::new(data, heap)
        }
    }
}

impl<T: Default> FlexRcImplDefault<T> for FlexRc<T, FlexRcSimple> {
    fn default(heap: &mut FlexRcHeap<T>) -> (rc: Self) {
        <FlexRc<_, _> as FlexRcImpl<_>>::new(Default::default(), heap)
    }
}

} // verus!
