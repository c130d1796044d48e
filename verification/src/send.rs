//! The thread-safe counted strategy.

use vstd::prelude::*;
use crate::handle::{FlexRc, FlexRcImmortal, FlexRcSend, FlexRcSimple};
use crate::heap::FlexRcHeap;
use crate::immortal::FlexRcImplImmortal;
use crate::protocol::{after_clone, converted, governed};
use crate::record::{Discriminant, FlexRcBox, FlexRcRefcount};
use crate::simple::FlexRcImpl;

verus! {

/// What a handle of the thread-safe counted strategy offers.
pub trait FlexRcImplSend<T>: View<V = usize> + Sized {
    /// Puts `data` into a record of its own and returns the one handle to it.
    fn new(data: T, heap: &mut FlexRcHeap<T>) -> (rc: Self)
        requires
            old(heap).wf(),
        ensures
            final(heap).wf(),
            !old(heap)@.contains_key(rc@),
            final(heap)@ == old(heap)@.insert(rc@, FlexRcBox::fresh(Discriminant::Send, data)),
    ;

    /// Another handle to the same record, which then counts one more. The
    /// caller keeps the count below `usize::MAX`.
    fn clone(&self, heap: &mut FlexRcHeap<T>) -> (rc: Self)
        requires
            old(heap).wf(),
            governed(old(heap)@, self@, Discriminant::Send),
            old(heap)@[self@].refcount != FlexRcRefcount::Atomic(usize::MAX),
        ensures
            final(heap).wf(),
            rc@ == self@,
            final(heap)@ == after_clone(old(heap)@, self@),
    ;

    /// The number of handles that the record counts.
    fn atomic_count(&self, heap: &FlexRcHeap<T>) -> (count: usize)
        requires
            heap.wf(),
            governed(heap@, self@, Discriminant::Send),
        ensures
            heap@[self@].refcount == FlexRcRefcount::Atomic(count),
    ;
}

/// A handle around the payload type's default value.
pub trait FlexRcImplSendDefault<T: Default>: FlexRcImplSend<T> {
    /// Puts the default value of `T` into a record of its own.
    fn default(heap: &mut FlexRcHeap<T>) -> (rc: Self)
        requires
            old(heap).wf(),
        ensures
            final(heap).wf(),
            !old(heap)@.contains_key(rc@),
            final(heap)@.contains_key(rc@),
            ({
                let data = final(heap)@[rc@].data->0;
                &&& T::default.ensures((), data)
                &&& final(heap)@ == old(heap)@.insert(
                    rc@,
                    FlexRcBox::fresh(Discriminant::Send, data),
                )
            }),
    ;
}

/// Conversions from the thread-safe counted strategy.
///
/// A conversion builds a new record of the target strategy. Where the source
/// handle is the only one to its record, the payload is moved into the new
/// record and the old record is left hollow: its handle can still be
/// dropped, which frees the record and destroys nothing, and can no longer
/// be read or converted. Where the record is shared, the payload is
/// duplicated and the source is left as it was.
pub trait FlexRcImplSendMake<T: Clone>: FlexRcImplSend<T> {
    /// A single-threaded counted handle to the same payload.
    fn make_simple(&self, heap: &mut FlexRcHeap<T>) -> (rc: FlexRc<T, FlexRcSimple>)
        requires
            old(heap).wf(),
            governed(old(heap)@, self@, Discriminant::Send),
            old(heap)@[self@].data is Some,
        ensures
            final(heap).wf(),
            converted(old(heap)@, final(heap)@, self@, rc@, Discriminant::Simple),
    ;

    /// An immortal handle to the same payload.
    fn make_immortal(&self, heap: &mut FlexRcHeap<T>) -> (rc: FlexRc<T, FlexRcImmortal>)
        requires
            old(heap).wf(),
            governed(old(heap)@, self@, Discriminant::Send),
            old(heap)@[self@].data is Some,
        ensures
            final(heap).wf(),
            converted(old(heap)@, final(heap)@, self@, rc@, Discriminant::Immortal),
    ;
}

impl<T> FlexRcImplSend<T> for FlexRc<T, FlexRcSend> {
    fn new(data: T, heap: &mut FlexRcHeap<T>) -> (rc: Self) {
        let refcount = FlexRcRefcount::Atomic(1);
        let ptr = FlexRcBox { refcount, discriminant: Discriminant::Send, data: Some(data) };
        let ptr: usize = heap.allocate(ptr);
        FlexRc::from_addr(ptr)
    }

    fn clone(&self, heap: &mut FlexRcHeap<T>) -> (rc: Self) {
        let refcount = &mut self.inner_mut(heap).refcount;
        refcount.fetch_add(1);
        FlexRc::from_addr(self.addr())
    }

    fn atomic_count(&self, heap: &FlexRcHeap<T>) -> (count: usize) {
        let refcount = &self.inner(heap).refcount;
        refcount.load()
    }
}

impl<T: Default> FlexRcImplSendDefault<T> for FlexRc<T, FlexRcSend> {
    fn default(heap: &mut FlexRcHeap<T>) -> (rc: Self) {
        <FlexRc<_, _> as FlexRcImplSend<_>>::new(Default::default(), heap)
    }
}

impl<T: Clone> FlexRcImplSendMake<T> for FlexRc<T, FlexRcSend> {
    fn make_simple(&self, heap: &mut FlexRcHeap<T>) -> (rc: FlexRc<T, FlexRcSimple>) {
        if self.inner(heap).refcount.load() == 1 {
            let data = self.take_data(heap);
            <FlexRc<_, _> as FlexRcImpl<_>>::new(data, heap)
        } else {
            let data = self.deref(heap).clone();
            <FlexRc<_, _> as FlexRcImpl<_>>::new(data, heap)
        }
    }

    fn make_immortal(&self, heap: &mut FlexRcHeap<T>) -> (rc: FlexRc<T, FlexRcImmortal>) {
        if self.inner(heap).refcount.load() == 1 {
            let data = self.take_data(heap);
            <FlexRc<_, _> as FlexRcImplImmortal<_>>::new(data, heap)
        } else {
            let data = self.deref(heap).clone();
            <FlexRc<_, _> as FlexRcImplImmortal<_>>::new(data, heap)
        }
    }
}

} // verus!
