//! The handle: one reference to a record, tagged with the strategy that
//! governs the record.

use vstd::prelude::*;
use std::marker::PhantomData;
use std::rc::Rc;
use crate::heap::FlexRcHeap;
use crate::protocol::{after_drop, governed, unique};
use crate::record::{Discriminant, FlexRcBox, FlexRcRefcount};

verus! {

/// Marks a handle to a record that is never released.
pub struct FlexRcImmortal;

/// Marks a handle to a counted record that may be shared between threads.
pub struct FlexRcSend;

/// Marks a handle to a counted record that stays on the thread that made it.
/// The marker is neither `Send` nor `Sync`, and so is every handle tagged
/// with it.
pub struct FlexRcSimple {
    _confined: PhantomData<Rc<()>>,
}

/// A handle to a record in a [`FlexRcHeap`]. To a contract a handle is the
/// address of its record.
///
/// A handle stands for one counted reference. It cannot be copied: the only
/// ways to a second handle are the `clone` of its strategy, which counts it,
/// and a conversion, which builds a record of its own. It is given up with
/// [`FlexRc::drop`], which takes it by value. So the handles to a record
/// never outnumber its count, and no record is released while a handle to
/// it is left. A handle that merely goes out of scope stays counted, and
/// its record is then never released.
#[must_use]
pub struct FlexRc<T, M> {
    ptr: usize,
    _marker: PhantomData<M>,
    _payload: PhantomData<T>,
}

impl<T, M> View for FlexRc<T, M> {
    type V = usize;

    closed spec fn view(&self) -> usize {
        self.ptr
    }
}

impl<T, M> FlexRc<T, M> {
    /// A handle to the record at `ptr`.
    pub(crate) fn from_addr(ptr: usize) -> (rc: Self)
        ensures
            rc@ == ptr,
    {
        FlexRc { ptr, _marker: PhantomData, _payload: PhantomData }
    }

    /// The address of the record that the handle refers to.
    pub fn addr(&self) -> (addr: usize)
        ensures
            addr == self@,
    {
        self.ptr
    }

    /// The record that the handle refers to.
    pub fn inner<'a>(&self, heap: &'a FlexRcHeap<T>) -> (record: &'a FlexRcBox<T>)
        requires
            heap@.contains_key(self@),
        ensures
            *record == heap@[self@],
    {
        heap.record(self.ptr)
    }

    /// The record that the handle refers to, to be changed in place.
    pub(crate) fn inner_mut<'a>(&self, heap: &'a mut FlexRcHeap<T>) -> (record: &'a mut FlexRcBox<
        T,
    >)
        requires
            old(heap)@.contains_key(self@),
        ensures
            *record == old(heap)@[self@],
            final(heap)@ == old(heap)@.insert(self@, *final(record)),
            old(heap).storage_wf() ==> final(heap).storage_wf(),
    {
        heap.record_mut(self.ptr)
    }

    /// Moves the payload out of the record and leaves the record hollow.
    /// The payload is handed over as it is: nothing is duplicated.
    pub(crate) fn take_data(&self, heap: &mut FlexRcHeap<T>) -> (data: T)
        requires
            old(heap).wf(),
            old(heap)@.contains_key(self@),
            old(heap)@[self@].discriminant != Discriminant::Immortal,
            old(heap)@[self@].data is Some,
        ensures
            final(heap).wf(),
            old(heap)@[self@].data == Some(data),
            final(heap)@ == old(heap)@.insert(self@, old(heap)@[self@].hollowed()),
    {
        match self.inner_mut(heap).data.take() {
            Some(data) => data,
            None => unreached(),
        }
    }

    /// Releases the record: takes it out of the heap and destroys it, and
    /// with it the payload, unless a conversion has moved the payload out.
    fn drop_slow(&self, heap: &mut FlexRcHeap<T>)
        requires
            old(heap).storage_wf(),
            old(heap)@.contains_key(self@),
        ensures
            final(heap).storage_wf(),
            final(heap)@ == old(heap)@.remove(self@),
    {
        let _record = heap.deallocate(self.ptr);
    }

    /// Gives the handle up. An immortal record is left alone. A counted
    /// record counts one handle less; where this handle was the last, the
    /// record is released, and that is the only way a record is released.
    pub fn drop(self, heap: &mut FlexRcHeap<T>)
        requires
            old(heap).wf(),
            old(heap)@.contains_key(self@),
        ensures
            final(heap).wf(),
            final(heap)@ == after_drop(old(heap)@, self@),
    {
        match self.inner(heap).discriminant {
            Discriminant::Immortal => {},
            Discriminant::Send => {
                let record = self.inner_mut(heap);
                if record.refcount.fetch_sub(1) != 1 {
                    return ;
                }
                self.drop_slow(heap);
            },
            Discriminant::Simple => {
                let record = self.inner_mut(heap);
                let refcount_new: usize = record.refcount.get() - 1;
                record.refcount.set(refcount_new);
                if refcount_new != 0 {
                    return ;
                }
                self.drop_slow(heap);
            },
        }
    }

    /// The payload, read through the handle.
    pub fn deref<'a>(&self, heap: &'a FlexRcHeap<T>) -> (data: &'a T)
        requires
            heap@.contains_key(self@),
            heap@[self@].data is Some,
        ensures
            heap@[self@].data == Some(*data),
    {
        match &self.inner(heap).data {
            Some(data) => data,
            None => unreached(),
        }
    }

    /// The payload, read through the handle.
    pub fn as_ref<'a>(&self, heap: &'a FlexRcHeap<T>) -> (data: &'a T)
        requires
            heap@.contains_key(self@),
            heap@[self@].data is Some,
        ensures
            heap@[self@].data == Some(*data),
    {
        self.deref(heap)
    }
}

impl<T> FlexRc<T, FlexRcSimple> {
    /// The payload, to be changed in place. Only the one handle of an
    /// unshared record may change the payload: no other handle then sees it
    /// change. What the caller leaves behind the reference is the payload
    /// from then on.
    pub fn deref_mut<'a>(&self, heap: &'a mut FlexRcHeap<T>) -> (data: &'a mut T)
        requires
            old(heap).wf(),
            old(heap)@.contains_key(self@),
            old(heap)@[self@].refcount == FlexRcRefcount::Simple(1),
            old(heap)@[self@].data is Some,
        ensures
            old(heap)@[self@].data == Some(*data),
            final(heap).wf(),
            final(heap)@ == old(heap)@.insert(self@, old(heap)@[self@].holding(*final(data))),
    {
        match &mut self.inner_mut(heap).data {
            Some(data) => data,
            None => unreached(),
        }
    }

    /// The payload, to be changed in place, where this handle is the only
    /// one to its record and the payload is still there; `None`, and the
    /// heap untouched, where the record is shared or hollow.
    pub fn get_mut<'a>(&self, heap: &'a mut FlexRcHeap<T>) -> (data: Option<&'a mut T>)
        requires
            old(heap).wf(),
            governed(old(heap)@, self@, Discriminant::Simple),
        ensures
            final(heap).wf(),
            data is Some <==> unique(old(heap)@, self@) && old(heap)@[self@].data is Some,
            (match data {
                Some(data) => {
                    &&& old(heap)@[self@].data == Some(*data)
                    &&& final(heap)@ == old(heap)@.insert(
                        self@,
                        old(heap)@[self@].holding(*final(data)),
                    )
                },
                None => final(heap)@ == old(heap)@,
            }),
    {
        let record = self.inner(heap);
        if record.refcount.get() == 1 && record.data.is_some() {
            Some(self.deref_mut(heap))
        } else {
            None
        }
    }
}

} // verus!
