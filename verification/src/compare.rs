//! Equality and order of handles: those of their payloads.

use vstd::prelude::*;
use vstd::std_specs::cmp::{OrdSpec, PartialEqSpec, PartialOrdSpec};
use std::cmp::Ordering;
use crate::handle::FlexRc;
use crate::heap::FlexRcHeap;

verus! {

impl<T, M> FlexRc<T, M> {
    /// Whether the two payloads are equal: what `T`'s own `eq` says of them.
    pub fn eq(&self, other: &Self, heap: &FlexRcHeap<T>) -> (equal: bool) where T: PartialEq
        requires
            heap@.contains_key(self@),
            heap@.contains_key(other@),
            heap@[self@].data is Some,
            heap@[other@].data is Some,
        ensures
            call_ensures(T::eq, (&heap@[self@].data->0, &heap@[other@].data->0), equal),
            T::obeys_eq_spec() ==> equal == heap@[self@].data->0.eq_spec(&heap@[other@].data->0),
    {
        self.deref(heap).eq(other.deref(heap))
    }

    /// The order of the two payloads, where they have one: what `T`'s own
    /// `partial_cmp` says of them.
    pub fn partial_cmp(&self, other: &Self, heap: &FlexRcHeap<T>) -> (order: Option<
        Ordering,
    >) where T: PartialOrd
        requires
            heap@.contains_key(self@),
            heap@.contains_key(other@),
            heap@[self@].data is Some,
            heap@[other@].data is Some,
        ensures
            call_ensures(T::partial_cmp, (&heap@[self@].data->0, &heap@[other@].data->0), order),
            T::obeys_partial_cmp_spec() ==> order == heap@[self@].data->0.partial_cmp_spec(
                &heap@[other@].data->0,
            ),
    {
        self.deref(heap).partial_cmp(other.deref(heap))
    }

    /// The order of the two payloads: what `T`'s own `cmp` says of them.
    pub fn cmp(&self, other: &Self, heap: &FlexRcHeap<T>) -> (order: Ordering) where T: Ord
        requires
            heap@.contains_key(self@),
            heap@.contains_key(other@),
            heap@[self@].data is Some,
            heap@[other@].data is Some,
        ensures
            call_ensures(T::cmp, (&heap@[self@].data->0, &heap@[other@].data->0), order),
            T::obeys_cmp_spec() ==> order == heap@[self@].data->0.cmp_spec(&heap@[other@].data->0),
    {
        self.deref(heap).cmp(other.deref(heap))
    }
}

} // verus!
