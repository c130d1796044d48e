//! The heap in which the records live. A record's address is its index in
//! the heap; it stays where it is from allocation to release.

use vstd::prelude::*;
use crate::record::FlexRcBox;

verus! {

/// The store of all records of one payload type. Handles are addresses into
/// it, and every operation that reads or changes a record takes the heap.
///
/// To a contract the heap is the map from the addresses in use to the
/// records that stand there.
///
/// A record lives in its heap and nowhere else: a handle is to be used with
/// the heap it was made in, and when the heap is dropped the records that
/// are still in it go with it, immortal ones too.
pub struct FlexRcHeap<T> {
    slots: Vec<Option<FlexRcBox<T>>>,
    free: Vec<usize>,
}

impl<T> View for FlexRcHeap<T> {
    type V = Map<usize, FlexRcBox<T>>;

    closed spec fn view(&self) -> Map<usize, FlexRcBox<T>> {
        Map::new(
            |a: usize| a < self.slots@.len() && self.slots@[a as int] is Some,
            |a: usize| self.slots@[a as int]->0,
        )
    }
}

impl<T> FlexRcHeap<T> {
    /// The address `a` has been in use and is not now.
    spec fn vacant(&self, a: usize) -> bool {
        a < self.slots@.len() && self.slots@[a as int] is None
    }

    /// The bookkeeping of the storage is sound: every address on the free
    /// list is vacant, and none is listed twice.
    pub closed spec fn storage_wf(&self) -> bool {
        &&& forall|i: int| 0 <= i < self.free@.len() ==> self.vacant(#[trigger] self.free@[i])
        &&& forall|i: int, j: int|
            0 <= i < j < self.free@.len() ==> self.free@[i] != self.free@[j]
    }

    /// The storage is sound and every record in it is well formed.
    pub open spec fn wf(&self) -> bool {
        &&& self.storage_wf()
        &&& forall|a: usize| #[trigger] self@.contains_key(a) ==> self@[a].wf()
    }

    /// An empty heap.
    pub fn new() -> (heap: Self)
        ensures
            heap.wf(),
            heap@ == Map::<usize, FlexRcBox<T>>::empty(),
    {
        FlexRcHeap { slots: Vec::new(), free: Vec::new() }
    }

    /// Whether a record stands at `addr`.
    pub fn contains(&self, addr: usize) -> (found: bool)
        ensures
            found == self@.contains_key(addr),
    {
        addr < self.slots.len() && self.slots[addr].is_some()
    }

    /// The record at `addr`, if one stands there.
    pub fn get(&self, addr: usize) -> (found: Option<&FlexRcBox<T>>)
        ensures
            found == (if self@.contains_key(addr) {
                Some(&self@[addr])
            } else {
                None
            }),
    {
        if addr < self.slots.len() {
            self.slots[addr].as_ref()
        } else {
            None
        }
    }

    /// The record at an address in use.
    pub fn record(&self, addr: usize) -> (record: &FlexRcBox<T>)
        requires
            self@.contains_key(addr),
        ensures
            *record == self@[addr],
    {
        match &self.slots[addr] {
            Some(record) => record,
            None => unreached(),
        }
    }

    /// The record at an address in use, to be changed in place. What the
    /// caller leaves in it is what the heap then holds there.
    pub(crate) fn record_mut(&mut self, addr: usize) -> (record: &mut FlexRcBox<T>)
        requires
            old(self)@.contains_key(addr),
        ensures
            *record == old(self)@[addr],
            final(self)@ == old(self)@.insert(addr, *final(record)),
            old(self).storage_wf() ==> final(self).storage_wf(),
    {
        match &mut self.slots[addr] {
            Some(record) => record,
            None => unreached(),
        }
    }

    /// Puts `record` at an address that was not in use and returns that
    /// address. Nothing else in the heap changes.
    pub(crate) fn allocate(&mut self, record: FlexRcBox<T>) -> (addr: usize)
        requires
            old(self).storage_wf(),
        ensures
            final(self).storage_wf(),
            !old(self)@.contains_key(addr),
            final(self)@ == old(self)@.insert(addr, record),
    {
        match self.free.pop() {
            Some(addr) => {
                self.slots[addr] = Some(record);
                addr
            },
            None => {
                let addr: usize = self.slots.len();
                self.slots.push(Some(record));
                addr
            },
        }
    }

    /// Takes the record at `addr` out of the heap and frees the address.
    /// Nothing else in the heap changes.
    pub(crate) fn deallocate(&mut self, addr: usize) -> (record: FlexRcBox<T>)
        requires
            old(self).storage_wf(),
            old(self)@.contains_key(addr),
        ensures
            final(self).storage_wf(),
            record == old(self)@[addr],
            final(self)@ == old(self)@.remove(addr),
    {
        let record = self.slots[addr].take();
        self.free.push(addr);
        match record {
            Some(record) => record,
            None => unreached(),
        }
    }
}

} // verus!
