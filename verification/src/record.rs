//! The allocation record: one payload, the count of the handles that refer to
//! it, and the tag of the strategy that governs both.

use vstd::prelude::*;

verus! {

/// The strategy that governs a record. The tag is written once, when the
/// record is built, and read again only when a handle is dropped, to choose
/// the release path.
#[derive(Clone, Copy, PartialEq, Eq, Debug, Structural)]
pub enum Discriminant {
    /// Never counted, never released.
    Immortal,
    /// Counted for handles that may cross threads.
    Send,
    /// Counted for handles that stay on one thread.
    Simple,
}

/// The reference count of a record, in the representation of its strategy.
/// An immortal record has no counter at all.
///
/// A counter is changed only through `&mut`, so no two changes overlap and
/// each sees what the one before it left.
#[derive(Clone, Copy, PartialEq, Eq, Debug, Structural)]
pub enum FlexRcRefcount {
    /// The counter of a record whose handles may be on several threads. It
    /// is changed by `fetch_add` and `fetch_sub`, which hand back the count
    /// that they found.
    Atomic(usize),
    /// The counter of a record whose handles are all on one thread. It is
    /// read by `get` and written by `set`.
    Simple(usize),
    /// No counter: the record lives forever.
    Immortal,
}

impl FlexRcRefcount {
    /// The strategy that this representation belongs to.
    pub open spec fn discriminant(self) -> Discriminant {
        match self {
            FlexRcRefcount::Atomic(_) => Discriminant::Send,
            FlexRcRefcount::Simple(_) => Discriminant::Simple,
            FlexRcRefcount::Immortal => Discriminant::Immortal,
        }
    }

    /// The number of live handles, where the strategy counts them.
    pub open spec fn count(self) -> Option<usize> {
        match self {
            FlexRcRefcount::Atomic(n) => Some(n),
            FlexRcRefcount::Simple(n) => Some(n),
            FlexRcRefcount::Immortal => None,
        }
    }

    /// The same representation holding `n`; an immortal one is left as it is.
    pub open spec fn with_count(self, n: usize) -> FlexRcRefcount {
        match self {
            FlexRcRefcount::Atomic(_) => FlexRcRefcount::Atomic(n),
            FlexRcRefcount::Simple(_) => FlexRcRefcount::Simple(n),
            FlexRcRefcount::Immortal => FlexRcRefcount::Immortal,
        }
    }

    /// Reads an atomic counter.
    pub fn load(&self) -> (n: usize)
        requires
            self is Atomic,
        ensures
            *self == FlexRcRefcount::Atomic(n),
    {
        match self {
            FlexRcRefcount::Atomic(n) => *n,
            _ => unreached(),
        }
    }

    /// Adds `val` to an atomic counter and returns the value it held before.
    /// The caller keeps the sum within `usize`.
    pub fn fetch_add(&mut self, val: usize) -> (prior: usize)
        requires
            *old(self) is Atomic,
            (*old(self))->Atomic_0 + val <= usize::MAX,
        ensures
            *old(self) == FlexRcRefcount::Atomic(prior),
            *final(self) == FlexRcRefcount::Atomic((prior + val) as usize),
    {
        match self {
            FlexRcRefcount::Atomic(n) => {
                let prior: usize = *n;
                *n = prior + val;
                prior
            },
            _ => unreached(),
        }
    }

    /// Subtracts `val` from an atomic counter and returns the value it held
    /// before. The caller never subtracts more than the counter holds.
    pub fn fetch_sub(&mut self, val: usize) -> (prior: usize)
        requires
            *old(self) is Atomic,
            val <= (*old(self))->Atomic_0,
        ensures
            *old(self) == FlexRcRefcount::Atomic(prior),
            *final(self) == FlexRcRefcount::Atomic((prior - val) as usize),
    {
        match self {
            FlexRcRefcount::Atomic(n) => {
                let prior: usize = *n;
                *n = prior - val;
                prior
            },
            _ => unreached(),
        }
    }

    /// Reads a plain counter.
    pub fn get(&self) -> (n: usize)
        requires
            self is Simple,
        ensures
            *self == FlexRcRefcount::Simple(n),
    {
        match self {
            FlexRcRefcount::Simple(n) => *n,
            _ => unreached(),
        }
    }

    /// Overwrites a plain counter.
    pub fn set(&mut self, val: usize)
        requires
            *old(self) is Simple,
        ensures
            *final(self) == FlexRcRefcount::Simple(val),
    {
        match self {
            FlexRcRefcount::Simple(n) => {
                *n = val;
            },
            _ => unreached(),
        }
    }
}

/// One allocation record. `data` is `None` once a conversion has moved the
/// payload out; such a record is hollow, and releasing it destroys nothing.
pub struct FlexRcBox<T> {
    pub refcount: FlexRcRefcount,
    pub discriminant: Discriminant,
    pub data: Option<T>,
}

impl<T> FlexRcBox<T> {
    /// The tag agrees with the counter's representation, a counter that
    /// exists counts at least one handle, and an immortal record is never
    /// hollow.
    pub open spec fn wf(self) -> bool {
        &&& self.refcount.discriminant() == self.discriminant
        &&& (self.refcount.count() matches Some(n) ==> n >= 1)
        &&& (self.discriminant == Discriminant::Immortal ==> self.data is Some)
    }

    /// A record of `strategy` around `data` with one handle to it.
    pub open spec fn fresh(strategy: Discriminant, data: T) -> FlexRcBox<T> {
        FlexRcBox {
            refcount: match strategy {
                Discriminant::Send => FlexRcRefcount::Atomic(1),
                Discriminant::Simple => FlexRcRefcount::Simple(1),
                Discriminant::Immortal => FlexRcRefcount::Immortal,
            },
            discriminant: strategy,
            data: Some(data),
        }
    }

    /// The record with its counter holding `n`.
    pub open spec fn with_count(self, n: usize) -> FlexRcBox<T> {
        FlexRcBox { refcount: self.refcount.with_count(n), ..self }
    }

    /// The record after one more handle has been made for it.
    pub open spec fn incremented(self) -> FlexRcBox<T> {
        match self.refcount.count() {
            Some(n) => self.with_count((n + 1) as usize),
            None => self,
        }
    }

    /// The record after one handle has been dropped, or `None` where that
    /// handle was the last one and the record is released.
    pub open spec fn decremented(self) -> Option<FlexRcBox<T>> {
        match self.refcount.count() {
            Some(n) => if n <= 1 {
                None
            } else {
                Some(self.with_count((n - 1) as usize))
            },
            None => Some(self),
        }
    }

    /// The record with `data` in place of its payload.
    pub open spec fn holding(self, data: T) -> FlexRcBox<T> {
        FlexRcBox { data: Some(data), ..self }
    }

    /// The record after its payload has been moved out.
    pub open spec fn hollowed(self) -> FlexRcBox<T> {
        FlexRcBox { data: None, ..self }
    }
}

} // verus!
