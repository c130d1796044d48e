//! Reference-counted handles with three ownership strategies over one shape
//! of record: immortal, thread-safe counted and single-threaded counted.
//!
//! The records live in a [`FlexRcHeap`], and a [`FlexRc`] is the address of
//! one of them, tagged at compile time with the strategy that governs it.
//! Every function that reads or changes a record takes the heap beside the
//! handle. Counts are therefore exact, and the contracts say what each call
//! does to the heap as a map from addresses to records.
//!
//! A count changes only through `&mut FlexRcHeap`, so two changes never
//! overlap; whoever shares a heap between threads puts it behind a lock.
//! The strategies then differ in what their handles may do. A handle tagged
//! [`FlexRcSend`] or [`FlexRcImmortal`] may cross threads; one tagged
//! [`FlexRcSimple`] may not, and it alone gives mutable access to the
//! payload, while it is the only handle to its record.
//!
//! A handle is one counted reference and is given up with [`FlexRc::drop`].
//! The last drop of a counted record releases it; an immortal record is
//! never released.
//!
//! A handle of one strategy is converted into a handle of another by the
//! `make_*` functions. They take the source by reference and leave it
//! alive. Where the source is the only handle to its record, the payload is
//! moved into the new record, and the old record stays behind hollow: it
//! still counts its handle, and the drop of that handle frees it with no
//! payload to destroy, so no payload is ever destroyed twice. Where the
//! record is shared or immortal, the payload is duplicated.
//!
//! What holds of every heap, whatever calls are made and in whatever order,
//! is proved in [`protocol`].

pub mod compare;
pub mod handle;
pub mod heap;
pub mod immortal;
pub mod protocol;
pub mod record;
pub mod send;
pub mod simple;

pub use handle::{FlexRc, FlexRcImmortal, FlexRcSend, FlexRcSimple};
pub use heap::FlexRcHeap;
pub use immortal::{FlexRcImplImmortal, FlexRcImplImmortalDefault, FlexRcImplImmortalMake};
pub use record::{Discriminant, FlexRcBox, FlexRcRefcount};
pub use send::{FlexRcImplSend, FlexRcImplSendDefault, FlexRcImplSendMake};
pub use simple::{FlexRcImpl, FlexRcImplDefault, FlexRcImplMake};
