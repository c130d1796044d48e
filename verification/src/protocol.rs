//! The counting protocol, stated over the view of a heap: what a clone, a
//! drop and a conversion each do to the map of records.

use vstd::prelude::*;
use vstd::pervasive::strictly_cloned;
use crate::record::{Discriminant, FlexRcBox};

verus! {

/// A record governed by `strategy` stands at `addr`.
pub open spec fn governed<T>(
    heap: Map<usize, FlexRcBox<T>>,
    addr: usize,
    strategy: Discriminant,
) -> bool {
    heap.contains_key(addr) && heap[addr].discriminant == strategy
}

/// The heap after the handle at `addr` has been cloned once.
pub open spec fn after_clone<T>(heap: Map<usize, FlexRcBox<T>>, addr: usize) -> Map<
    usize,
    FlexRcBox<T>,
> {
    heap.insert(addr, heap[addr].incremented())
}

/// The heap after one handle at `addr` has been dropped: the record counts
/// one handle less, or is gone where that handle was the last.
pub open spec fn after_drop<T>(heap: Map<usize, FlexRcBox<T>>, addr: usize) -> Map<
    usize,
    FlexRcBox<T>,
> {
    match heap[addr].decremented() {
        Some(record) => heap.insert(addr, record),
        None => heap.remove(addr),
    }
}

/// Whether a conversion of the handle at `addr` moves the payload: the
/// record is counted and this handle is its only one.
pub open spec fn unique<T>(heap: Map<usize, FlexRcBox<T>>, addr: usize) -> bool {
    heap[addr].refcount.count() == Some(1usize)
}

/// The heap after the handle at `from` has been converted into a handle of
/// `strategy` at `to`, whose record holds `data`. A unique source is left
/// hollow; a shared or immortal one is left as it was.
pub open spec fn after_conversion<T>(
    heap: Map<usize, FlexRcBox<T>>,
    from: usize,
    to: usize,
    strategy: Discriminant,
    data: T,
) -> Map<usize, FlexRcBox<T>> {
    if unique(heap, from) {
        heap.insert(from, heap[from].hollowed()).insert(to, FlexRcBox::fresh(strategy, data))
    } else {
        heap.insert(to, FlexRcBox::fresh(strategy, data))
    }
}

/// Whether `after` is what a conversion makes of `before`, where it turns
/// the handle at `from` into a handle of `strategy` at `to`. The address
/// `to` was not in use. The new record holds the very payload of the source
/// where the source was unique, and else a duplicate that the payload's own
/// `clone` has made of it.
pub open spec fn converted<T: Clone>(
    before: Map<usize, FlexRcBox<T>>,
    after: Map<usize, FlexRcBox<T>>,
    from: usize,
    to: usize,
    strategy: Discriminant,
) -> bool {
    let source = before[from].data->0;
    let data = after[to].data->0;
    &&& !before.contains_key(to)
    &&& if unique(before, from) {
        data == source
    } else {
        strictly_cloned(source, data)
    }
    &&& after =~= after_conversion(before, from, to, strategy, data)
}

/// Cloning a handle and dropping the clone at once leaves the whole heap as
/// it was: the record is still there, with the same count and the same
/// payload, and so is every other record.
pub proof fn lemma_clone_then_drop<T>(heap: Map<usize, FlexRcBox<T>>, addr: usize)
    requires
        heap.contains_key(addr),
        heap[addr].wf(),
        heap[addr].refcount.count() != Some(usize::MAX),
    ensures
        after_drop(after_clone(heap, addr), addr) == heap,
{
    let cloned = after_clone(heap, addr);
    assert(cloned[addr] == heap[addr].incremented());
    assert(cloned[addr].decremented() == Some(heap[addr]));
    assert(after_drop(cloned, addr) =~= heap);
}

/// One step in the life of a record: a handle to it is cloned or dropped.
pub enum HandleOp {
    Clone,
    Drop,
}

/// The heap after the steps of `ops` have been made at `addr`, in their order.
pub open spec fn after_ops<T>(heap: Map<usize, FlexRcBox<T>>, addr: usize, ops: Seq<HandleOp>) -> Map<
    usize,
    FlexRcBox<T>,
>
    decreases ops.len(),
{
    if ops.len() == 0 {
        heap
    } else {
        let before = after_ops(heap, addr, ops.drop_last());
        match ops.last() {
            HandleOp::Clone => after_clone(before, addr),
            HandleOp::Drop => after_drop(before, addr),
        }
    }
}

/// The number of handles that are left of `start` handles after the steps of
/// `ops`: each clone makes one, each drop takes one.
pub open spec fn handles_after(start: int, ops: Seq<HandleOp>) -> int
    decreases ops.len(),
{
    if ops.len() == 0 {
        start
    } else {
        handles_after(start, ops.drop_last()) + match ops.last() {
            HandleOp::Clone => 1int,
            HandleOp::Drop => -1int,
        }
    }
}

/// Every step of `ops` can be made: it goes through a handle, so at least
/// one handle is left before it, and the handles never outnumber `usize`.
pub open spec fn steps_possible(start: int, ops: Seq<HandleOp>) -> bool {
    forall|i: int|
        0 <= i < ops.len() ==> 1 <= #[trigger] handles_after(start, ops.take(i)) && handles_after(
            start,
            ops.take(i + 1),
        ) <= usize::MAX
}

/// The count of a counted record is the number of its handles, in whatever
/// order clones and drops reach the heap, be it from one thread or, one
/// after the other, from many. While a handle is left the record is in the
/// heap, counts the handles that are left and holds its payload untouched.
/// The step that takes the last handle releases the record; no step can
/// follow it, so a record is released once at most.
pub proof fn lemma_count_is_handles<T>(
    heap: Map<usize, FlexRcBox<T>>,
    addr: usize,
    ops: Seq<HandleOp>,
)
    requires
        heap.contains_key(addr),
        heap[addr].refcount.count() is Some,
        heap[addr].refcount.count()->0 >= 1,
        steps_possible(heap[addr].refcount.count()->0 as int, ops),
    ensures
        0 <= handles_after(heap[addr].refcount.count()->0 as int, ops) <= usize::MAX,
        handles_after(heap[addr].refcount.count()->0 as int, ops) >= 1 ==> after_ops(
            heap,
            addr,
            ops,
        ) == heap.insert(
            addr,
            heap[addr].with_count(
                handles_after(heap[addr].refcount.count()->0 as int, ops) as usize,
            ),
        ),
        handles_after(heap[addr].refcount.count()->0 as int, ops) == 0 ==> after_ops(
            heap,
            addr,
            ops,
        ) == heap.remove(addr),
    decreases ops.len(),
{
    let start = heap[addr].refcount.count()->0 as int;
    if ops.len() == 0 {
        assert(heap[addr].with_count(start as usize) == heap[addr]);
        assert(heap.insert(addr, heap[addr]) =~= heap);
    } else {
        let earlier = ops.drop_last();
        assert forall|i: int| 0 <= i < earlier.len() implies 1 <= #[trigger] handles_after(
            start,
            earlier.take(i),
        ) && handles_after(start, earlier.take(i + 1)) <= usize::MAX by {
            assert(earlier.take(i) =~= ops.take(i));
            assert(earlier.take(i + 1) =~= ops.take(i + 1));
        }
        lemma_count_is_handles(heap, addr, earlier);
        let left = handles_after(start, earlier);
        assert(earlier =~= ops.take(ops.len() - 1));
        assert(ops =~= ops.take(ops.len() as int));
        assert(1 <= left);
        assert(handles_after(start, ops) <= usize::MAX);
        let before = after_ops(heap, addr, earlier);
        assert(before[addr] == heap[addr].with_count(left as usize));
        match ops.last() {
            HandleOp::Clone => {
                assert(before[addr].incremented() == heap[addr].with_count((left + 1) as usize));
                assert(after_clone(before, addr) =~= heap.insert(
                    addr,
                    heap[addr].with_count((left + 1) as usize),
                ));
            },
            HandleOp::Drop => {
                if left == 1 {
                    assert(before[addr].decremented() == None::<FlexRcBox<T>>);
                    assert(after_drop(before, addr) =~= heap.remove(addr));
                } else {
                    assert(before[addr].decremented() == Some(
                        heap[addr].with_count((left - 1) as usize),
                    ));
                    assert(after_drop(before, addr) =~= heap.insert(
                        addr,
                        heap[addr].with_count((left - 1) as usize),
                    ));
                }
            },
        }
    }
}

/// `n` clones, one after the other.
pub open spec fn clones(n: nat) -> Seq<HandleOp> {
    Seq::new(n, |i: int| HandleOp::Clone)
}

/// `n` drops, one after the other.
pub open spec fn drops(n: nat) -> Seq<HandleOp> {
    Seq::new(n, |i: int| HandleOp::Drop)
}

proof fn lemma_handles_after_clones_drops(start: int, n: nat, k: nat)
    ensures
        handles_after(start, clones(n) + drops(k)) == start + n - k,
    decreases k, n,
{
    let ops = clones(n) + drops(k);
    if k > 0 {
        assert(ops.drop_last() =~= clones(n) + drops((k - 1) as nat));
        lemma_handles_after_clones_drops(start, n, (k - 1) as nat);
    } else if n > 0 {
        assert(ops.drop_last() =~= clones((n - 1) as nat) + drops(0));
        lemma_handles_after_clones_drops(start, (n - 1) as nat, 0);
    }
}

/// The life of a counted record from its first handle on. After `n` clones
/// it counts `n + 1` handles. While at most `n` of them have been dropped it
/// is still in the heap, counts the handles that are left and holds the same
/// payload. The drop of the last handle releases it.
pub proof fn lemma_clones_then_drops<T>(
    heap: Map<usize, FlexRcBox<T>>,
    addr: usize,
    n: nat,
    k: nat,
)
    requires
        heap.contains_key(addr),
        heap[addr].refcount.count() == Some(1usize),
        n + 1 <= usize::MAX,
        k <= n + 1,
    ensures
        after_ops(heap, addr, clones(n)) == heap.insert(
            addr,
            heap[addr].with_count((n + 1) as usize),
        ),
        k <= n ==> after_ops(heap, addr, clones(n) + drops(k)) == heap.insert(
            addr,
            heap[addr].with_count((n + 1 - k) as usize),
        ),
        k == n + 1 ==> after_ops(heap, addr, clones(n) + drops(k)) == heap.remove(addr),
{
    let ops = clones(n) + drops(k);
    assert forall|i: int| 0 <= i < ops.len() implies 1 <= #[trigger] handles_after(
        1,
        ops.take(i),
    ) && handles_after(1, ops.take(i + 1)) <= usize::MAX by {
        if i < n {
            assert(ops.take(i) =~= clones(i as nat) + drops(0));
            assert(ops.take(i + 1) =~= clones((i + 1) as nat) + drops(0));
            lemma_handles_after_clones_drops(1, i as nat, 0);
            lemma_handles_after_clones_drops(1, (i + 1) as nat, 0);
        } else {
            assert(ops.take(i) =~= clones(n) + drops((i - n) as nat));
            assert(ops.take(i + 1) =~= clones(n) + drops((i + 1 - n) as nat));
            lemma_handles_after_clones_drops(1, n, (i - n) as nat);
            lemma_handles_after_clones_drops(1, n, (i + 1 - n) as nat);
        }
    }
    lemma_handles_after_clones_drops(1, n, k);
    lemma_count_is_handles(heap, addr, ops);

    let shared = clones(n);
    assert(shared =~= ops.take(n as int));
    assert forall|i: int| 0 <= i < shared.len() implies 1 <= #[trigger] handles_after(
        1,
        shared.take(i),
    ) && handles_after(1, shared.take(i + 1)) <= usize::MAX by {
        assert(shared.take(i) =~= ops.take(i));
        assert(shared.take(i + 1) =~= ops.take(i + 1));
    }
    assert(shared =~= clones(n) + drops(0));
    lemma_handles_after_clones_drops(1, n, 0);
    lemma_count_is_handles(heap, addr, shared);
}

/// An immortal record is never released and never changed: whatever handles
/// to it are made and dropped, and in whatever order, the heap stays as it
/// was.
pub proof fn lemma_immortal_persists<T>(
    heap: Map<usize, FlexRcBox<T>>,
    addr: usize,
    ops: Seq<HandleOp>,
)
    requires
        heap.contains_key(addr),
        heap[addr].refcount.count() is None,
    ensures
        after_ops(heap, addr, ops) == heap,
    decreases ops.len(),
{
    if ops.len() > 0 {
        lemma_immortal_persists(heap, addr, ops.drop_last());
        assert(after_clone(heap, addr) =~= heap);
        assert(after_drop(heap, addr) =~= heap);
    }
}

/// A conversion of a unique handle moves the payload: once the source
/// handle has been dropped as well, its record is gone, and the payload
/// stands in the new record and nowhere else. The drop of the hollow source
/// releases the record without a payload to destroy.
pub proof fn lemma_conversion_moves<T>(
    heap: Map<usize, FlexRcBox<T>>,
    from: usize,
    to: usize,
    strategy: Discriminant,
)
    requires
        heap.contains_key(from),
        !heap.contains_key(to),
        unique(heap, from),
        heap[from].data is Some,
    ensures
        after_conversion(heap, from, to, strategy, heap[from].data->0)[from].data is None,
        after_drop(after_conversion(heap, from, to, strategy, heap[from].data->0), from)
            == heap.remove(from).insert(to, FlexRcBox::fresh(strategy, heap[from].data->0)),
{
    let converted = after_conversion(heap, from, to, strategy, heap[from].data->0);
    assert(converted[from] == heap[from].hollowed());
    assert(converted[from].decremented() == None::<FlexRcBox<T>>);
    assert(after_drop(converted, from) =~= heap.remove(from).insert(
        to,
        FlexRcBox::fresh(strategy, heap[from].data->0),
    ));
}

} // verus!
