//! The value-storage capability: read a result derived from the stored
//! value, or atomically update the stored value and hand a result back.
//!
//! Implementations disagree on where the value lives — in memory here,
//! behind the file-backed replace protocol at the process edge — but
//! they share one contract: `read_value` applies its transform to the
//! stored value without changing it, and `update_value` applies its
//! transform to the then-current value and stores the new value it
//! returns, so no update is ever lost.

use vstd::prelude::*;
use crate::file_storage::StorageError;

verus! {

/// Storage of one value, read and updated through caller-supplied
/// transforms.
pub trait ValueStorage<V>: Sized {
    /// The currently stored value.
    spec fn stored(&self) -> V;

    /// Derives a result from the stored value without changing it. A
    /// failure comes from the backend, never from the transform.
    fn read_value<R, F: FnOnce(V) -> R>(&self, f: F) -> (r: Result<R, StorageError>)
        requires
            call_requires(f, (self.stored(),)),
        ensures
            r matches Ok(v) ==> call_ensures(f, (self.stored(),), v),
    ;

    /// Derives a new value and a result from the current value, then
    /// stores the new value. Updates are applied to the value as it is
    /// at that moment, never to a stale snapshot; a failed update
    /// leaves the stored value untouched.
    fn update_value<R, F: FnOnce(V) -> (V, R)>(&mut self, f: F) -> (r: Result<R, StorageError>)
        requires
            call_requires(f, (old(self).stored(),)),
        ensures
            match r {
                Ok(res) => call_ensures(f, (old(self).stored(),), (final(self).stored(), res)),
                Err(_) => final(self).stored() == old(self).stored(),
            },
    ;
}

/// In-memory value storage, for tests and for wiring a handler without
/// a durable backend.
pub struct InMemoryValueStorage<V> {
    pub value: V,
}

impl<V: Copy> InMemoryValueStorage<V> {
    /// A store holding `value`.
    pub fn new(value: V) -> (s: Self)
        ensures
            s.stored() == value,
    {
        InMemoryValueStorage { value }
    }
}

impl<V: Copy> ValueStorage<V> for InMemoryValueStorage<V> {
    open spec fn stored(&self) -> V {
        self.value
    }

    fn read_value<R, F: FnOnce(V) -> R>(&self, f: F) -> (r: Result<R, StorageError>)
        ensures
            r is Ok,
    {
        Ok(f(self.value))
    }

    fn update_value<R, F: FnOnce(V) -> (V, R)>(&mut self, f: F) -> (r: Result<R, StorageError>)
        ensures
            r is Ok,
    {
        let (new_value, result) = f(self.value);
        self.value = new_value;
        Ok(result)
    }
}

/// The stored value after `n` updates that each increment it by one,
/// each applied to the value the one before it stored.
pub open spec fn after_increments(v0: int, n: nat) -> int
    decreases n,
{
    if n == 0 {
        v0
    } else {
        after_increments(v0, (n - 1) as nat) + 1
    }
}

/// No lost updates: because every update transforms the value the
/// previous update stored — which is what the `update_value` contract
/// guarantees once the exclusive lock has linearized the writers — `n`
/// increments leave the store at exactly the initial value plus `n`.
pub proof fn lemma_no_lost_updates(v0: int, n: nat)
    ensures
        after_increments(v0, n) == v0 + n,
    decreases n,
{
    if n > 0 {
        lemma_no_lost_updates(v0, (n - 1) as nat);
    }
}

/// The same law over an arbitrary linearization history: if `h` records
/// the stored value before the first update and after each of the
/// updates, and every update incremented the value it observed by one,
/// the final value is the initial one plus the number of updates —
/// whatever interleaving of writers produced that history.
pub proof fn lemma_increment_history(h: Seq<int>)
    requires
        h.len() > 0,
        forall|i: int| 0 <= i < h.len() - 1 ==> #[trigger] h[i + 1] == h[i] + 1,
    ensures
        h.last() == h.first() + h.len() - 1,
    decreases h.len(),
{
    if h.len() > 1 {
        lemma_increment_history(h.drop_last());
        assert(h.drop_last().first() == h.first());
        let i: int = h.len() - 2;
        assert(h[i + 1] == h[i] + 1);
        assert(h.last() == h[i + 1]);
    }
}

} // verus!
