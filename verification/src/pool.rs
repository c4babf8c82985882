//! Slot accounting for the optional bounded worker pool that sleep
//! requests may be dispatched through. The pool caps how many waits run
//! concurrently; when it is saturated, dispatch falls back to an
//! unbounded route rather than losing or failing the request, so
//! acceptance is unconditional either way.

use vstd::prelude::*;

verus! {

/// How one accepted sleep request is carried out: on a pool slot, or —
/// exactly when the pool is saturated — on a fresh unbounded unit of
/// execution. There is no third outcome: a request is never dropped and
/// saturation is never surfaced to the caller.
#[derive(Clone, Copy, PartialEq, Eq, Structural, Debug)]
pub enum DispatchRoute {
    Pooled,
    Fallback,
}

/// Slot accounting of the process-wide worker pool, sized once at
/// startup. Only the accounting needs mutual exclusion in the runtime;
/// no timer state is behind it.
#[derive(Clone, Copy, PartialEq, Eq, Structural, Debug)]
pub struct WorkerPool {
    pub capacity: u64,
    pub in_use: u64,
}

impl WorkerPool {
    /// Accounting never claims more outstanding waits than the pool has
    /// slots.
    pub open spec fn wf(self) -> bool {
        self.in_use <= self.capacity
    }

    /// A fresh pool with every slot free.
    pub fn new(capacity: u64) -> (p: WorkerPool)
        ensures
            p == (WorkerPool { capacity: capacity, in_use: 0 }),
            p.wf(),
    {
        WorkerPool { capacity, in_use: 0 }
    }

    /// Claims one slot if any is free: succeeds exactly when the pool is
    /// not saturated, and changes nothing otherwise.
    pub fn try_acquire(&mut self) -> (got: bool)
        requires
            old(self).wf(),
        ensures
            final(self).wf(),
            final(self).capacity == old(self).capacity,
            got <==> old(self).in_use < old(self).capacity,
            got ==> final(self).in_use == old(self).in_use + 1,
            !got ==> *final(self) == *old(self),
    {
        if self.in_use < self.capacity {
            self.in_use = self.in_use + 1;
            true
        } else {
            false
        }
    }

    /// Returns one slot when its wait has completed.
    pub fn release(&mut self)
        requires
            old(self).wf(),
            old(self).in_use > 0,
        ensures
            *final(self) == (WorkerPool { in_use: (old(self).in_use - 1) as u64, ..*old(self) }),
            final(self).wf(),
    {
        self.in_use = self.in_use - 1;
    }
}

/// Routes one accepted sleep request: through the pool exactly when a
/// slot is free, else through the unbounded fallback. Every call yields
/// a route — "try the pool, else guarantee delivery another way" — so a
/// saturated pool delays nothing and loses nothing.
pub fn dispatch(pool: &mut WorkerPool) -> (route: DispatchRoute)
    requires
        old(pool).wf(),
    ensures
        final(pool).wf(),
        final(pool).capacity == old(pool).capacity,
        route == DispatchRoute::Pooled <==> old(pool).in_use < old(pool).capacity,
        route == DispatchRoute::Pooled ==> final(pool).in_use == old(pool).in_use + 1,
        route == DispatchRoute::Fallback ==> *final(pool) == *old(pool),
{
    if pool.try_acquire() {
        DispatchRoute::Pooled
    } else {
        DispatchRoute::Fallback
    }
}

} // verus!
