//! The resource pool's bookkeeping: a bounded count of checked-out handles
//! and a queue of suspended acquirers, in arrival order. The handles and the
//! wire protocol live with the backend collaborator; this state machine
//! decides who holds a handle, and its invariant rules deadlock out: nobody
//! ever waits while a handle is free, so whenever anybody waits, some holder
//! exists whose release serves the head of the queue.

use vstd::prelude::*;

verus! {

/// Why an acquire can fail.
#[derive(Clone, Copy, PartialEq, Eq, Structural, Debug)]
pub enum PoolError {
    /// The bounded wait for a free handle timed out.
    PoolExhausted,
    /// The underlying connection attempt failed at first use.
    BackendUnavailable,
}

/// What one acquire call does immediately: a grant, or a place in the queue.
#[derive(Clone, Copy, PartialEq, Eq, Structural, Debug)]
pub enum AcquireOutcome {
    Granted,
    Queued,
}

/// The bookkeeping of one bounded pool of reusable backend handles.
pub struct Pool {
    pub capacity: usize,
    pub in_use: usize,
    pub waiting: Vec<u64>,
}

/// The pool's invariant: never more handles out than the bound, and nobody
/// waits while a handle is free.
pub open spec fn pool_wf(p: Pool) -> bool {
    &&& 1 <= p.capacity
    &&& p.in_use <= p.capacity
    &&& (p.waiting@.len() > 0 ==> p.in_use == p.capacity)
}

impl Pool {
    /// A fresh pool: nothing out, nobody waiting. Connectivity is validated
    /// lazily at first use, so construction never fails.
    pub fn new(capacity: usize) -> (p: Pool)
        requires
            1 <= capacity,
        ensures
            pool_wf(p),
            p.capacity == capacity,
            p.in_use == 0,
            p.waiting@.len() == 0,
    {
        Pool { capacity, in_use: 0, waiting: Vec::new() }
    }

    /// One acquire: a handle is granted at once when one is free; otherwise
    /// the caller, named by its ticket, suspends at the back of the queue —
    /// the call never blocks the process.
    pub fn acquire(&mut self, ticket: u64) -> (r: AcquireOutcome)
        requires
            pool_wf(*old(self)),
        ensures
            pool_wf(*final(self)),
            final(self).capacity == old(self).capacity,
            old(self).in_use < old(self).capacity ==> r == AcquireOutcome::Granted && final(self).in_use == old(self).in_use + 1 && final(self).waiting@ == old(self).waiting@,
            old(self).in_use == old(self).capacity ==> r == AcquireOutcome::Queued && final(self).in_use == old(self).in_use && final(self).waiting@ == old(self).waiting@.push(ticket),
    {
        if self.in_use < self.capacity {
            self.in_use = self.in_use + 1;
            AcquireOutcome::Granted
        } else {
            self.waiting.push(ticket);
            AcquireOutcome::Queued
        }
    }

    /// One release, on every exit path of the holder, failure and
    /// cancellation included: with waiters, the handle passes straight to the
    /// head of the queue and the count of handles out does not change; with
    /// none, the handle returns to the pool.
    pub fn release(&mut self) -> (r: Option<u64>)
        requires
            pool_wf(*old(self)),
            old(self).in_use > 0,
        ensures
            pool_wf(*final(self)),
            final(self).capacity == old(self).capacity,
            old(self).waiting@.len() == 0 ==> r is None && final(self).in_use == old(self).in_use
                - 1 && final(self).waiting@.len() == 0,
            old(self).waiting@.len() > 0 ==> (r matches Some(t) && t == old(self).waiting@[0])
                && final(self).in_use == old(self).in_use && final(self).waiting@ == old(self).waiting@.subrange(1, old(self).waiting@.len() as int),
    {
        if self.waiting.len() > 0 {
            let t = self.waiting.remove(0);
            proof {
                assert(self.waiting@ =~= old(self).waiting@.subrange(
                    1,
                    old(self).waiting@.len() as int,
                ));
            }
            Some(t)
        } else {
            self.in_use = self.in_use - 1;
            None
        }
    }

    /// A queued caller gives up after its bounded wait: it leaves the queue,
    /// and its acquire fails with `PoolExhausted` rather than waiting
    /// forever.
    pub fn timeout(&mut self, ticket: u64) -> (e: PoolError)
        requires
            pool_wf(*old(self)),
        ensures
            pool_wf(*final(self)),
            e == PoolError::PoolExhausted,
            final(self).capacity == old(self).capacity,
            final(self).in_use == old(self).in_use,
            old(self).waiting@.contains(ticket) ==> exists|i: int|
                0 <= i < old(self).waiting@.len() && old(self).waiting@[i] == ticket && final(self).waiting@ == old(self).waiting@.remove(i),
            !old(self).waiting@.contains(ticket) ==> final(self).waiting@ == old(self).waiting@,
    {
        let mut i: usize = 0;
        while i < self.waiting.len()
            invariant
                *self == *old(self),
                pool_wf(*old(self)),
                0 <= i <= self.waiting@.len(),
                forall|j: int| 0 <= j < i ==> self.waiting@[j] != ticket,
            decreases self.waiting@.len() - i,
        {
            if self.waiting[i] == ticket {
                self.waiting.remove(i);
                assert(old(self).waiting@[i as int] == ticket);
                return PoolError::PoolExhausted;
            }
            i = i + 1;
        }
        PoolError::PoolExhausted
    }
}

/// Law: waiters never deadlock. While anybody waits, the pool is at capacity
/// and at least one handle is checked out; `release` then hands that handle
/// to the head of the queue, and a waiter that instead reaches its bounded
/// timeout leaves with `PoolExhausted` — so every queued acquire either
/// succeeds after a release or fails at its timeout.
pub proof fn lemma_waiters_never_deadlock(p: Pool)
    requires
        pool_wf(p),
        p.waiting@.len() > 0,
    ensures
        p.in_use == p.capacity,
        p.in_use > 0,
{
}

} // verus!
