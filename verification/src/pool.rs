//! The worker pool's dispatch logic: a fixed set of workers, a FIFO queue of
//! submitted units of work, and the rules that bound concurrency and keep
//! every unit on exactly one worker. The binary performs the thread mechanics;
//! this model is the contract they must keep.

use vstd::prelude::*;

verus! {

/// How many workers of `ws` are running a unit of work.
pub open spec fn count_busy(ws: Seq<Option<u64>>) -> nat
    decreases ws.len(),
{
    if ws.len() == 0 {
        0
    } else {
        count_busy(ws.drop_last()) + if ws.last() is Some {
            1nat
        } else {
            0nat
        }
    }
}

/// The dispatch state of a fixed worker pool. Each submitted unit of work is
/// named by the ticket handed out at submission; `workers` holds the ticket
/// each worker is running, `queue` the tickets submitted and not yet picked
/// up, oldest first.
pub struct Pool {
    workers: Vec<Option<u64>>,
    queue: Vec<u64>,
    next_ticket: u64,
}

impl Pool {
    /// The ticket each worker is running, if any.
    pub closed spec fn spec_workers(&self) -> Seq<Option<u64>> {
        self.workers@
    }

    /// The tickets waiting to be picked up, oldest first.
    pub closed spec fn spec_queue(&self) -> Seq<u64> {
        self.queue@
    }

    /// The ticket the next submission gets.
    pub closed spec fn spec_next_ticket(&self) -> u64 {
        self.next_ticket
    }

    /// How many workers are busy.
    pub open spec fn busy(&self) -> nat {
        count_busy(self.spec_workers())
    }

    /// Whether some worker is idle.
    pub open spec fn has_idle(&self) -> bool {
        exists|i: int| 0 <= i < self.spec_workers().len() && self.spec_workers()[i] is None
    }

    /// Well-formed: at least one worker, every ticket in play was issued, no
    /// ticket is queued twice, run by two workers, or both queued and running.
    pub open spec fn wf(&self) -> bool {
        &&& self.spec_workers().len() >= 1
        &&& forall|i: int|
            0 <= i < self.spec_queue().len() ==> self.spec_queue()[i] < self.spec_next_ticket()
        &&& forall|i: int|
            0 <= i < self.spec_workers().len() && self.spec_workers()[i] is Some
                ==> self.spec_workers()[i]->0 < self.spec_next_ticket()
        &&& forall|i: int, j: int|
            0 <= i < j < self.spec_queue().len() ==> self.spec_queue()[i] != self.spec_queue()[j]
        &&& forall|i: int, j: int|
            0 <= i < self.spec_workers().len() && 0 <= j < self.spec_workers().len() && i != j
                && self.spec_workers()[i] is Some && self.spec_workers()[j] is Some
                ==> self.spec_workers()[i]->0 != self.spec_workers()[j]->0
        &&& forall|i: int, j: int|
            0 <= i < self.spec_workers().len() && 0 <= j < self.spec_queue().len()
                && self.spec_workers()[i] is Some ==> self.spec_workers()[i]->0
                != self.spec_queue()[j]
    }

    /// A fresh pool of `size` idle workers and an empty queue.
    pub fn new(size: usize) -> (p: Pool)
        requires
            size >= 1,
        ensures
            p.wf(),
            p.spec_workers().len() == size,
            forall|i: int| 0 <= i < size ==> p.spec_workers()[i] is None,
            p.spec_queue() == Seq::<u64>::empty(),
            p.spec_next_ticket() == 0,
    {
        let mut workers: Vec<Option<u64>> = Vec::new();
        let mut i: usize = 0;
        while i < size
            invariant
                i <= size,
                workers@.len() == i,
                forall|j: int| 0 <= j < i ==> workers@[j] is None,
            decreases size - i,
        {
            workers.push(None);
            i = i + 1;
        }
        let p = Pool { workers, queue: Vec::new(), next_ticket: 0 };
        proof {
            assert(p.spec_queue() =~= Seq::<u64>::empty());
        }
        p
    }

    /// Submits one unit of work: it joins the back of the queue and the caller
    /// gets its ticket. Submission never blocks and touches no worker.
    pub fn submit(&mut self) -> (t: u64)
        requires
            old(self).wf(),
            old(self).spec_next_ticket() < u64::MAX,
        ensures
            final(self).wf(),
            t == old(self).spec_next_ticket(),
            final(self).spec_queue() == old(self).spec_queue().push(t),
            final(self).spec_workers() == old(self).spec_workers(),
            final(self).spec_next_ticket() == old(self).spec_next_ticket() + 1,
    {
        let t = self.next_ticket;
        self.queue.push(t);
        self.next_ticket = self.next_ticket + 1;
        proof {
            let q0 = old(self).spec_queue();
            let q1 = self.spec_queue();
            assert forall|i: int| 0 <= i < q1.len() implies q1[i] < self.spec_next_ticket() by {
                if i < q0.len() {
                    assert(q1[i] == q0[i]);
                }
            }
            assert forall|i: int, j: int| 0 <= i < j < q1.len() implies q1[i] != q1[j] by {
                assert(q1[i] == q0[i]);
                if j < q0.len() {
                    assert(q1[j] == q0[j]);
                }
            }
        }
        t
    }

    /// Hands the oldest queued unit of work to an idle worker. Returns the
    /// worker and the ticket exactly when something is queued and a worker is
    /// idle; otherwise nothing changes.
    pub fn dispatch(&mut self) -> (r: Option<(usize, u64)>)
        requires
            old(self).wf(),
        ensures
            final(self).wf(),
            final(self).spec_next_ticket() == old(self).spec_next_ticket(),
            r is Some <==> old(self).spec_queue().len() > 0 && old(self).has_idle(),
            match r {
                Some((w, t)) => {
                    &&& w < old(self).spec_workers().len()
                    &&& old(self).spec_workers()[w as int] is None
                    &&& t == old(self).spec_queue()[0]
                    &&& final(self).spec_workers() == old(self).spec_workers().update(
                        w as int,
                        Some(t),
                    )
                    &&& final(self).spec_queue() == old(self).spec_queue().drop_first()
                },
                None => {
                    &&& final(self).spec_workers() == old(self).spec_workers()
                    &&& final(self).spec_queue() == old(self).spec_queue()
                },
            },
    {
        if self.queue.len() == 0 {
            return None;
        }
        let n = self.workers.len();
        let mut w: usize = 0;
        while w < n
            invariant
                old(self).wf(),
                self.workers@ == old(self).spec_workers(),
                self.queue@ == old(self).spec_queue(),
                self.queue@.len() > 0,
                self.next_ticket == old(self).spec_next_ticket(),
                n == self.workers@.len(),
                w <= n,
                forall|j: int| 0 <= j < w ==> self.workers@[j] is Some,
            decreases n - w,
        {
            if self.workers[w].is_none() {
                let t = self.queue.remove(0);
                self.workers.set(w, Some(t));
                proof {
                    assert(self.spec_queue() =~= old(self).spec_queue().drop_first());
                }
                return Some((w, t));
            }
            w = w + 1;
        }
        proof {
            assert(!old(self).has_idle());
        }
        None
    }

    /// A worker finished its unit of work and is idle again. The ticket
    /// leaves the pool: it is never run a second time.
    pub fn complete(&mut self, w: usize) -> (t: u64)
        requires
            old(self).wf(),
            w < old(self).spec_workers().len(),
            old(self).spec_workers()[w as int] is Some,
        ensures
            final(self).wf(),
            t == old(self).spec_workers()[w as int]->0,
            final(self).spec_workers() == old(self).spec_workers().update(w as int, None::<u64>),
            final(self).spec_queue() == old(self).spec_queue(),
            final(self).spec_next_ticket() == old(self).spec_next_ticket(),
    {
        let t = match self.workers[w] {
            Some(t) => t,
            None => 0,
        };
        self.workers.set(w, None);
        proof {
            let ws0 = old(self).spec_workers();
            let ws1 = self.spec_workers();
            let q = self.spec_queue();
            assert forall|i: int| 0 <= i < ws1.len() && ws1[i] is Some implies ws1[i] == ws0[i]
                && ws0[i] is Some by {}
            assert forall|i: int|
                0 <= i < ws1.len() && ws1[i] is Some implies ws1[i]->0
                < self.spec_next_ticket() by {}
            assert forall|i: int, j: int|
                0 <= i < ws1.len() && 0 <= j < ws1.len() && i != j && ws1[i] is Some
                    && ws1[j] is Some implies ws1[i]->0 != ws1[j]->0 by {}
            assert forall|i: int, j: int|
                0 <= i < ws1.len() && 0 <= j < q.len() && ws1[i] is Some implies ws1[i]->0
                != q[j] by {
                assert(old(self).spec_queue()[j] == q[j]);
                assert(ws0[i] is Some);
            }
            assert forall|i: int| 0 <= i < q.len() implies q[i] < self.spec_next_ticket() by {
                assert(old(self).spec_queue()[i] == q[i]);
            }
            assert forall|i: int, j: int| 0 <= i < j < q.len() implies q[i] != q[j] by {
                assert(old(self).spec_queue()[i] == q[i]);
                assert(old(self).spec_queue()[j] == q[j]);
            }
            assert(self.wf());
        }
        t
    }

    /// How many workers are running a unit of work right now.
    pub fn busy_count(&self) -> (c: usize)
        ensures
            c == self.busy(),
    {
        let n = self.workers.len();
        let mut c: usize = 0;
        let mut i: usize = 0;
        while i < n
            invariant
                n == self.spec_workers().len(),
                i <= n,
                c == count_busy(self.spec_workers().subrange(0, i as int)),
                c <= i,
            decreases n - i,
        {
            proof {
                assert(self.spec_workers().subrange(0, i + 1).drop_last() =~= self.spec_workers()
                    .subrange(0, i as int));
            }
            if self.workers[i].is_some() {
                c = c + 1;
            }
            i = i + 1;
        }
        proof {
            assert(self.spec_workers().subrange(0, n as int) =~= self.spec_workers());
        }
        c
    }
}

proof fn lemma_count_busy_le_len(ws: Seq<Option<u64>>)
    ensures
        count_busy(ws) <= ws.len(),
    decreases ws.len(),
{
    if ws.len() > 0 {
        lemma_count_busy_le_len(ws.drop_last());
    }
}

proof fn lemma_all_busy_count(ws: Seq<Option<u64>>)
    requires
        forall|i: int| 0 <= i < ws.len() ==> ws[i] is Some,
    ensures
        count_busy(ws) == ws.len(),
    decreases ws.len(),
{
    if ws.len() > 0 {
        lemma_all_busy_count(ws.drop_last());
    }
}

/// No more units of work run at once than the pool has workers: the pool
/// bounds concurrency.
pub proof fn lemma_bounded_concurrency(p: Pool)
    ensures
        p.busy() <= p.spec_workers().len(),
{
    lemma_count_busy_le_len(p.spec_workers());
}

/// A pool with spare capacity has an idle worker: while one worker sleeps in
/// the slow route, a pool of two or more with no other work still dispatches
/// the next request at once instead of queueing it behind the sleeper.
pub proof fn lemma_spare_capacity_has_idle(p: Pool)
    requires
        p.busy() < p.spec_workers().len(),
    ensures
        p.has_idle(),
{
    if !p.has_idle() {
        assert(forall|i: int|
            0 <= i < p.spec_workers().len() ==> p.spec_workers()[i] is Some);
        lemma_all_busy_count(p.spec_workers());
    }
}

/// With a single worker that is busy, nothing more is dispatched until it
/// finishes: a queued unit of work waits for the whole slow request ahead of
/// it.
pub proof fn lemma_single_worker_serializes(p: Pool)
    requires
        p.spec_workers().len() == 1,
        p.spec_workers()[0] is Some,
    ensures
        !p.has_idle(),
{
}

/// Once a worker completes its unit of work, that ticket is nowhere in the
/// pool: neither queued nor on any worker, so it is never run or answered a
/// second time.
pub proof fn lemma_completed_work_is_gone(before: Pool, after: Pool, w: int, t: u64)
    requires
        before.wf(),
        0 <= w < before.spec_workers().len(),
        before.spec_workers()[w] is Some,
        t == before.spec_workers()[w]->0,
        after.spec_workers() == before.spec_workers().update(w, None::<u64>),
        after.spec_queue() == before.spec_queue(),
    ensures
        forall|i: int|
            0 <= i < after.spec_workers().len() && after.spec_workers()[i] is Some
                ==> after.spec_workers()[i]->0 != t,
        forall|i: int| 0 <= i < after.spec_queue().len() ==> after.spec_queue()[i] != t,
{
    assert forall|i: int|
        0 <= i < after.spec_workers().len() && after.spec_workers()[i] is Some
            implies after.spec_workers()[i]->0 != t by {
        assert(after.spec_workers()[i] == before.spec_workers()[i]);
    }
    assert forall|i: int| 0 <= i < after.spec_queue().len() implies after.spec_queue()[i] != t by {
        assert(before.spec_queue()[i] == after.spec_queue()[i]);
    }
}

/// In a well-formed pool no two workers ever run the same unit of work, and
/// nothing both waits in the queue and runs: each submission is handled at
/// most once at a time.
pub proof fn lemma_no_duplicated_work(p: Pool, i: int, j: int)
    requires
        p.wf(),
        0 <= i < p.spec_workers().len(),
        0 <= j < p.spec_workers().len(),
        i != j,
        p.spec_workers()[i] is Some,
        p.spec_workers()[j] is Some,
    ensures
        p.spec_workers()[i]->0 != p.spec_workers()[j]->0,
        forall|q: int|
            0 <= q < p.spec_queue().len() ==> p.spec_queue()[q] != p.spec_workers()[i]->0,
{
}

} // verus!
