use vstd::prelude::*;
use std::collections::VecDeque;

verus! {

/// One text-generation request, created by a caller and consumed exactly
/// once by the worker.
#[derive(Debug)]
pub struct CompletionJob {
    /// Position in arrival order; assigned by the queue on acceptance.
    pub job_id: u64,
    /// The prompt text.
    pub prompt: String,
    /// Output-token budget of the request.
    pub n_predict: u32,
}

/// What `try_enqueue` did with a submission.
#[derive(Debug, Clone, Copy, PartialEq, Eq, Structural)]
pub enum EnqueueOutcome {
    /// The job was accepted under the returned id.
    Accepted(u64),
    /// The mailbox is at capacity; the submitter must wait until space
    /// frees and retry — the system's only backpressure mechanism.
    MailboxFull,
    /// The submission side has been released; nothing is accepted any
    /// more.
    Closed,
}

/// The bounded mailbox of pending jobs together with the worker's
/// single-flight marker.  All access to the inference server funnels
/// through the one worker that drains this queue, so mutual exclusion on
/// the server is a consequence of the queue's discipline, not of a lock.
pub struct JobQueue {
    pending: VecDeque<CompletionJob>,
    capacity: usize,
    next_id: u64,
    in_flight: Option<u64>,
    closed: bool,
    service_log: Ghost<Seq<u64>>,
}

impl JobQueue {
    /// The jobs accepted and not yet handed to the worker, oldest first.
    pub closed spec fn spec_pending(self) -> Seq<CompletionJob> {
        self.pending@
    }

    /// The mailbox bound.
    pub closed spec fn spec_capacity(self) -> int {
        self.capacity as int
    }

    /// How many jobs have ever been accepted; also the id the next
    /// acceptance will get.
    pub closed spec fn accepted_count(self) -> int {
        self.next_id as int
    }

    /// The id of the job the worker is currently serving, if any.
    pub closed spec fn spec_in_flight(self) -> Option<u64> {
        self.in_flight
    }

    /// The ids handed to the worker, in the order their service began.
    pub closed spec fn service_order(self) -> Seq<u64> {
        self.service_log@
    }

    /// The submission side has been released.
    pub closed spec fn spec_closed(self) -> bool {
        self.closed
    }

    /// There is no more work: the submission side is released, the mailbox
    /// has drained, and nothing is in flight.  The worker that owns the
    /// queue ends here, releasing — and thereby terminating — the server
    /// it owns.
    pub open spec fn terminated(self) -> bool {
        &&& self.spec_closed()
        &&& self.spec_pending().len() == 0
        &&& self.spec_in_flight() is None
    }

    /// The queue's invariant.  Ids are assigned by arrival, the service
    /// log is exactly the arrival order of the jobs served so far, the
    /// waiting jobs continue that order, and the in-flight marker names at
    /// most the job whose service began last.
    pub open spec fn wf(self) -> bool {
        &&& self.spec_capacity() >= 1
        &&& self.spec_pending().len() <= self.spec_capacity()
        &&& self.service_order().len() + self.spec_pending().len() == self.accepted_count()
        &&& forall|i: int|
            0 <= i < self.service_order().len() ==> #[trigger] self.service_order()[i] == i as u64
        &&& forall|i: int|
            0 <= i < self.spec_pending().len() ==> #[trigger] self.spec_pending()[i].job_id
                == self.service_order().len() + i
        &&& match self.spec_in_flight() {
            Some(id) => self.service_order().len() >= 1 && id as int == self.service_order().len()
                - 1,
            None => true,
        }
    }

    /// An empty queue with the given mailbox bound.
    pub fn new(capacity: usize) -> (q: JobQueue)
        requires
            capacity >= 1,
        ensures
            q.wf(),
            q.spec_capacity() == capacity,
            q.spec_pending().len() == 0,
            q.accepted_count() == 0,
            q.spec_in_flight() is None,
            !q.spec_closed(),
            q.service_order() == Seq::<u64>::empty(),
    {
        JobQueue {
            pending: VecDeque::new(),
            capacity,
            next_id: 0,
            in_flight: None,
            closed: false,
            service_log: Ghost(Seq::empty()),
        }
    }

    /// Accepts a submission into the mailbox — unless the submission side
    /// is already released, or the mailbox is at capacity, in which case
    /// nothing changes and the submitter must retry once space frees.
    /// Acceptance assigns the next id in arrival order.
    pub fn try_enqueue(&mut self, prompt: String, n_predict: u32) -> (r: EnqueueOutcome)
        requires
            old(self).wf(),
            old(self).accepted_count() < u64::MAX,
        ensures
            final(self).wf(),
            final(self).spec_capacity() == old(self).spec_capacity(),
            final(self).spec_in_flight() == old(self).spec_in_flight(),
            final(self).service_order() == old(self).service_order(),
            final(self).spec_closed() == old(self).spec_closed(),
            old(self).spec_closed() ==> r == EnqueueOutcome::Closed && *final(self) == *old(
                self,
            ),
            !old(self).spec_closed() && old(self).spec_pending().len() < old(
                self,
            ).spec_capacity() ==> {
                &&& r == EnqueueOutcome::Accepted(old(self).accepted_count() as u64)
                &&& final(self).accepted_count() == old(self).accepted_count() + 1
                &&& final(self).spec_pending() == old(self).spec_pending().push(
                    (CompletionJob {
                        job_id: old(self).accepted_count() as u64,
                        prompt,
                        n_predict,
                    }),
                )
            },
            !old(self).spec_closed() && old(self).spec_pending().len() >= old(
                self,
            ).spec_capacity() ==> r == EnqueueOutcome::MailboxFull && *final(self) == *old(self),
    {
        if self.closed {
            EnqueueOutcome::Closed
        } else if self.pending.len() < self.capacity {
            let id = self.next_id;
            self.pending.push_back(CompletionJob { job_id: id, prompt, n_predict });
            self.next_id = id + 1;
            EnqueueOutcome::Accepted(id)
        } else {
            EnqueueOutcome::MailboxFull
        }
    }

    /// Hands the worker the next job, oldest first — unless a job is
    /// already in flight, or nothing waits, in which case nothing changes.
    /// At most one job is ever in flight: a second take yields `None`
    /// until the first job is finished.
    pub fn take_next(&mut self) -> (r: Option<CompletionJob>)
        requires
            old(self).wf(),
        ensures
            final(self).wf(),
            final(self).spec_capacity() == old(self).spec_capacity(),
            final(self).accepted_count() == old(self).accepted_count(),
            final(self).spec_closed() == old(self).spec_closed(),
            old(self).spec_in_flight() is Some || old(self).spec_pending().len() == 0 ==> {
                &&& r is None
                &&& final(self).spec_pending() == old(self).spec_pending()
                &&& final(self).spec_in_flight() == old(self).spec_in_flight()
                &&& final(self).service_order() == old(self).service_order()
            },
            old(self).spec_in_flight() is None && old(self).spec_pending().len() > 0 ==> {
                &&& r == Some(old(self).spec_pending()[0])
                &&& final(self).spec_pending() == old(self).spec_pending().drop_first()
                &&& final(self).spec_in_flight() == Some(old(self).spec_pending()[0].job_id)
                &&& final(self).service_order() == old(self).service_order().push(
                    old(self).spec_pending()[0].job_id,
                )
            },
    {
        match self.in_flight {
            Some(_) => None,
            None => {
                match self.pending.pop_front() {
                    Some(job) => {
                        let id = job.job_id;
                        self.in_flight = Some(id);
                        self.service_log = Ghost(self.service_log@.push(id));
                        proof {
                            assert(final(self).spec_pending() =~= old(
                                self,
                            ).spec_pending().drop_first());
                        }
                        Some(job)
                    },
                    None => None,
                }
            },
        }
    }

    /// Marks the in-flight job finished.  `delivered` records whether the
    /// original caller still listened for the result; the queue behaves
    /// identically either way — a failed delivery is swallowed, and the
    /// worker simply moves on to the next job.
    pub fn finish_in_flight(&mut self, delivered: bool)
        requires
            old(self).wf(),
        ensures
            final(self).wf(),
            final(self).spec_in_flight() is None,
            final(self).spec_pending() == old(self).spec_pending(),
            final(self).spec_capacity() == old(self).spec_capacity(),
            final(self).accepted_count() == old(self).accepted_count(),
            final(self).service_order() == old(self).service_order(),
            final(self).spec_closed() == old(self).spec_closed(),
    {
        let _ = delivered;
        self.in_flight = None;
    }

    /// Releases the submission side: nothing further is accepted, but the
    /// jobs already accepted are still served.  Once the mailbox drains,
    /// the queue is terminated and the worker that owns it ends.
    pub fn close(&mut self)
        requires
            old(self).wf(),
        ensures
            final(self).wf(),
            final(self).spec_closed(),
            final(self).spec_pending() == old(self).spec_pending(),
            final(self).spec_capacity() == old(self).spec_capacity(),
            final(self).accepted_count() == old(self).accepted_count(),
            final(self).spec_in_flight() == old(self).spec_in_flight(),
            final(self).service_order() == old(self).service_order(),
    {
        self.closed = true;
    }

    /// Number of jobs waiting in the mailbox.
    pub fn pending_len(&self) -> (n: usize)
        ensures
            n == self.spec_pending().len(),
    {
        self.pending.len()
    }

    /// The mailbox bound.
    pub fn capacity(&self) -> (n: usize)
        ensures
            n == self.spec_capacity(),
    {
        self.capacity
    }

    /// How many jobs have been accepted so far.
    pub fn accepted(&self) -> (n: u64)
        ensures
            n == self.accepted_count(),
    {
        self.next_id
    }

    /// The id of the job currently in flight, if any.
    pub fn in_flight_id(&self) -> (r: Option<u64>)
        ensures
            r == self.spec_in_flight(),
    {
        self.in_flight
    }

    /// Whether the submission side has been released.
    pub fn is_closed(&self) -> (r: bool)
        ensures
            r == self.spec_closed(),
    {
        self.closed
    }

    /// Whether there is no more work at all: released, drained, idle.
    pub fn is_terminated(&self) -> (r: bool)
        ensures
            r == self.terminated(),
    {
        self.closed && self.pending.len() == 0 && match self.in_flight {
            Some(_) => false,
            None => true,
        }
    }
}

/// Strict FIFO, single flight.  In every reachable queue state the worker
/// has begun serving the accepted jobs in exactly their arrival order —
/// job `i` is the `i`-th served — never more than one at a time, and once
/// the mailbox is drained every accepted job has been handed over: `N`
/// accepted submissions become exactly `N` serviced requests.
pub proof fn lemma_fifo_single_flight(q: JobQueue)
    requires
        q.wf(),
    ensures
        forall|i: int| 0 <= i < q.service_order().len() ==> #[trigger] q.service_order()[i] == i as u64,
        q.service_order().len() <= q.accepted_count(),
        q.spec_pending().len() == 0 ==> q.service_order().len() == q.accepted_count(),
        match q.spec_in_flight() {
            Some(id) => q.service_order().len() >= 1 && id as int == q.service_order().len() - 1,
            None => true,
        },
{
}

} // verus!
