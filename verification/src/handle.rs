use vstd::prelude::*;
use crate::errors::LlmError;
use crate::queue::CompletionJob;
use crate::queue::EnqueueOutcome;
use crate::queue::JobQueue;

verus! {

/// The process-wide access point to the one job queue.  It is created once
/// at process startup and passed by reference to every caller; the
/// submission side is published into it exactly once, when the startup
/// protocol reaches `Ready`.  Before that, every use reports the
/// uninitialized error.
pub struct QueueHandle {
    queue: Option<JobQueue>,
}

impl QueueHandle {
    /// The submission side has been published.
    pub closed spec fn initialized(self) -> bool {
        self.queue is Some
    }

    /// The published queue, once there is one.
    pub closed spec fn spec_queue(self) -> Option<JobQueue> {
        self.queue
    }

    /// The handle's invariant: whatever is published is a well-formed
    /// queue.
    pub open spec fn wf(self) -> bool {
        match self.spec_queue() {
            Some(q) => q.wf(),
            None => true,
        }
    }

    /// A handle with nothing published yet.
    pub fn new() -> (h: QueueHandle)
        ensures
            !h.initialized(),
            h.spec_queue() is None,
            h.wf(),
    {
        QueueHandle { queue: None }
    }

    /// Publishes a fresh queue with the given mailbox bound.  This must
    /// run exactly once per process lifetime, after the startup protocol
    /// reached `Ready`; a second publication is a programming error, which
    /// this contract rules out — a caller that cannot uphold it must fail
    /// loudly rather than call again.
    pub fn publish(&mut self, capacity: usize)
        requires
            !old(self).initialized(),
            capacity >= 1,
        ensures
            final(self).initialized(),
            final(self).wf(),
            match final(self).spec_queue() {
                Some(q) => {
                    &&& q.spec_capacity() == capacity
                    &&& q.spec_pending().len() == 0
                    &&& q.accepted_count() == 0
                    &&& q.spec_in_flight() is None
                    &&& !q.spec_closed()
                    &&& q.service_order() == Seq::<u64>::empty()
                },
                None => false,
            },
    {
        self.queue = Some(JobQueue::new(capacity));
    }

    /// Whether the submission side has been published.
    pub fn is_initialized(&self) -> (r: bool)
        ensures
            r == self.initialized(),
    {
        match &self.queue {
            Some(_) => true,
            None => false,
        }
    }

    /// The published queue, or the uninitialized error while `publish` has
    /// not happened — indefinitely so when startup failed, since a failed
    /// startup never publishes.
    pub fn get(&self) -> (r: Result<&JobQueue, LlmError>)
        ensures
            self.initialized() ==> (r matches Ok(q) && Some(*q) == self.spec_queue()),
            !self.initialized() ==> (r matches Err(e) && e == LlmError::QueueUninitialized),
    {
        match &self.queue {
            Some(q) => Ok(q),
            None => Err(LlmError::QueueUninitialized),
        }
    }

    /// Mutable access to the published queue for the worker, or the
    /// uninitialized error.
    pub fn get_mut(&mut self) -> (r: Result<&mut JobQueue, LlmError>)
        ensures
            old(self).initialized() ==> (r matches Ok(q) && Some(*q) == old(self).spec_queue()
                && final(self).spec_queue() == Some(*final(q))),
            !old(self).initialized() ==> (r matches Err(e) && e == LlmError::QueueUninitialized
                && *final(self) == *old(self)),
    {
        match &mut self.queue {
            Some(q) => Ok(q),
            None => Err(LlmError::QueueUninitialized),
        }
    }

    /// Submits one prompt with its output-token budget: reports the
    /// uninitialized error while nothing is published, and otherwise hands
    /// the submission to the mailbox exactly as the queue's `try_enqueue`
    /// does.
    pub fn enqueue(&mut self, prompt: String, n_predict: u32) -> (r: Result<
        EnqueueOutcome,
        LlmError,
    >)
        requires
            old(self).wf(),
            match old(self).spec_queue() {
                Some(q) => q.accepted_count() < u64::MAX,
                None => true,
            },
        ensures
            final(self).wf(),
            !old(self).initialized() ==> (r matches Err(e) && e == LlmError::QueueUninitialized
                && *final(self) == *old(self)),
            old(self).initialized() ==> final(self).initialized() && match (
                old(self).spec_queue(),
                final(self).spec_queue(),
            ) {
                (Some(q0), Some(q1)) => {
                    &&& q1.spec_capacity() == q0.spec_capacity()
                    &&& q1.spec_in_flight() == q0.spec_in_flight()
                    &&& q1.service_order() == q0.service_order()
                    &&& q1.spec_closed() == q0.spec_closed()
                    &&& q0.spec_closed() ==> (r matches Err(e) && e == LlmError::ChannelClosed
                        && q1 == q0)
                    &&& !q0.spec_closed() && q0.spec_pending().len() < q0.spec_capacity() ==> {
                        &&& r == Result::<EnqueueOutcome, LlmError>::Ok(
                            EnqueueOutcome::Accepted(q0.accepted_count() as u64),
                        )
                        &&& q1.accepted_count() == q0.accepted_count() + 1
                        &&& q1.spec_pending() == q0.spec_pending().push(
                            (CompletionJob {
                                job_id: q0.accepted_count() as u64,
                                prompt,
                                n_predict,
                            }),
                        )
                    }
                    &&& !q0.spec_closed() && q0.spec_pending().len() >= q0.spec_capacity() ==> {
                        &&& r == Result::<EnqueueOutcome, LlmError>::Ok(
                            EnqueueOutcome::MailboxFull,
                        )
                        &&& q1 == q0
                    }
                },
                _ => false,
            },
    {
        match &mut self.queue {
            Some(q) => {
                match q.try_enqueue(prompt, n_predict) {
                    EnqueueOutcome::Closed => Err(LlmError::ChannelClosed),
                    outcome => Ok(outcome),
                }
            },
            None => Err(LlmError::QueueUninitialized),
        }
    }
}

} // verus!
