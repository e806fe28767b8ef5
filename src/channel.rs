use std::collections::VecDeque;
use vstd::prelude::*;

use crate::error::PoolError;
use crate::message::{terminate_messages, work_messages, Message};

verus! {

/// The abstract state of a pool's control channel.
///
/// `submitted` is every task accepted so far, `delivered` how many messages
/// workers have pulled off the channel, `workers` the fixed worker count and
/// `closed` whether shutdown has begun.
pub ghost struct PoolView<T> {
    pub submitted: Seq<T>,
    pub delivered: nat,
    pub workers: nat,
    pub closed: bool,
}

impl<T> PoolView<T> {
    /// Every message ever placed on the channel, in order: one `Work` per
    /// accepted task, followed, once shutdown has begun, by one `Terminate`
    /// per worker.
    pub open spec fn sent(self) -> Seq<Message<T>> {
        work_messages(self.submitted) + if self.closed {
            terminate_messages(self.workers)
        } else {
            Seq::empty()
        }
    }

    /// The messages already pulled off the channel by workers, in order.
    pub open spec fn handed_out(self) -> Seq<Message<T>> {
        self.sent().take(self.delivered as int)
    }

    /// The messages still waiting on the channel, front first.
    pub open spec fn pending(self) -> Seq<Message<T>> {
        self.sent().skip(self.delivered as int)
    }

    /// How many workers have been handed their stop signal.
    pub open spec fn stopped(self) -> nat {
        if self.delivered > self.submitted.len() {
            (self.delivered - self.submitted.len()) as nat
        } else {
            0
        }
    }

    pub open spec fn wf(self) -> bool {
        &&& self.workers >= 1
        &&& self.delivered <= self.sent().len()
    }

    /// The state right after a fresh pool of `workers` workers is built.
    pub open spec fn initial(workers: nat) -> Self {
        PoolView { submitted: Seq::empty(), delivered: 0, workers, closed: false }
    }

    /// The state after `task` is accepted.
    pub open spec fn accept(self, task: T) -> Self {
        PoolView { submitted: self.submitted.push(task), ..self }
    }

    /// The state after shutdown is requested.
    pub open spec fn close(self) -> Self {
        PoolView { closed: true, ..self }
    }

    /// The state after a worker pulls the front message.
    pub open spec fn advance(self) -> Self {
        PoolView { delivered: self.delivered + 1, ..self }
    }
}

/// What a worker gets when it asks the channel for its next message.
pub enum Delivery<T> {
    /// The front message, now removed from the channel.
    Received(Message<T>),
    /// Nothing is queued yet; the worker should wait for more.
    Empty,
    /// Shutdown has begun and every message is gone: nothing will ever come.
    Drained,
}

/// The coordination state shared by a pool and its workers: the queue of
/// undelivered messages, the worker count and whether shutdown has begun.
pub struct PoolCore<T> {
    queue: VecDeque<Message<T>>,
    workers: usize,
    closed: bool,
    submitted: Ghost<Seq<T>>,
    delivered: Ghost<nat>,
}

impl<T> View for PoolCore<T> {
    type V = PoolView<T>;

    closed spec fn view(&self) -> PoolView<T> {
        PoolView {
            submitted: self.submitted@,
            delivered: self.delivered@,
            workers: self.workers as nat,
            closed: self.closed,
        }
    }
}

impl<T> PoolCore<T> {
    /// The queue holds exactly the messages not yet delivered.
    pub closed spec fn inv(&self) -> bool {
        &&& self@.wf()
        &&& self.queue@ == self@.pending()
    }

    /// Builds the state of a pool of `count` workers; zero workers is refused.
    pub fn new(count: usize) -> (r: Result<PoolCore<T>, PoolError>)
        ensures
            count == 0 <==> r is Err,
            r is Err ==> r == Err::<PoolCore<T>, PoolError>(PoolError::InvalidConfiguration),
            r matches Ok(core) ==> core@ == PoolView::<T>::initial(count as nat) && core.inv(),
    {
        if count == 0 {
            return Err(PoolError::InvalidConfiguration);
        }
        let core = PoolCore {
            queue: VecDeque::new(),
            workers: count,
            closed: false,
            submitted: Ghost(Seq::empty()),
            delivered: Ghost(0),
        };
        proof {
            assert(core@.pending() =~= Seq::<Message<T>>::empty());
        }
        Ok(core)
    }

    /// The fixed number of workers.
    pub fn worker_count(&self) -> (r: usize)
        ensures
            r as nat == self@.workers,
    {
        self.workers
    }

    /// Whether shutdown has begun.
    pub fn is_closed(&self) -> (r: bool)
        ensures
            r == self@.closed,
    {
        self.closed
    }

    /// Every state that satisfies the invariant is well formed.
    pub proof fn lemma_inv_wf(&self)
        requires
            self.inv(),
        ensures
            self@.wf(),
    {
    }

    /// Enqueues `task` as a `Work` message, unless shutdown has begun, in
    /// which case the task is refused and dropped unrun.
    pub fn submit(&mut self, task: T) -> (r: Result<(), PoolError>)
        requires
            old(self).inv(),
        ensures
            final(self).inv(),
            old(self)@.closed ==> r == Err::<(), PoolError>(PoolError::PoolClosed)
                && final(self)@ == old(self)@,
            !old(self)@.closed ==> r == Ok::<(), PoolError>(()) && final(self)@ == old(
                self,
            )@.accept(task),
    {
        if self.closed {
            return Err(PoolError::PoolClosed);
        }
        let ghost before = self@;
        let ghost t = task;
        self.submitted = Ghost(self.submitted@.push(task));
        self.queue.push_back(Message::Work(task));
        proof {
            let after = self@;
            assert(work_messages(after.submitted) =~= work_messages(before.submitted).push(
                Message::Work(t),
            ));
            assert(after.sent() =~= before.sent().push(Message::Work(t)));
            assert(after.pending() =~= before.pending().push(Message::Work(t)));
        }
        Ok(())
    }

    /// Begins shutdown: the first call appends one `Terminate` per worker
    /// behind every queued task and returns `true`; any later call changes
    /// nothing and returns `false`.
    pub fn shutdown(&mut self) -> (first: bool)
        requires
            old(self).inv(),
        ensures
            final(self).inv(),
            first == !old(self)@.closed,
            final(self)@ == old(self)@.close(),
    {
        if self.closed {
            return false;
        }
        let ghost before = self@;
        let ghost queued = self.queue@;
        self.closed = true;
        let mut i: usize = 0;
        while i < self.workers
            invariant
                0 <= i <= self.workers,
                self.closed,
                self@ == before.close(),
                !before.closed,
                before.wf(),
                queued == before.pending(),
                self.queue@ == queued + terminate_messages::<T>(i as nat),
            decreases self.workers - i,
        {
            self.queue.push_back(Message::Terminate);
            i = i + 1;
            proof {
                assert(self.queue@ =~= queued + terminate_messages::<T>(i as nat));
            }
        }
        proof {
            let after = self@;
            assert(before.sent() =~= work_messages(before.submitted));
            assert(after.sent() =~= before.sent() + terminate_messages::<T>(before.workers));
            assert(after.pending() =~= before.pending() + terminate_messages::<T>(before.workers));
        }
        true
    }

    /// Pulls the front message off the channel, if there is one. Each
    /// message is handed out once, in the order it was sent.
    pub fn take(&mut self) -> (r: Delivery<T>)
        requires
            old(self).inv(),
        ensures
            final(self).inv(),
            old(self)@.pending().len() > 0 ==> r == Delivery::Received(old(self)@.pending()[0])
                && final(self)@ == old(self)@.advance(),
            old(self)@.pending().len() == 0 ==> final(self)@ == old(self)@ && (if old(
                self,
            )@.closed {
                r is Drained
            } else {
                r is Empty
            }),
    {
        match self.queue.pop_front() {
            Some(m) => {
                let ghost before = self@;
                self.delivered = Ghost(self.delivered@ + 1);
                proof {
                    assert(self@.pending() =~= before.pending().drop_first());
                }
                Delivery::Received(m)
            },
            None => {
                if self.closed {
                    Delivery::Drained
                } else {
                    Delivery::Empty
                }
            },
        }
    }
}

} // verus!
