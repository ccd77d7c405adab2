//! The worker pool: a fixed set of workers sharing one task queue.
//!
//! The queue is the only shared structure, so the pool is modelled as a
//! state machine over it: `submit` appends to the queue while the pool is
//! open, a worker `claim`s the task at the front, and `shutdown` closes
//! the sending side and drains what is left.  The ghost history fields
//! `submitted` and `dispatched` record every task that ever entered the
//! queue and every task a worker has claimed; the well-formedness
//! invariant ties them to the queue and yields the delivery guarantees:
//! tasks are claimed in submission order, and once the queue is drained
//! every submitted task has been claimed exactly once.
//!
//! The queue is unbounded: `submit` never blocks and never reports a
//! full queue; the only submission error is `PoolClosed`.

use vstd::prelude::*;

verus! {

/// The errors the pool reports to its caller.  A fault inside a task is
/// not among them: it is contained at the worker boundary (see
/// `next_worker_state`) and surfaced as a `ReportFault` action, never
/// returned to the submitter.
#[derive(Clone, Copy, Debug, PartialEq, Eq, Structural)]
pub enum PoolError {
    /// A pool of zero workers could accept work but never run it.
    InvalidPoolSize,
    /// Submission was attempted after shutdown had begun.
    PoolClosed,
}

/// What a worker finds when it asks the queue for work.
#[derive(Debug, PartialEq, Eq)]
pub enum Claim<T> {
    /// The task at the front of the queue, now owned by this worker alone.
    Task(T),
    /// The queue is empty but still open: the worker waits.
    Empty,
    /// The queue is closed and empty: the worker terminates.
    Closed,
}

/// A pool of `size` workers sharing one first-in-first-out task queue.
///
/// `T` is the task payload: an opaque unit of deferred work.  The pool
/// never inspects it; it only hands it from the submitter to exactly one
/// worker.
#[verifier::reject_recursive_types(T)]
pub struct WorkerPool<T> {
    size: usize,
    open: bool,
    queue: Vec<T>,
    submitted: Ghost<Seq<T>>,
    dispatched: Ghost<Seq<T>>,
}

impl<T> WorkerPool<T> {
    /// The fixed worker count chosen at construction.
    pub closed spec fn spec_size(&self) -> usize {
        self.size
    }

    /// Whether the pool still accepts submissions.
    pub closed spec fn is_open(&self) -> bool {
        self.open
    }

    /// The tasks waiting in the queue, front first.
    pub closed spec fn pending(&self) -> Seq<T> {
        self.queue@
    }

    /// Every task ever accepted by `submit`, in submission order.
    pub closed spec fn submitted(&self) -> Seq<T> {
        self.submitted@
    }

    /// Every task ever handed to a worker, in claim order.
    pub closed spec fn dispatched(&self) -> Seq<T> {
        self.dispatched@
    }

    /// The pool's invariant: what was dispatched followed by what is
    /// still pending is exactly what was submitted, in order.
    pub open spec fn wf(&self) -> bool {
        &&& self.spec_size() >= 1
        &&& self.dispatched() + self.pending() == self.submitted()
    }

    /// Constructs a pool of `size` workers with an empty queue.
    /// A size of zero is rejected with `InvalidPoolSize`.
    pub fn new(size: usize) -> (r: Result<WorkerPool<T>, PoolError>)
        ensures
            size == 0 ==> (r matches Err(e) && e == PoolError::InvalidPoolSize),
            size >= 1 ==> (r matches Ok(p) && p.wf() && p.spec_size() == size && p.is_open()
                && p.submitted() == Seq::<T>::empty() && p.dispatched() == Seq::<T>::empty()
                && p.pending() == Seq::<T>::empty()),
    {
        if size == 0 {
            Err(PoolError::InvalidPoolSize)
        } else {
            let p = WorkerPool {
                size,
                open: true,
                queue: Vec::new(),
                submitted: Ghost(Seq::empty()),
                dispatched: Ghost(Seq::empty()),
            };
            proof {
                assert(p.dispatched() + p.pending() =~= p.submitted());
            }
            Ok(p)
        }
    }

    /// Enqueues one task.  While the pool is open the task is appended
    /// to the back of the queue; after shutdown has begun the call fails
    /// with `PoolClosed` and the pool is left exactly as it was.
    pub fn submit(&mut self, task: T) -> (r: Result<(), PoolError>)
        requires
            old(self).wf(),
        ensures
            final(self).wf(),
            final(self).spec_size() == old(self).spec_size(),
            final(self).is_open() == old(self).is_open(),
            final(self).dispatched() == old(self).dispatched(),
            old(self).is_open() ==> (r is Ok
                && final(self).pending() == old(self).pending().push(task)
                && final(self).submitted() == old(self).submitted().push(task)),
            !old(self).is_open() ==> (r == Err::<(), PoolError>(PoolError::PoolClosed)
                && final(self).pending() == old(self).pending()
                && final(self).submitted() == old(self).submitted()),
    {
        if !self.open {
            return Err(PoolError::PoolClosed);
        }
        self.queue.push(task);
        proof {
            self.submitted@ = self.submitted@.push(task);
            assert(self.dispatched() + self.pending() =~= self.submitted());
        }
        Ok(())
    }

    /// Begins shutdown: the sending side is closed, so no further
    /// submission succeeds.  Nothing already queued is touched.
    pub fn close(&mut self)
        requires
            old(self).wf(),
        ensures
            final(self).wf(),
            !final(self).is_open(),
            final(self).spec_size() == old(self).spec_size(),
            final(self).pending() == old(self).pending(),
            final(self).submitted() == old(self).submitted(),
            final(self).dispatched() == old(self).dispatched(),
    {
        self.open = false;
    }

    /// A worker asks for work.  The task at the front of the queue, if
    /// any, is removed and returned: it is now owned by this worker and
    /// no other worker will ever see it.  An empty queue tells the
    /// worker to wait while the pool is open and to terminate once it
    /// is closed.
    pub fn claim(&mut self) -> (r: Claim<T>)
        requires
            old(self).wf(),
        ensures
            final(self).wf(),
            final(self).spec_size() == old(self).spec_size(),
            final(self).is_open() == old(self).is_open(),
            final(self).submitted() == old(self).submitted(),
            old(self).pending().len() > 0 ==> (r == Claim::Task(old(self).pending().first())
                && final(self).pending() == old(self).pending().drop_first()
                && final(self).dispatched()
                    == old(self).dispatched().push(old(self).pending().first())),
            old(self).pending().len() == 0 ==> (final(self).pending() == old(self).pending()
                && final(self).dispatched() == old(self).dispatched()),
            old(self).pending().len() == 0 && old(self).is_open() ==> r == Claim::<T>::Empty,
            old(self).pending().len() == 0 && !old(self).is_open() ==> r == Claim::<T>::Closed,
    {
        if self.queue.len() > 0 {
            let t = self.queue.remove(0);
            proof {
                self.dispatched@ = self.dispatched@.push(t);
                assert(old(self).pending().remove(0) =~= old(self).pending().drop_first());
                assert(self.dispatched() + self.pending() =~= self.submitted());
            }
            Claim::Task(t)
        } else if self.open {
            Claim::Empty
        } else {
            Claim::Closed
        }
    }

    /// Claims every remaining task, front to back, and returns them in
    /// that order; afterwards the queue is empty.  This is what the
    /// workers jointly do between shutdown and termination.
    pub fn drain(&mut self) -> (r: Vec<T>)
        requires
            old(self).wf(),
        ensures
            final(self).wf(),
            final(self).spec_size() == old(self).spec_size(),
            final(self).is_open() == old(self).is_open(),
            final(self).submitted() == old(self).submitted(),
            r@ == old(self).pending(),
            final(self).pending().len() == 0,
            final(self).dispatched() == old(self).dispatched() + old(self).pending(),
    {
        let mut out: Vec<T> = Vec::new();
        proof {
            assert(self.dispatched() + out@ =~= self.dispatched());
            assert(out@ + self.pending() =~= self.pending());
        }
        loop
            invariant
                self.wf(),
                self.spec_size() == old(self).spec_size(),
                self.is_open() == old(self).is_open(),
                self.submitted() == old(self).submitted(),
                out@ + self.pending() == old(self).pending(),
                self.dispatched() == old(self).dispatched() + out@,
            ensures
                self.pending().len() == 0,
            decreases self.pending().len(),
        {
            if self.queue.len() == 0 {
                break;
            }
            match self.claim() {
                Claim::Task(t) => {
                    out.push(t);
                    proof {
                        assert(out@ + self.pending() =~= old(self).pending());
                        assert(old(self).dispatched() + out@ =~= self.dispatched());
                    }
                },
                _ => {
                    break;
                },
            }
        }
        proof {
            assert(out@ + self.pending() =~= out@);
        }
        out
    }

    /// Graceful shutdown: closes the queue, then drains it.  At return
    /// no task is pending and every submitted task has been dispatched;
    /// the tasks claimed during the drain are returned in claim order.
    pub fn shutdown(&mut self) -> (r: Vec<T>)
        requires
            old(self).wf(),
        ensures
            final(self).wf(),
            !final(self).is_open(),
            final(self).spec_size() == old(self).spec_size(),
            final(self).submitted() == old(self).submitted(),
            r@ == old(self).pending(),
            final(self).pending().len() == 0,
            final(self).dispatched() == old(self).dispatched() + old(self).pending(),
            final(self).dispatched() == final(self).submitted(),
    {
        self.close();
        let out = self.drain();
        proof {
            assert(self.dispatched() + self.pending() =~= self.dispatched());
        }
        out
    }
}

/// One worker's states, as visible from outside.
#[derive(Clone, Copy, Debug, PartialEq, Eq, Structural)]
pub enum WorkerState {
    /// Blocked, waiting for a task.
    Idle,
    /// Executing a claimed task.
    Running,
    /// Exited its loop; only reached once the queue is closed and empty.
    Terminated,
}

/// What a worker just observed: the outcome of asking the queue for
/// work, or the end of a task's execution.
#[derive(Clone, Copy, Debug, PartialEq, Eq, Structural)]
pub enum WorkerEvent {
    /// `claim` handed this worker a task.
    TaskClaimed,
    /// `claim` found the queue empty but the pool still open.
    QueueEmpty,
    /// `claim` found the queue closed and empty.
    QueueClosedEmpty,
    /// The claimed task's execution returned; `faulted` says whether it
    /// raised an internal fault on the way.
    TaskFinished { faulted: bool },
}

/// What the runtime around a worker must do after a step.
#[derive(Clone, Copy, Debug, PartialEq, Eq, Structural)]
pub enum WorkerAction {
    /// Execute the claimed task.
    RunTask,
    /// Block until the queue has something to offer.
    Wait,
    /// Surface the task's fault to the observability collaborator, then
    /// go on to the next task.
    ReportFault,
    /// Leave the worker loop; the pool may now join this worker.
    Exit,
}

/// The worker loop's transition relation: the next state.
pub open spec fn next_worker_state(s: WorkerState, e: WorkerEvent) -> WorkerState {
    match (s, e) {
        (WorkerState::Idle, WorkerEvent::TaskClaimed) => WorkerState::Running,
        (WorkerState::Idle, WorkerEvent::QueueClosedEmpty) => WorkerState::Terminated,
        (WorkerState::Idle, WorkerEvent::QueueEmpty) => WorkerState::Idle,
        (WorkerState::Running, WorkerEvent::TaskFinished { faulted }) => WorkerState::Idle,
        (_, _) => s,
    }
}

/// The worker loop's transition relation: the action the runtime takes.
pub open spec fn next_worker_action(s: WorkerState, e: WorkerEvent) -> WorkerAction {
    match (s, e) {
        (WorkerState::Idle, WorkerEvent::TaskClaimed) => WorkerAction::RunTask,
        (WorkerState::Idle, WorkerEvent::QueueClosedEmpty) => WorkerAction::Exit,
        (WorkerState::Running, WorkerEvent::TaskFinished { faulted }) => if faulted {
            WorkerAction::ReportFault
        } else {
            WorkerAction::Wait
        },
        (_, _) => WorkerAction::Wait,
    }
}

/// One step of a worker's loop: from its state and what it observed to
/// its next state and what the runtime does next.
pub fn worker_step(s: WorkerState, e: WorkerEvent) -> (r: (WorkerState, WorkerAction))
    ensures
        r.0 == next_worker_state(s, e),
        r.1 == next_worker_action(s, e),
{
    match (s, e) {
        (WorkerState::Idle, WorkerEvent::TaskClaimed) => (
            WorkerState::Running,
            WorkerAction::RunTask,
        ),
        (WorkerState::Idle, WorkerEvent::QueueClosedEmpty) => (
            WorkerState::Terminated,
            WorkerAction::Exit,
        ),
        (WorkerState::Idle, WorkerEvent::QueueEmpty) => (WorkerState::Idle, WorkerAction::Wait),
        (WorkerState::Running, WorkerEvent::TaskFinished { faulted }) => (
            WorkerState::Idle,
            if faulted {
                WorkerAction::ReportFault
            } else {
                WorkerAction::Wait
            },
        ),
        (_, _) => (s, WorkerAction::Wait),
    }
}

/// A task's fault is contained at the worker boundary: whether or not
/// the task faulted, the worker returns to `Idle` and is ready for the
/// next task; a fault is surfaced as `ReportFault`, never by killing
/// the worker.  Together with the pool operations keeping `spec_size`
/// unchanged, the pool stays fully staffed after a fault.
pub proof fn lemma_fault_isolated(faulted: bool)
    ensures
        next_worker_state(WorkerState::Running, WorkerEvent::TaskFinished { faulted })
            == WorkerState::Idle,
        next_worker_action(WorkerState::Running, WorkerEvent::TaskFinished { faulted })
            == if faulted {
            WorkerAction::ReportFault
        } else {
            WorkerAction::Wait
        },
{
}

/// A worker terminates only by observing the queue closed and empty:
/// no event that follows a task's execution, faulting or not, ever
/// moves a worker to `Terminated`.
pub proof fn lemma_termination_only_on_shutdown(s: WorkerState, e: WorkerEvent)
    requires
        s != WorkerState::Terminated,
        next_worker_state(s, e) == WorkerState::Terminated,
    ensures
        s == WorkerState::Idle,
        e == WorkerEvent::QueueClosedEmpty,
{
}

/// Every task is dispatched exactly once.  Once the queue is drained,
/// the dispatch history equals the submission history: no submitted task
/// was lost and none was handed to a worker twice.
pub proof fn lemma_exactly_once_delivery<T>(p: WorkerPool<T>)
    requires
        p.wf(),
        p.pending().len() == 0,
    ensures
        p.dispatched() == p.submitted(),
        p.dispatched().to_multiset() == p.submitted().to_multiset(),
{
    assert(p.dispatched() + p.pending() =~= p.dispatched());
}

/// Claims are first-in-first-out.  At every reachable state the dispatch
/// history is a prefix of the submission history, so a task submitted
/// earlier is always claimed before one submitted later.
pub proof fn lemma_fifo_dispatch<T>(p: WorkerPool<T>)
    requires
        p.wf(),
    ensures
        p.dispatched().len() <= p.submitted().len(),
        p.dispatched() == p.submitted().take(p.dispatched().len() as int),
        forall|k: int|
            0 <= k < p.dispatched().len() ==> p.dispatched()[k] == p.submitted()[k],
{
    assert(p.dispatched() =~= p.submitted().take(p.dispatched().len() as int));
}

} // verus!
