//! The verified pool: workers, construction, submission, shutdown.
//!
//! The pool cannot start an operating-system thread itself, so construction
//! hands back one [`WorkerContext`] per worker beside the pool; the caller
//! puts each context onto an execution context of its own (a thread) and the
//! context runs the receive-execute loop to completion. The pool keeps, per
//! worker, the waiting half of that worker's exit channel, which stands in
//! for the join handle: `shutdown` blocks on it until the worker is gone.

use vstd::prelude::*;

use crate::channel::{
    new_channel, new_exit_channel, ExitHandle, ExitNotice, Job, Message, SharedReceiver,
    WorkSender,
};
use crate::PoolError;

verus! {

/// The pool-side record of one worker: its identifier and the one-shot
/// handle used to wait for the worker's exit. The handle is consumed exactly
/// once, by `join`, which takes the whole record by value.
pub(crate) struct Worker {
    id: usize,
    exited: ExitHandle,
}

/// The worker-side half: the identifier, shared read access to the work
/// channel, and the notice given exactly once when the loop ends. It is what
/// the caller puts onto a thread of its own, stepping it until it stops.
///
/// A worker is a three-state machine. It is idle while `step` waits on the
/// channel, running while `step` executes a dequeued job, and terminated —
/// finally, with no way back — once `step` has returned `None`; `step`
/// consumes the context, so a terminated worker cannot be stepped again.
pub struct WorkerContext {
    id: usize,
    receiver: SharedReceiver,
    exit: ExitNotice,
}

/// What one dequeued message (or the closing of the channel) means for a
/// worker's loop: run this job and keep going, or stop.
enum LoopVerdict {
    Run(Job),
    Stop,
}

/// The worker's decision rule, pinned down for every event the channel can
/// hand back: a `NewJob` message means running exactly that job and staying
/// in the loop; a `Terminate` message, or a closed channel (`None`), means
/// stopping.
fn decide(message: Option<Message>) -> (r: LoopVerdict)
    ensures
        match message {
            Some(m) => match m {
                Message::NewJob(j) => r matches LoopVerdict::Run(job) && job == j,
                Message::Terminate => r is Stop,
            },
            None => r is Stop,
        },
{
    match message {
        Some(m) => match m {
            Message::NewJob(job) => LoopVerdict::Run(job),
            Message::Terminate => LoopVerdict::Stop,
        },
        None => LoopVerdict::Stop,
    }
}

impl WorkerContext {
    /// The identifier of the worker this context belongs to.
    pub closed spec fn spec_id(&self) -> usize {
        self.id
    }

    /// The worker's identifier.
    pub fn id(&self) -> (r: usize)
        ensures
            r == self.spec_id(),
    {
        self.id
    }

    /// One turn of the receive-execute loop: block until one message can be
    /// dequeued (releasing the channel's guard before any job runs), then
    /// follow the decision rule. After a `NewJob`, the job has been run to
    /// completion and the context comes back, unchanged, to be stepped again.
    /// At `Terminate`, or when the channel is closed because every sending
    /// half is gone, the context gives its exit notice — exactly once, since
    /// the notice and the context are both consumed — and returns `None`:
    /// the worker is terminated and never steps again.
    ///
    /// The loop itself — step until `None` — is run by whoever owns the
    /// worker's execution context; it cannot stand here, where every loop
    /// must provably terminate, and waiting for work does not.
    pub fn step(self) -> (r: Option<WorkerContext>)
        ensures
            r matches Some(c) ==> c == self,
    {
        let WorkerContext { id, receiver, exit } = self;
        let message = receiver.recv();
        match decide(message) {
            LoopVerdict::Run(job) => {
                job.run();
                Some(WorkerContext { id, receiver, exit })
            },
            LoopVerdict::Stop => {
                exit.notify();
                None
            },
        }
    }
}

impl Worker {
    /// The identifier given at construction.
    pub closed spec fn spec_id(&self) -> usize {
        self.id
    }

    /// Makes one worker: the pool-side record and the context that will run
    /// its loop, tied together by a fresh exit channel.
    pub(crate) fn new(id: usize, receiver: SharedReceiver) -> (r: (Worker, WorkerContext))
        ensures
            r.0.spec_id() == id,
            r.1.spec_id() == id,
    {
        let (exit, exited) = new_exit_channel();
        (Worker { id, exited }, WorkerContext { id, receiver, exit })
    }

    /// The worker's identifier.
    pub fn id(&self) -> (r: usize)
        ensures
            r == self.spec_id(),
    {
        self.id
    }

    /// Blocks until the worker's execution context has fully exited — its
    /// loop ended at `Terminate`, or a failed job tore the context down —
    /// and reports the worker's identifier. Consumes the record, so no
    /// worker is ever joined twice.
    fn join(self) -> (r: usize)
        ensures
            r == self.spec_id(),
    {
        let Worker { id, exited } = self;
        exited.wait();
        id
    }
}

/// The orchestrator: owns the sending half of the work channel and the whole
/// worker set (no other component holds a `Worker`).
pub struct ThreadPool {
    workers: Vec<Worker>,
    sender: WorkSender,
}

impl ThreadPool {
    /// How many workers the pool owns.
    pub closed spec fn spec_size(&self) -> nat {
        self.workers@.len()
    }

    /// The workers' identifiers, in construction order.
    pub closed spec fn spec_worker_ids(&self) -> Seq<usize> {
        self.workers@.map(|i: int, w: Worker| w.spec_id())
    }

    /// Well-formed: the worker at position `i` carries identifier `i`.
    pub closed spec fn wf(&self) -> bool {
        forall|i: int|
            0 <= i < self.workers@.len() ==> (#[trigger] self.workers@[i]).spec_id() as int == i
    }

    /// Creates the pool: rejects a worker count below one with
    /// `ConfigurationError`, creating neither a channel nor a worker;
    /// otherwise creates the work channel and exactly `size` workers with
    /// identifiers `0..size-1`, in that order. Each worker's loop comes back
    /// as a [`WorkerContext`] in the same order; the caller starts them.
    pub fn new(size: usize) -> (r: Result<(ThreadPool, Vec<WorkerContext>), PoolError>)
        ensures
            match r {
                Ok(made) => {
                    &&& size >= 1
                    &&& made.0.wf()
                    &&& made.0.spec_size() == size
                    &&& made.1@.len() == size
                    &&& forall|i: int| 0 <= i < size ==> (#[trigger] made.1@[i]).spec_id() as int == i
                },
                Err(e) => size < 1 && e == PoolError::ConfigurationError,
            },
    {
        if size < 1 {
            return Err(PoolError::ConfigurationError);
        }
        let (sender, receiver) = new_channel();
        let mut workers: Vec<Worker> = Vec::new();
        let mut contexts: Vec<WorkerContext> = Vec::new();
        let mut id: usize = 0;
        while id < size
            invariant
                id <= size,
                workers@.len() == id,
                contexts@.len() == id,
                forall|i: int| 0 <= i < id ==> (#[trigger] workers@[i]).spec_id() as int == i,
                forall|i: int| 0 <= i < id ==> (#[trigger] contexts@[i]).spec_id() as int == i,
            decreases size - id,
        {
            let (worker, context) = Worker::new(id, receiver.share());
            workers.push(worker);
            contexts.push(context);
            id = id + 1;
        }
        Ok((ThreadPool { workers, sender }, contexts))
    }

    /// The workers' identifiers, in construction order.
    pub fn worker_ids(&self) -> (ids: Vec<usize>)
        ensures
            ids@ == self.spec_worker_ids(),
    {
        let mut ids: Vec<usize> = Vec::new();
        let mut i: usize = 0;
        while i < self.workers.len()
            invariant
                i <= self.workers@.len(),
                ids@.len() == i,
                forall|k: int| 0 <= k < i ==> ids@[k] == self.spec_worker_ids()[k],
            decreases self.workers@.len() - i,
        {
            ids.push(self.workers[i].id());
            i = i + 1;
        }
        proof {
            assert(ids@ =~= self.spec_worker_ids());
        }
        ids
    }

    /// Enqueues one job as a `NewJob` message and returns as soon as the
    /// channel has accepted it, never waiting for a worker to become free.
    /// The only possible failure is `DispatchError`, reported exactly when
    /// the channel refused the message because no receiver is alive any more
    /// (every worker has exited).
    pub fn execute<F: FnOnce() + Send + 'static>(&self, f: F) -> (r: Result<(), PoolError>)
        requires
            f.requires(()),
        ensures
            r matches Err(e) ==> e == PoolError::DispatchError,
    {
        let job = Job::new(f);
        let outcome = self.sender.send(Message::NewJob(job));
        dispatch_outcome(outcome)
    }

    /// The first half of the shutdown protocol: hands exactly one
    /// `Terminate` message to the channel per worker, touching nothing else.
    /// Jobs already queued stay ahead of the terminate markers, so every job
    /// submitted before shutdown began is still delivered to some worker.
    pub fn send_terminates(&self) -> (n: usize)
        ensures
            n == self.spec_size(),
    {
        let total = self.workers.len();
        let mut sent: usize = 0;
        while sent < total
            invariant
                sent <= total,
            decreases total - sent,
        {
            let _ = self.sender.send(Message::Terminate);
            sent = sent + 1;
        }
        sent
    }

    /// The second half of the shutdown protocol: joins every worker, in
    /// construction order, consuming each worker's one-shot exit handle
    /// exactly once; it returns only after all workers have fully exited.
    /// The result lists the joined workers' identifiers in join order, and
    /// the pool is left with no workers.
    pub fn join_all(&mut self) -> (joined: Vec<usize>)
        ensures
            final(self).spec_size() == 0,
            final(self).wf(),
            joined@.len() == old(self).spec_size(),
            forall|i: int| 0 <= i < joined@.len() ==> joined@[i] == old(self).spec_worker_ids()[i],
    {
        let ghost n = self.workers@.len();
        let mut joined: Vec<usize> = Vec::new();
        while self.workers.len() > 0
            invariant
                joined@.len() + self.workers@.len() == n,
                n == old(self).workers@.len(),
                self.workers@ == old(self).workers@.subrange(joined@.len() as int, n as int),
                forall|i: int|
                    0 <= i < joined@.len() ==> joined@[i] == old(self).spec_worker_ids()[i],
            decreases self.workers@.len(),
        {
            let worker = self.workers.remove(0);
            let reported = worker.join();
            joined.push(reported);
        }
        joined
    }

    /// The orderly, blocking shutdown: exactly one `Terminate` message per
    /// worker is handed to the channel, then every worker is joined in
    /// construction order, each exit handle consumed exactly once; the call
    /// returns only after all workers have exited. The result is the number
    /// of `Terminate` messages sent together with the joined workers'
    /// identifiers, in join order — for a well-formed pool, `0..size-1`. The
    /// pool is left empty: a second shutdown sends nothing and joins nobody.
    pub fn shutdown(&mut self) -> (r: (usize, Vec<usize>))
        requires
            old(self).wf(),
        ensures
            final(self).wf(),
            final(self).spec_size() == 0,
            r.0 == old(self).spec_size(),
            r.1@.len() == old(self).spec_size(),
            forall|i: int| 0 <= i < r.1@.len() ==> r.1@[i] == old(self).spec_worker_ids()[i],
            forall|i: int| 0 <= i < r.1@.len() ==> r.1@[i] as int == i,
    {
        let sent = self.send_terminates();
        let joined = self.join_all();
        (sent, joined)
    }
}

/// What a submission returns for each verdict of the channel: success exactly
/// when the channel accepted the message, and `DispatchError` (never any
/// other error) when the channel gave the message back.
fn dispatch_outcome(sent: Result<(), Message>) -> (r: Result<(), PoolError>)
    ensures
        r is Ok <==> sent is Ok,
        sent is Err ==> r == Result::<(), PoolError>::Err(PoolError::DispatchError),
{
    match sent {
        Ok(()) => Ok(()),
        Err(_) => Err(PoolError::DispatchError),
    }
}

/// Law: in a well-formed pool the worker identifiers are exactly
/// `0..size-1`, in construction order, and therefore pairwise distinct.
pub proof fn lemma_worker_ids_sequential_and_distinct(pool: &ThreadPool)
    requires
        pool.wf(),
    ensures
        pool.spec_worker_ids().len() == pool.spec_size(),
        forall|i: int| 0 <= i < pool.spec_size() ==> pool.spec_worker_ids()[i] as int == i,
        forall|i: int, j: int|
            0 <= i < pool.spec_size() && 0 <= j < pool.spec_size() && i != j
                ==> pool.spec_worker_ids()[i] != pool.spec_worker_ids()[j],
{
}

} // verus!
