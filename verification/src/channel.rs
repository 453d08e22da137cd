//! The work channel and the opaque job value.
//!
//! Everything here is the trusted boundary around `std::sync::mpsc` and the
//! boxed closure a job is made of. The pool's logic in `pool` is verified
//! against the contracts stated here.

use vstd::prelude::*;

verus! {

/// An opaque, no-argument, no-return unit of work. Ownership moves into the
/// pool at submission time and the job is invoked at most once (enforced by
/// move semantics: `run` consumes the job).
///
/// The boxed closure is a `std` value Verus cannot look into, so the whole
/// struct is opaque to the verifier.
#[verifier::external_body]
pub(crate) struct Job {
    inner: Box<dyn FnOnce() + Send + 'static>,
}

impl Job {
    /// Wraps a closure as a job.
    ///
    /// Relies on `Box::new`: the box holds exactly the given closure. The
    /// `requires` records that the closure is callable, which `run` relies on.
    #[verifier::external_body]
    pub(crate) fn new<F: FnOnce() + Send + 'static>(f: F) -> Job
        requires
            f.requires(()),
    {
        Job { inner: Box::new(f) }
    }

    /// Runs the job to completion, consuming it.
    ///
    /// Relies on `FnOnce::call_once` through the box: it invokes the closure
    /// stored by `Job::new` exactly once. The closure itself is the caller's
    /// code and may block or fail; neither corrupts the pool.
    #[verifier::external_body]
    pub(crate) fn run(self) {
        (self.inner)()
    }
}

/// A message carried on the work channel: either work to run, or the
/// poison pill that stops exactly one worker.
pub(crate) enum Message {
    NewJob(Job),
    Terminate,
}

/// The sending half of the work channel.
///
/// Holds a `std::sync::mpsc::Sender`, which Verus has no specification for,
/// so the struct is opaque and its one method is trusted.
#[verifier::external_body]
pub(crate) struct WorkSender {
    inner: std::sync::mpsc::Sender<Message>,
}

/// The receiving half of the work channel, shared by all workers.
///
/// Holds an `Arc<Mutex<Receiver>>`; the lock is taken only for the length of
/// one dequeue, never across the execution of a job, so workers run jobs in
/// parallel.
#[verifier::external_body]
pub(crate) struct SharedReceiver {
    inner: std::sync::Arc<std::sync::Mutex<std::sync::mpsc::Receiver<Message>>>,
}

/// Creates the work channel.
///
/// Relies on `std::sync::mpsc::channel`: an unbounded FIFO queue; a send
/// never blocks waiting for a receiver, and messages are received in the
/// order they were sent.
#[verifier::external_body]
pub(crate) fn new_channel() -> (WorkSender, SharedReceiver) {
    let (sender, receiver) = std::sync::mpsc::channel();
    (
        WorkSender { inner: sender },
        SharedReceiver { inner: std::sync::Arc::new(std::sync::Mutex::new(receiver)) },
    )
}

impl WorkSender {
    /// Hands one message to the channel.
    ///
    /// Relies on `Sender::send`: it returns `Ok` once the message is queued
    /// (never blocking on a busy worker), and returns the message back as
    /// `Err` exactly when every receiver has been dropped, that is, when all
    /// workers have exited. Which of the two happens depends on the live
    /// threads, so only the returned message is pinned down.
    #[verifier::external_body]
    pub(crate) fn send(&self, message: Message) -> (r: Result<(), Message>)
        ensures
            r matches Err(back) ==> back == message,
    {
        match self.inner.send(message) {
            Ok(()) => Ok(()),
            Err(e) => Err(e.0),
        }
    }
}

/// The notifying half of one worker's exit channel. A worker context sends
/// exactly one notice, by consuming this value, when its loop has ended.
#[verifier::external_body]
pub(crate) struct ExitNotice {
    inner: std::sync::mpsc::Sender<()>,
}

/// The waiting half of one worker's exit channel: the pool-side stand-in for
/// a join handle. Waiting on it blocks until the paired `ExitNotice` has been
/// used or dropped, that is, until the worker's execution context is gone.
#[verifier::external_body]
pub(crate) struct ExitHandle {
    inner: std::sync::mpsc::Receiver<()>,
}

/// Creates one worker's exit channel.
///
/// Relies on `std::sync::mpsc::channel`: the receiver observes exactly what
/// the sender did, and observes the sender being dropped.
#[verifier::external_body]
pub(crate) fn new_exit_channel() -> (ExitNotice, ExitHandle) {
    let (sender, receiver) = std::sync::mpsc::channel();
    (ExitNotice { inner: sender }, ExitHandle { inner: receiver })
}

impl ExitNotice {
    /// Announces that this worker's loop has ended. Consumes the notice, so
    /// it is given at most once.
    ///
    /// Relies on `Sender::send`: the notice reaches the paired `ExitHandle`;
    /// if the pool is already gone nobody waits and the send result does not
    /// matter.
    #[verifier::external_body]
    pub(crate) fn notify(self) {
        let _ = self.inner.send(());
    }
}

impl ExitHandle {
    /// Blocks until the paired `ExitNotice` has been used or dropped: until
    /// the worker's execution context has fully exited, whether its loop
    /// ended at `Terminate` or a failed job tore the context down. Consumes
    /// the handle, so a worker is waited for at most once.
    ///
    /// Relies on `Receiver::recv`: it blocks exactly until a message arrives
    /// or every sender is dropped.
    #[verifier::external_body]
    pub(crate) fn wait(self) {
        let _ = self.inner.recv();
    }
}

impl SharedReceiver {
    /// Another handle to the same receiving half.
    ///
    /// Relies on `Arc::clone`: the clone refers to the same receiver.
    #[verifier::external_body]
    pub(crate) fn share(&self) -> SharedReceiver {
        SharedReceiver { inner: std::sync::Arc::clone(&self.inner) }
    }

    /// Dequeues one message, blocking while the channel is empty.
    ///
    /// Relies on `Mutex::lock` and `Receiver::recv`: the guard is held only
    /// for the dequeue and is released before this returns, so a job is never
    /// executed under the lock. Returns `None` when the channel is closed
    /// (every sender dropped) or the lock was poisoned by a failed thread;
    /// which message arrives depends on the other threads, so nothing more is
    /// pinned down.
    #[verifier::external_body]
    pub(crate) fn recv(&self) -> Option<Message> {
        match self.inner.lock() {
            Ok(guard) => guard.recv().ok(),
            Err(_) => None,
        }
    }
}

} // verus!
