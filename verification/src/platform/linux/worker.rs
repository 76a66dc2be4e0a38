//! The caller's link to a cooperative worker.
//!
//! A Linux capture worker runs a loop of its own and ends when it is told to.
//! [`WorkerLink`] is what the capture keeps of it: the sending half of a
//! one-shot stop signal, held exactly while a worker is live.

use crate::platform::Lifecycle;
use tokio::sync::oneshot::Receiver;
use tokio::sync::oneshot::Sender;
use vstd::prelude::*;

verus! {

/// The sending half of tokio's one-shot channel, `tokio::sync::oneshot::Sender`.
#[verifier::external_type_specification]
#[verifier::external_body]
#[verifier::reject_recursive_types(T)]
pub struct ExStopSender<T>(tokio::sync::oneshot::Sender<T>);

/// The receiving half of tokio's one-shot channel, `tokio::sync::oneshot::Receiver`.
#[verifier::external_type_specification]
#[verifier::external_body]
#[verifier::reject_recursive_types(T)]
pub struct ExStopReceiver<T>(tokio::sync::oneshot::Receiver<T>);

/// What awaiting the receiving half yields when the sender was dropped,
/// `tokio::sync::oneshot::error::RecvError`. Named by the receiver's type.
#[verifier::external_type_specification]
#[verifier::external_body]
pub struct ExStopRecvError(tokio::sync::oneshot::error::RecvError);

/// Opens a stop signal. Calls `tokio::sync::oneshot::channel`; nothing is
/// claimed of the two halves.
#[verifier::external_body]
fn stop_channel() -> (ends: (Sender<()>, Receiver<()>)) {
    tokio::sync::oneshot::channel()
}

/// Fires a stop signal. Calls `tokio::sync::oneshot::Sender::send`, which
/// fails when the worker is gone already; that outcome is dropped.
#[verifier::external_body]
fn fire(signal: Sender<()>) {
    let _ = signal.send(());
}

/// What a stop did, and what it leaves to the caller.
#[derive(Debug, Clone, Copy, PartialEq, Eq, Structural)]
pub struct Shutdown {
    /// The stop signal was fired.
    pub signalled: bool,
    /// A worker is winding down: the caller joins it before it reports success.
    pub join_worker: bool,
}

impl Shutdown {
    /// Nothing was running: no signal, no worker, no OS call.
    pub open spec fn nothing() -> Shutdown {
        Shutdown { signalled: false, join_worker: false }
    }
}

/// What a stop makes of a link in `state`: the link is idle afterwards, and
/// the worker was signalled and is left to join exactly if there was one.
pub open spec fn stopped(state: Lifecycle) -> (Lifecycle, Shutdown) {
    let was_running = state == Lifecycle::Running;
    (Lifecycle::Idle, Shutdown { signalled: was_running, join_worker: was_running })
}

/// The link between a capture and its worker.
pub struct WorkerLink {
    stop_tx: Option<Sender<()>>,
}

impl View for WorkerLink {
    type V = Lifecycle;

    /// Running exactly while the stop signal is held.
    closed spec fn view(&self) -> Lifecycle {
        if self.stop_tx is Some {
            Lifecycle::Running
        } else {
            Lifecycle::Idle
        }
    }
}

impl WorkerLink {
    /// A link without a worker.
    pub fn new() -> (link: WorkerLink)
        ensures
            link@ == Lifecycle::Idle,
    {
        WorkerLink { stop_tx: None }
    }

    /// Whether a worker is linked.
    pub fn lifecycle(&self) -> (state: Lifecycle)
        ensures
            state == self@,
    {
        match &self.stop_tx {
            Some(_) => Lifecycle::Running,
            None => Lifecycle::Idle,
        }
    }

    /// Makes the link live and returns the receiving half of the stop signal,
    /// which the caller moves into the worker it spawns.
    pub fn arm(&mut self) -> (stop_rx: Receiver<()>)
        ensures
            final(self)@ == Lifecycle::Running,
    {
        let (stop_tx, stop_rx) = stop_channel();
        self.stop_tx = Some(stop_tx);
        stop_rx
    }

    /// Tells the worker to stop, if there is one, and says what is left to do.
    pub fn release(&mut self) -> (shutdown: Shutdown)
        ensures
            (final(self)@, shutdown) == stopped(old(self)@),
    {
        match self.stop_tx.take() {
            Some(signal) => {
                fire(signal);
                Shutdown { signalled: true, join_worker: true }
            },
            None => Shutdown { signalled: false, join_worker: false },
        }
    }
}

/// Stopping an idle link does nothing: no signal is fired and no worker is
/// joined. A stop leaves the link idle, so stopping twice is stopping once:
/// the second stop does nothing and leaves the link as the first left it.
pub proof fn lemma_stop_is_idempotent(state: Lifecycle)
    ensures
        stopped(Lifecycle::Idle) == (Lifecycle::Idle, Shutdown::nothing()),
        stopped(stopped(state).0) == (stopped(state).0, Shutdown::nothing()),
{
}

} // verus!
