//! Duplex, packet-oriented transport over a stream socket.
//!
//! The caller holds a [`Remote`]: a pair of unbounded FIFO queues plus two
//! [`ControllableThread`] handles, one per traffic direction.  Every
//! caller-facing operation (`send`, `try_recv`, `tick`, cancellation) is
//! non-blocking.  The blocking work — the socket itself, and the two loops
//! that drain the outbound queue and fill the inbound one — runs on
//! background threads owned by the embedding program, which drives them
//! through [`SendWorker`] and [`RecvWorker`].

use vstd::prelude::*;

verus! {

use crossbeam_channel::Receiver;
use crossbeam_channel::Sender;

/// `crossbeam_channel::Sender`, the producing half of a FIFO channel.
#[verifier::external_type_specification]
#[verifier::external_body]
#[verifier::reject_recursive_types(T)]
pub struct ExSender<T>(Sender<T>);

/// `crossbeam_channel::Receiver`, the consuming half of a FIFO channel.
#[verifier::external_type_specification]
#[verifier::external_body]
#[verifier::reject_recursive_types(T)]
pub struct ExReceiver<T>(Receiver<T>);

/// `bincode::ErrorKind`, the codec's error type (`bincode::Error` is a box
/// around it).
#[verifier::external_type_specification]
#[verifier::external_body]
pub struct ExBincodeErrorKind(bincode::ErrorKind);

/// What one poll of a channel's consuming half produced.  Mirrors the three
/// cases of `crossbeam_channel::TryRecvError` plus the received value.
pub enum TryRecvOutcome<T> {
    /// A message was waiting.
    Got(T),
    /// No message yet, but the producing side is still alive.
    Empty,
    /// No message, and every producing handle is gone.
    Disconnected,
}

/// Relies on `crossbeam_channel::unbounded`: a connected, unbounded FIFO
/// channel pair.  What the channel will hold depends on the threads that end
/// up with the two halves, so nothing is promised of its future contents.
#[verifier::external_body]
fn channel_pair<T>() -> (r: (Sender<T>, Receiver<T>)) {
    crossbeam_channel::unbounded()
}

/// Relies on `crossbeam_channel::Sender::send`: on an unbounded channel it
/// never blocks, and on failure (every receiver gone) it hands the message
/// back unchanged.  Whether it fails depends on the consuming thread, so both
/// outcomes are left open.
#[verifier::external_body]
fn send_on<T>(tx: &Sender<T>, value: T) -> (r: Result<(), T>)
    ensures
        r is Err ==> r->Err_0 == value,
    opens_invariants none
    no_unwind
{
    match tx.send(value) {
        Ok(()) => Ok(()),
        Err(e) => Err(e.0),
    }
}

/// Relies on `crossbeam_channel::Receiver::try_recv`: never blocks.  Which of
/// the three cases comes back depends on the producing thread, so all three
/// are left open.
#[verifier::external_body]
fn try_recv_on<T>(rx: &Receiver<T>) -> (r: TryRecvOutcome<T>) {
    match rx.try_recv() {
        Ok(v) => TryRecvOutcome::Got(v),
        Err(crossbeam_channel::TryRecvError::Empty) => TryRecvOutcome::Empty,
        Err(crossbeam_channel::TryRecvError::Disconnected) => TryRecvOutcome::Disconnected,
    }
}

/// Relies on `crossbeam_channel::Receiver::recv`: blocks until a message
/// arrives or every sender is gone (`None`).  For a worker's own loop only;
/// the caller-facing surface never goes through this.
#[verifier::external_body]
fn recv_blocking<T>(rx: &Receiver<T>) -> (r: Option<T>) {
    rx.recv().ok()
}

/// Relies on `bincode::serialize` with its default (fixed-integer) options:
/// the packet's self-delimiting wire record, byte-identical to what the
/// streaming form writes to a socket.
#[verifier::external_body]
fn bincode_encode<P: serde::Serialize>(packet: &P) -> (r: Result<Vec<u8>, Box<bincode::ErrorKind>>) {
    bincode::serialize(packet)
}

/// Why a background worker stopped early.
#[derive(Clone, Copy, Debug, PartialEq, Eq, Structural)]
pub enum WorkerError {
    /// Serializing an outbound packet failed.
    Encode,
    /// Writing or flushing an encoded record to the stream failed.
    Write,
    /// Reading or decoding one inbound record failed.  The peer closing the
    /// stream cleanly surfaces here too: end of stream is not a graceful
    /// outcome for this transport.
    Read,
    /// A fully received packet could not be handed to the owner because the
    /// inbound queue's consuming side is gone.
    Delivery,
}

/// Returned by `Remote::send` when the outbound queue's consuming side has
/// already stopped.
#[derive(Clone, Copy, Debug, PartialEq, Eq, Structural)]
pub struct SendError;

/// A worker's single completion notification: `None` is a clean exit, `Some`
/// carries the failure.
pub struct Finished(pub Option<WorkerError>);

/// The cooperative cancellation signal.
pub struct Abort;

/// The owner's handle on one background worker: poll its completion without
/// blocking, request cancellation without waiting.
pub struct ControllableThread {
    finished: Receiver<Finished>,
    abort: Sender<Abort>,
}

/// The worker-side half of a [`ControllableThread`]: observe cancellation,
/// report the one completion notification.
pub struct WorkerLink {
    finished: Sender<Finished>,
    abort: Receiver<Abort>,
}

/// What one poll of the completion channel means.  A missing notification is
/// `Ok(false)` (still running); a disconnected channel is a terminal,
/// non-error state, reported as finished.
pub open spec fn spec_worker_status(o: TryRecvOutcome<Finished>) -> Result<bool, WorkerError> {
    match o {
        TryRecvOutcome::Got(f) => match f.0 {
            Some(e) => Err(e),
            None => Ok(true),
        },
        TryRecvOutcome::Empty => Ok(false),
        TryRecvOutcome::Disconnected => Ok(true),
    }
}

/// Classifies one completion-channel poll; see [`spec_worker_status`].
pub fn worker_status(o: TryRecvOutcome<Finished>) -> (r: Result<bool, WorkerError>)
    ensures
        r == spec_worker_status(o),
{
    match o {
        TryRecvOutcome::Got(f) => match f.0 {
            Some(e) => Err(e),
            None => Ok(true),
        },
        TryRecvOutcome::Empty => Ok(false),
        TryRecvOutcome::Disconnected => Ok(true),
    }
}

/// Whether one poll of the abort channel tells the worker to stop: an
/// explicit signal and a dropped owner collapse into the same exit condition.
pub open spec fn spec_stop_requested(o: TryRecvOutcome<Abort>) -> bool {
    !(o is Empty)
}

/// Classifies one abort-channel poll; see [`spec_stop_requested`].
pub fn stop_requested(o: TryRecvOutcome<Abort>) -> (r: bool)
    ensures
        r == spec_stop_requested(o),
{
    match o {
        TryRecvOutcome::Empty => false,
        TryRecvOutcome::Got(_) => true,
        TryRecvOutcome::Disconnected => true,
    }
}

impl ControllableThread {
    /// Creates the owner half together with the worker half.  The embedding
    /// program moves the [`WorkerLink`] onto the background thread it spawns;
    /// spawning itself is its job, not this library's.
    pub fn new() -> (r: (ControllableThread, WorkerLink)) {
        let (tx_finished, rx_finished) = channel_pair();
        let (tx_abort, rx_abort) = channel_pair();
        (
            ControllableThread { finished: rx_finished, abort: tx_abort },
            WorkerLink { finished: tx_finished, abort: rx_abort },
        )
    }

    /// Non-blocking poll of the worker: `Ok(false)` still running, `Ok(true)`
    /// finished (cleanly, or channel gone), `Err` finished with that failure.
    /// Which case a poll sees depends on the worker's thread; the meaning of
    /// each case is pinned down by [`worker_status`].
    pub fn tick(&self) -> (r: Result<bool, WorkerError>) {
        worker_status(try_recv_on(&self.finished))
    }

    /// Best-effort cancellation: sends one advisory signal and returns at
    /// once.  A worker that already exited is not an error.
    pub fn abort(&self)
        opens_invariants none
        no_unwind
    {
        let _ = send_on(&self.abort, Abort);
    }
}

impl WorkerLink {
    /// Non-blocking check the worker makes at each loop-iteration boundary;
    /// `true` means stop.  Which case a poll sees depends on the owner; the
    /// meaning of each case is pinned down by [`stop_requested`].
    pub fn should_stop(&self) -> (r: bool) {
        stop_requested(try_recv_on(&self.abort))
    }

    /// Reports how the worker ended.  Taking `self` by value makes a second
    /// notification impossible: at most one is ever produced per worker.  A
    /// failed send (owner already gone) is swallowed, not fatal.
    pub fn finish(self, outcome: Option<WorkerError>) {
        let _ = send_on(&self.finished, Finished(outcome));
    }
}

/// The caller's transport handle: two unbounded packet queues and the two
/// workers bridging them to the socket.
#[verifier::reject_recursive_types(P)]
pub struct Remote<P> {
    rx: Receiver<P>,
    tx: Sender<P>,
    send: ControllableThread,
    recv: ControllableThread,
}

/// Everything the outbound worker owns: the queue it drains and its link to
/// the owner.
#[verifier::reject_recursive_types(P)]
pub struct SendWorker<P> {
    from_main: Receiver<P>,
    /// The worker's half of its cancellation and completion channels.
    pub link: WorkerLink,
}

/// Everything the inbound worker owns: the queue it fills and its link to
/// the owner.
#[verifier::reject_recursive_types(P)]
pub struct RecvWorker<P> {
    to_main: Sender<P>,
    /// The worker's half of its cancellation and completion channels.
    pub link: WorkerLink,
}

/// The packet a poll of the inbound queue yields, if any.
pub open spec fn spec_queued_packet<P>(o: TryRecvOutcome<P>) -> Option<P> {
    match o {
        TryRecvOutcome::Got(p) => Some(p),
        TryRecvOutcome::Empty => None,
        TryRecvOutcome::Disconnected => None,
    }
}

/// Classifies one inbound-queue poll; see [`spec_queued_packet`].
pub fn queued_packet<P>(o: TryRecvOutcome<P>) -> (r: Option<P>)
    ensures
        r == spec_queued_packet(o),
{
    match o {
        TryRecvOutcome::Got(p) => Some(p),
        TryRecvOutcome::Empty => None,
        TryRecvOutcome::Disconnected => None,
    }
}

/// How one health check combines the two workers' poll results: an error
/// outranks everything, the send path's first; otherwise the transport is
/// done as soon as either side is.
pub open spec fn spec_combine_ticks(
    send_r: Result<bool, WorkerError>,
    recv_r: Result<bool, WorkerError>,
) -> Result<bool, WorkerError> {
    if send_r is Err {
        send_r
    } else if recv_r is Err {
        recv_r
    } else {
        Ok(send_r->Ok_0 || recv_r->Ok_0)
    }
}

/// Combines the two workers' poll results; see [`spec_combine_ticks`].
pub fn combine_ticks(
    send_r: Result<bool, WorkerError>,
    recv_r: Result<bool, WorkerError>,
) -> (r: Result<bool, WorkerError>)
    ensures
        r == spec_combine_ticks(send_r, recv_r),
{
    match send_r {
        Err(e) => Err(e),
        Ok(s) => match recv_r {
            Err(e) => Err(e),
            Ok(t) => Ok(s || t),
        },
    }
}

impl<P> Remote<P> {
    /// Builds the transport handle plus the two worker bundles.  Connecting
    /// the socket (low-latency options, megabyte-scale buffering) and
    /// spawning the two loops are I/O and stay with the embedding program,
    /// which must start both workers for the handle to be live.
    pub fn new() -> (r: (Remote<P>, SendWorker<P>, RecvWorker<P>)) {
        let (to_thread, from_main) = channel_pair();
        let (to_main, from_thread) = channel_pair();
        let (send, send_link) = ControllableThread::new();
        let (recv, recv_link) = ControllableThread::new();
        (
            Remote { rx: from_thread, tx: to_thread, send, recv },
            SendWorker { from_main, link: send_link },
            RecvWorker { to_main, link: recv_link },
        )
    }

    /// Enqueues one outbound packet; never blocks (the queue is unbounded).
    /// Fails only when the send worker's consuming end has already stopped;
    /// recovery is a new connection.
    pub fn send(&self, packet: P) -> (r: Result<(), SendError>) {
        match send_on(&self.tx, packet) {
            Ok(()) => Ok(()),
            Err(_) => Err(SendError),
        }
    }

    /// The next inbound packet if one is queued; never blocks or spins.
    pub fn try_recv(&self) -> (r: Option<P>) {
        queued_packet(try_recv_on(&self.rx))
    }

    /// Polls both workers without blocking: `Ok(true)` when either has
    /// finished (tear the channel down), `Ok(false)` while both run, `Err`
    /// with the first failure observed, checking the send path before the
    /// receive path.  Both workers are polled on every call, so a second
    /// failure is consumed, never re-delivered.  The combination is pinned
    /// down by [`combine_ticks`].
    pub fn tick(&self) -> (r: Result<bool, WorkerError>) {
        let send_r = self.send.tick();
        let recv_r = self.recv.tick();
        combine_ticks(send_r, recv_r)
    }
}

impl<P> Drop for Remote<P> {
    /// Teardown requests cancellation on both workers and returns at once;
    /// it never waits for a background thread to exit.
    fn drop(&mut self)
        opens_invariants none
        no_unwind
    {
        self.send.abort();
        self.recv.abort();
    }
}

/// Encodes one outbound packet into its wire record.  This is the compute
/// half of one send-loop iteration; writing and flushing the returned bytes
/// is the embedding program's half.
pub fn encode_packet<P: serde::Serialize>(packet: &P) -> (r: Result<Vec<u8>, WorkerError>)
    ensures
        r matches Err(e) ==> e == WorkerError::Encode,
{
    match bincode_encode(packet) {
        Ok(bytes) => Ok(bytes),
        Err(_) => Err(WorkerError::Encode),
    }
}

impl<P> SendWorker<P> {
    /// Blocks until the owner enqueues the next outbound packet; `None` when
    /// the owner is gone, which ends the loop cleanly.
    pub fn next_outbound(&self) -> (r: Option<P>) {
        recv_blocking(&self.from_main)
    }
}

impl<P> RecvWorker<P> {
    /// Hands one received packet to the owner.  An owner that can no longer
    /// take delivery is a protocol-level anomaly, reported as a failure, not
    /// an expected lifecycle event.
    pub fn deliver(&self, packet: P) -> (r: Result<(), WorkerError>)
        ensures
            r matches Err(e) ==> e == WorkerError::Delivery,
    {
        match send_on(&self.to_main, packet) {
            Ok(()) => Ok(()),
            Err(_) => Err(WorkerError::Delivery),
        }
    }
}

/// A worker failure is never masked.  Whenever the send-side completion poll
/// carries a failure, the health check reports exactly that error; a failure
/// seen only on the receive side is reported when the send side shows none;
/// and the check can claim that both workers are still running only when both
/// polls saw nothing at all — never after a failure notification.
pub proof fn lemma_single_failure_observation(
    send_o: TryRecvOutcome<Finished>,
    recv_o: TryRecvOutcome<Finished>,
)
    ensures
        send_o matches TryRecvOutcome::Got(Finished(Some(e))) ==> spec_combine_ticks(
            spec_worker_status(send_o),
            spec_worker_status(recv_o),
        ) == Err::<bool, WorkerError>(e),
        !(spec_worker_status(send_o) is Err) ==> (recv_o matches TryRecvOutcome::Got(
            Finished(Some(e)),
        ) ==> spec_combine_ticks(spec_worker_status(send_o), spec_worker_status(recv_o))
            == Err::<bool, WorkerError>(e)),
        spec_combine_ticks(spec_worker_status(send_o), spec_worker_status(recv_o)) == Ok::<
            bool,
            WorkerError,
        >(false) ==> send_o is Empty && recv_o is Empty,
{
}

} // verus!
