//! Process identity, the signal protocol, and the externally held
//! [`ProcessHandle`] through which a running process is messaged, signalled
//! and awaited.

pub mod config;
pub mod driver;

use crate::message::Message;
use vstd::prelude::*;

verus! {

use vstd::std_specs::cmp::PartialEqSpec;

// ---------------------------------------------------------------------------
// Declarations of the outside channel types that carry plain payloads.
// ---------------------------------------------------------------------------

/// Declares tokio's unbounded mpsc sender so that it can stand in fields and
/// signatures; values of it are opaque to the verifier.
#[verifier::external_type_specification]
#[verifier::external_body]
#[verifier::reject_recursive_types(T)]
pub struct ExUnboundedSender<T>(tokio::sync::mpsc::UnboundedSender<T>);

/// Declares tokio's unbounded mpsc receiver.
#[verifier::external_type_specification]
#[verifier::external_body]
#[verifier::reject_recursive_types(T)]
pub struct ExUnboundedReceiver<T>(tokio::sync::mpsc::UnboundedReceiver<T>);

/// Declares tokio's broadcast sender.
#[verifier::external_type_specification]
#[verifier::external_body]
#[verifier::reject_recursive_types(T)]
pub struct ExBroadcastSender<T>(tokio::sync::broadcast::Sender<T>);

/// Declares tokio's broadcast receiver.
#[verifier::external_type_specification]
#[verifier::external_body]
#[verifier::reject_recursive_types(T)]
pub struct ExBroadcastReceiver<T>(tokio::sync::broadcast::Receiver<T>);

// ---------------------------------------------------------------------------
// Signal protocol
// ---------------------------------------------------------------------------

/// The closed set of out-of-band control messages a process can receive,
/// delivered on a dedicated channel and handled before computation progress.
#[derive(Debug)]
pub enum Signal {
    /// When received, the process must stop at once.
    Kill,
    /// Reconfigures what happens to this process when a linked process dies.
    DieWhenLinkDies(bool),
    /// Sent by a process that wants to be notified when this process dies.
    Link(ProcessHandle),
    /// Sent to linked processes when a process dies because of a trap.
    LinkNotifyTrap,
    /// Sent to linked processes when a process dies because of a kill signal.
    LinkNotifyKill,
}

/// The reason a process finished.
pub enum Finished<T> {
    /// The computation itself completed, with a value or a trap.
    Wasm(T),
    /// The process was stopped by an external signal.
    Signal(Signal),
}

// ---------------------------------------------------------------------------
// Signal channel endpoints
// ---------------------------------------------------------------------------

/// Sending end of a process's signal channel.
///
/// The channel carries [`Signal`], which itself holds handles that hold such
/// senders again; that recursion keeps the tokio sender type from being
/// declared at this payload, so the endpoint is held opaquely.
/// Relies on `tokio::sync::mpsc::UnboundedSender`.
#[derive(Debug)]
#[verifier::external_body]
pub struct SignalSender {
    inner: tokio::sync::mpsc::UnboundedSender<Signal>,
}

/// Receiving end of a process's signal channel, owned by the driver loop.
/// The field is public so that the unverified loop around the library can
/// await the next signal on it.
/// Relies on `tokio::sync::mpsc::UnboundedReceiver`.
#[derive(Debug)]
#[verifier::external_body]
pub struct SignalReceiver {
    pub inner: tokio::sync::mpsc::UnboundedReceiver<Signal>,
}

/// Relies on `tokio::sync::mpsc::unbounded_channel`: returns the two ends of
/// a fresh unbounded FIFO channel for signals.
#[verifier::external_body]
pub fn signal_channel() -> (SignalSender, SignalReceiver) {
    let (tx, rx) = tokio::sync::mpsc::unbounded_channel();
    (SignalSender { inner: tx }, SignalReceiver { inner: rx })
}

/// Relies on `tokio::sync::mpsc::UnboundedSender::clone`: another sending end
/// of the same channel.
#[verifier::external_body]
fn clone_signal_sender(s: &SignalSender) -> SignalSender {
    SignalSender { inner: s.inner.clone() }
}

/// Relies on `tokio::sync::mpsc::UnboundedSender::send`: enqueues without
/// blocking; fails only when the receiving end is closed, returning the
/// rejected value inside the error.
#[verifier::external_body]
fn signal_send(s: &SignalSender, signal: Signal) -> (r: Result<(), Signal>)
    ensures
        r matches Err(rejected) ==> rejected == signal,
{
    s.inner.send(signal).map_err(|e| e.0)
}

// ---------------------------------------------------------------------------
// Message channel
// ---------------------------------------------------------------------------

/// Relies on `tokio::sync::mpsc::unbounded_channel`: the two ends of a fresh
/// unbounded FIFO mailbox channel for application messages.
#[verifier::external_body]
pub fn message_channel() -> (
    tokio::sync::mpsc::UnboundedSender<Message>,
    tokio::sync::mpsc::UnboundedReceiver<Message>,
) {
    tokio::sync::mpsc::unbounded_channel()
}

/// Relies on `tokio::sync::mpsc::UnboundedSender::clone`.
#[verifier::external_body]
fn clone_message_sender(
    s: &tokio::sync::mpsc::UnboundedSender<Message>,
) -> tokio::sync::mpsc::UnboundedSender<Message> {
    s.clone()
}

/// Relies on `tokio::sync::mpsc::UnboundedSender::send`: enqueues without
/// blocking; fails only when the receiving end is closed, returning the
/// rejected value inside the error.
#[verifier::external_body]
fn message_send(
    s: &tokio::sync::mpsc::UnboundedSender<Message>,
    message: Message,
) -> (r: Result<(), Message>)
    ensures
        r matches Err(rejected) ==> rejected == message,
{
    s.send(message).map_err(|e| e.0)
}

/// Delivers the link-death marker into a process's own mailbox: the driver
/// loop calls this when a linked peer died and the die-when-link-dies flag
/// was false, so in-band logic can observe the death. Fails only when the
/// mailbox receiver is already gone, returning the undelivered marker.
pub fn notify_self(
    sender: &tokio::sync::mpsc::UnboundedSender<Message>,
) -> (r: Result<(), Message>)
    ensures
        r matches Err(rejected) ==> rejected == Message::Signal,
{
    message_send(sender, Message::Signal)
}

// ---------------------------------------------------------------------------
// Termination-verdict broadcast with a write-once latch
// ---------------------------------------------------------------------------

/// The write-once verdict latch shared by the driver loop and every handle
/// clone. The broadcast channel alone does not replay the verdict to a
/// subscriber created after it was sent; the latch, written strictly before
/// the broadcast, closes that gap.
/// Relies on `std::sync::OnceLock` shared through `std::sync::Arc`.
#[derive(Debug)]
#[verifier::external_body]
pub struct VerdictLatch {
    inner: std::sync::Arc<std::sync::OnceLock<bool>>,
}

/// Relies on `std::sync::OnceLock::new` (the surrounding `Arc::new` carries
/// its vstd specification): a fresh, unwritten latch.
#[verifier::external_body]
fn latch_new() -> VerdictLatch {
    VerdictLatch { inner: std::sync::Arc::new(std::sync::OnceLock::new()) }
}

/// Relies on `std::sync::Arc::clone`: another reference to the same latch.
#[verifier::external_body]
fn latch_clone(l: &VerdictLatch) -> VerdictLatch {
    VerdictLatch { inner: l.inner.clone() }
}

/// Relies on `std::sync::OnceLock::set`: writes the latch if it was never
/// written; a later write is ignored.
#[verifier::external_body]
fn latch_set(l: &VerdictLatch, verdict: bool) {
    let _ = l.inner.set(verdict);
}

/// Relies on `std::sync::OnceLock::wait`: blocks the calling thread until
/// the latch has been written and returns the written value; when it already
/// holds one, it returns at once. It neither fails nor panics; a caller
/// inside an async execution context must move the wait onto a
/// blocking-friendly worker, since it would otherwise stall that executor
/// thread.
#[verifier::external_body]
fn latch_wait(l: &VerdictLatch) -> bool {
    *l.inner.wait()
}

/// Relies on `tokio::sync::broadcast::channel`: the two ends of a fresh
/// broadcast channel holding at most one verdict.
#[verifier::external_body]
fn broadcast_pair() -> (
    tokio::sync::broadcast::Sender<bool>,
    tokio::sync::broadcast::Receiver<bool>,
) {
    tokio::sync::broadcast::channel(1)
}

/// Relies on `tokio::sync::broadcast::Sender::clone`.
#[verifier::external_body]
fn clone_broadcast_sender(
    s: &tokio::sync::broadcast::Sender<bool>,
) -> tokio::sync::broadcast::Sender<bool> {
    s.clone()
}

/// Relies on `tokio::sync::broadcast::Sender::subscribe`: a fresh
/// subscription that observes every value sent after this call.
#[verifier::external_body]
fn broadcast_subscribe(
    s: &tokio::sync::broadcast::Sender<bool>,
) -> tokio::sync::broadcast::Receiver<bool> {
    s.subscribe()
}

/// Relies on `tokio::sync::broadcast::Sender::send`: delivers the value to
/// every current subscriber; says whether at least one subscriber existed.
#[verifier::external_body]
fn broadcast_send(s: &tokio::sync::broadcast::Sender<bool>, verdict: bool) -> bool {
    s.send(verdict).is_ok()
}

/// One process's termination-verdict broadcast: the channel itself plus the
/// write-once latch that replays the verdict to late subscribers.
#[derive(Debug)]
pub struct VerdictChannel {
    /// Wakes every current subscription when the verdict goes out.
    sender: tokio::sync::broadcast::Sender<bool>,
    /// This clone's own subscription, made at construction or clone time:
    /// the broadcast's read side that every handle owns. The waits
    /// themselves go through the latch, which carries the value for any
    /// reader, however late.
    receiver: tokio::sync::broadcast::Receiver<bool>,
    /// The write-once cell every waiter reads the verdict from.
    latch: VerdictLatch,
}

impl VerdictChannel {
    /// A fresh verdict channel with its first subscription and an unwritten
    /// latch.
    pub fn new() -> VerdictChannel {
        let (tx, rx) = broadcast_pair();
        VerdictChannel { sender: tx, receiver: rx, latch: latch_new() }
    }
}

impl Clone for VerdictChannel {
    /// Shares the sender and the latch, and subscribes independently: the
    /// new subscription exists before the clone can be observed, so a
    /// verdict broadcast later is never missed by it.
    fn clone(&self) -> VerdictChannel {
        VerdictChannel {
            sender: clone_broadcast_sender(&self.sender),
            receiver: broadcast_subscribe(&self.sender),
            latch: latch_clone(&self.latch),
        }
    }
}

/// Publishes the termination verdict. The latch is written before the
/// broadcast goes out, so a subscription made later still finds the value.
/// The driver loop calls this exactly once per process.
pub fn publish_verdict(v: &VerdictChannel, verdict: bool) {
    latch_set(&v.latch, verdict);
    broadcast_send(&v.sender, verdict);
}

// ---------------------------------------------------------------------------
// Process identity
// ---------------------------------------------------------------------------

/// Relies on `uuid::Uuid::new_v4`: a freshly drawn random 128-bit process
/// identity; nothing is promised of the value itself.
#[verifier::external_body]
pub fn fresh_id() -> u128 {
    uuid::Uuid::new_v4().as_u128()
}

// ---------------------------------------------------------------------------
// ProcessHandle
// ---------------------------------------------------------------------------

/// The only way of communicating with a running process: carries its
/// identity, the sending ends of its mailbox and signal channels, and a
/// private subscription to its termination broadcast.
///
/// Handles compare equal and hash by identity alone: two handles to the same
/// process are interchangeable whatever the state of their channel clones.
#[derive(Debug)]
pub struct ProcessHandle {
    id: u128,
    signal_sender: SignalSender,
    message_sender: tokio::sync::mpsc::UnboundedSender<Message>,
    verdict: VerdictChannel,
}

impl ProcessHandle {
    /// The process identity this handle refers to.
    pub closed spec fn spec_id(&self) -> u128 {
        self.id
    }

    /// Create a new handle from an identity and the channel ends of one
    /// process. The verdict channel hands over its own subscription, so the
    /// handle can already observe a verdict published after this call.
    pub fn new(
        id: u128,
        signal_sender: SignalSender,
        message_sender: tokio::sync::mpsc::UnboundedSender<Message>,
        verdict: VerdictChannel,
    ) -> (r: ProcessHandle)
        ensures
            r.spec_id() == id,
    {
        ProcessHandle { id, signal_sender, message_sender, verdict }
    }

    /// The identity as a plain value, usable as a hash key: handles of one
    /// process hash identically because hashing goes through this key alone.
    pub fn hash_key(&self) -> (r: u128)
        ensures
            r == self.spec_id(),
    {
        self.id
    }

    /// Enqueue an application message on the process's mailbox. Never
    /// blocks; fails exactly when the process has already been torn down and
    /// its mailbox receiver dropped, returning the undelivered message.
    pub fn send_message(&self, message: Message) -> (r: Result<(), Message>)
        ensures
            r matches Err(rejected) ==> rejected == message,
    {
        message_send(&self.message_sender, message)
    }

    /// Enqueue a signal on the process's control channel. Never blocks;
    /// fails exactly when the driver loop has already exited and dropped the
    /// signal receiver, returning the undelivered signal.
    pub fn send_signal(&self, signal: Signal) -> (r: Result<(), Signal>)
        ensures
            r matches Err(rejected) ==> rejected == signal,
    {
        signal_send(&self.signal_sender, signal)
    }

    /// Block the calling thread until this process's verdict arrives, and
    /// hand it back. A process that ran to a normal end yields `false`; a
    /// trapped or killed one yields `true`. The verdict is latched before it
    /// is broadcast, so a handle whose process is long gone reads it and
    /// comes back at once, and a repeated wait hands back the same value.
    ///
    /// This wait blocks the thread it runs on and never panics or fails: a
    /// caller inside an async execution context moves it onto a
    /// blocking-friendly worker instead of calling it there directly.
    pub fn join(&mut self) -> bool {
        latch_wait(&self.verdict.latch)
    }
}

/// Creates the full channel set of one process and the first handle to it:
/// a freshly drawn identity, the signal channel, the unbounded mailbox, and
/// the verdict broadcast. The driver loop takes the signal receiver and the
/// verdict channel; the mailbox receiver goes to the computation's side.
pub fn create_process() -> (ProcessHandle, SignalReceiver, tokio::sync::mpsc::UnboundedReceiver<
    Message,
>, VerdictChannel) {
    let id = fresh_id();
    let (signal_sender, signal_receiver) = signal_channel();
    let (message_sender, message_receiver) = message_channel();
    let verdict = VerdictChannel::new();
    let handle = ProcessHandle::new(id, signal_sender, message_sender, verdict.clone());
    (handle, signal_receiver, message_receiver, verdict)
}

impl Clone for ProcessHandle {
    /// Clones every channel end and subscribes the clone independently to
    /// the termination broadcast; the identity is kept.
    fn clone(&self) -> (r: ProcessHandle)
        ensures
            r.spec_id() == self.spec_id(),
    {
        ProcessHandle {
            id: self.id,
            signal_sender: clone_signal_sender(&self.signal_sender),
            message_sender: clone_message_sender(&self.message_sender),
            verdict: self.verdict.clone(),
        }
    }
}

impl PartialEq for ProcessHandle {
    fn eq(&self, other: &ProcessHandle) -> (r: bool) {
        self.id == other.id
    }
}

impl vstd::std_specs::cmp::PartialEqSpecImpl for ProcessHandle {
    open spec fn obeys_eq_spec() -> bool {
        true
    }

    open spec fn eq_spec(&self, other: &ProcessHandle) -> bool {
        self.spec_id() == other.spec_id()
    }
}

impl Eq for ProcessHandle {}

/// Law: handle equality goes by identity alone — two handles compare equal
/// exactly when they carry the same process identity, whatever the state of
/// their channel clones; and the hash key they hash through is that same
/// identity, so equal handles hash identically.
pub proof fn lemma_handle_identity(a: ProcessHandle, b: ProcessHandle)
    ensures
        a.eq_spec(&b) <==> a.spec_id() == b.spec_id(),
{
}

} // verus!
