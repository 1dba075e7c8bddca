use vstd::prelude::*;
use std::sync::mpsc::{self, Receiver, RecvTimeoutError, Sender, SyncSender, TryRecvError};
use std::time::Duration;

verus! {

#[verifier::external_type_specification]
#[verifier::external_body]
#[verifier::reject_recursive_types(T)]
pub struct ExReceiver<T>(Receiver<T>);

#[verifier::external_type_specification]
#[verifier::external_body]
#[verifier::reject_recursive_types(T)]
pub struct ExSender<T>(Sender<T>);

#[verifier::external_type_specification]
#[verifier::external_body]
#[verifier::reject_recursive_types(T)]
pub struct ExSyncSender<T>(SyncSender<T>);

/// What a look at the channel of a key found.
#[derive(Clone, Copy, PartialEq, Eq, Structural, Debug)]
pub enum RecvStatus {
    /// The release was signalled.
    Signalled,
    /// Nothing yet (or the wait timed out).
    Pending,
    /// The signalling side is gone.
    Disconnected,
}

/// Whether a key counts as released after a look at its channel: a signal or
/// a vanished notifier both mean released.
pub open spec fn spec_released(status: RecvStatus) -> bool {
    status != RecvStatus::Pending
}

/// Lets an action learn when the key that started it is released.
pub struct KeyEvent {
    rx: Receiver<()>,
    /// The sending end that the channel was made with.
    origin: Ghost<Sender<()>>,
}

/// Signals the release of the key to its [`KeyEvent`].
pub struct KeyEventNotifier {
    tx: Sender<()>,
    /// The sending end that the channel was made with.
    origin: Ghost<Sender<()>>,
}

/// Creates a channel (`std::sync::mpsc::channel`).
#[verifier::external_body]
fn unit_channel() -> (Sender<()>, Receiver<()>) {
    mpsc::channel()
}

/// Creates a bounded channel (`std::sync::mpsc::sync_channel`).
#[verifier::external_body]
fn unit_sync_channel(bound: usize) -> (SyncSender<()>, Receiver<()>) {
    mpsc::sync_channel(bound)
}

/// Looks at the channel without blocking (`Receiver::try_recv`); what comes
/// back depends on the other thread.
#[verifier::external_body]
fn try_recv_status(rx: &Receiver<()>) -> RecvStatus {
    match rx.try_recv() {
        Ok(_) => RecvStatus::Signalled,
        Err(TryRecvError::Empty) => RecvStatus::Pending,
        Err(TryRecvError::Disconnected) => RecvStatus::Disconnected,
    }
}

/// Waits on the channel for at most `timeout` (`Receiver::recv_timeout`);
/// what comes back depends on the other thread and the clock.
#[verifier::external_body]
fn recv_timeout_status(rx: &Receiver<()>, timeout: Duration) -> RecvStatus {
    match rx.recv_timeout(timeout) {
        Ok(_) => RecvStatus::Signalled,
        Err(RecvTimeoutError::Timeout) => RecvStatus::Pending,
        Err(RecvTimeoutError::Disconnected) => RecvStatus::Disconnected,
    }
}

/// Sends a signal (`Sender::send`); a gone receiver is not an error here.
#[verifier::external_body]
fn send_unit(tx: &Sender<()>) {
    let _ = tx.send(());
}

/// Another handle to the same channel (`Sender::clone`).
#[verifier::external_body]
fn clone_sender(tx: &Sender<()>) -> Sender<()> {
    tx.clone()
}

/// Another handle to the same channel (`SyncSender::clone`).
#[verifier::external_body]
fn clone_sync_sender(tx: &SyncSender<()>) -> SyncSender<()> {
    tx.clone()
}

/// Whether a look at a key's channel means that the key is up.
pub fn released(status: RecvStatus) -> (r: bool)
    ensures
        r == spec_released(status),
{
    match status {
        RecvStatus::Signalled => true,
        RecvStatus::Pending => false,
        RecvStatus::Disconnected => true,
    }
}

impl KeyEvent {
    /// The channel that the event listens on, known by the sending end it was made with.
    pub closed spec fn channel(&self) -> Sender<()> {
        self.origin@
    }

    /// A new event and the notifier that signals it: both ends of one new channel.
    pub fn new() -> (r: (Self, KeyEventNotifier))
        ensures
            r.0.channel() == r.1.channel(),
    {
        let (tx, rx) = unit_channel();
        let origin: Ghost<Sender<()>> = Ghost(tx);
        (KeyEvent { rx, origin }, KeyEventNotifier { tx, origin })
    }

    /// Whether the key has been released, without waiting.
    pub fn is_up(&self) -> bool {
        released(try_recv_status(&self.rx))
    }

    /// Whether the key is released within `timeout`.
    pub fn wait_timeout(&self, timeout: Duration) -> bool {
        released(recv_timeout_status(&self.rx, timeout))
    }
}

impl KeyEventNotifier {
    /// The channel that the notifier signals, known by the sending end it was made with.
    pub closed spec fn channel(&self) -> Sender<()> {
        self.origin@
    }

    pub fn notify(self) {
        send_unit(&self.tx);
    }

    /// Another notifier for the same event.
    pub fn clone(&self) -> (r: Self)
        ensures
            r.channel() == self.channel(),
    {
        KeyEventNotifier { tx: clone_sender(&self.tx), origin: Ghost(self.origin@) }
    }
}

/// The receiving end of a repeat channel: a repeated action waits on it for
/// the next auto-repeat of its key.
pub struct RepeatSignal {
    rx: Receiver<()>,
    /// The sending end that the channel was made with.
    origin: Ghost<SyncSender<()>>,
}

/// The sending end of a repeat channel: each auto-repeat of the key ticks it.
pub struct RepeatTicker {
    tx: SyncSender<()>,
    /// The sending end that the channel was made with.
    origin: Ghost<SyncSender<()>>,
}

/// A new repeat channel, with room for no signal (a tick is taken only by an
/// action that waits): the ticker and the signal are its two ends.
pub fn repeat_channel() -> (r: (RepeatTicker, RepeatSignal))
    ensures
        r.0.channel() == r.1.channel(),
{
    let (tx, rx) = unit_sync_channel(0);
    let origin: Ghost<SyncSender<()>> = Ghost(tx);
    (RepeatTicker { tx, origin }, RepeatSignal { rx, origin })
}

impl RepeatSignal {
    /// The channel, known by the sending end it was made with.
    pub closed spec fn channel(&self) -> SyncSender<()> {
        self.origin@
    }

    /// The end to wait on.
    pub fn receiver(&self) -> &Receiver<()> {
        &self.rx
    }
}

impl RepeatTicker {
    /// The channel, known by the sending end it was made with.
    pub closed spec fn channel(&self) -> SyncSender<()> {
        self.origin@
    }

    /// The end to tick.
    pub fn sender(&self) -> &SyncSender<()> {
        &self.tx
    }

    /// Another ticker of the same channel.
    pub fn clone(&self) -> (r: Self)
        ensures
            r.channel() == self.channel(),
    {
        RepeatTicker { tx: clone_sync_sender(&self.tx), origin: Ghost(self.origin@) }
    }
}

} // verus!
