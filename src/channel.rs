use std::sync::mpsc::{Receiver, RecvTimeoutError, Sender};
use std::sync::{Mutex, MutexGuard};
use vstd::prelude::*;

verus! {

#[verifier::external_type_specification]
#[verifier::external_body]
#[verifier::reject_recursive_types(T)]
pub struct ExReceiver<T>(Receiver<T>);

#[verifier::external_type_specification]
#[verifier::external_body]
#[verifier::reject_recursive_types(T)]
pub struct ExSender<T>(Sender<T>);

#[verifier::external_type_specification]
#[verifier::external_body]
#[verifier::reject_recursive_types(T)]
pub struct ExMutex<T: ?Sized>(Mutex<T>);

#[verifier::external_type_specification]
#[verifier::external_body]
#[verifier::reject_recursive_types(T)]
pub struct ExMutexGuard<'a, T: ?Sized + 'a>(MutexGuard<'a, T>);

/// What one bounded-wait receive on the event channel came back with.
#[derive(Debug, PartialEq, Eq)]
pub enum RecvOutcome {
    /// An event arrived within the bound.
    Event(Vec<u8>),
    /// Nothing arrived within the bound.
    Timeout,
    /// The producer side is gone and nothing is buffered.
    Disconnected,
}

/// Relies on `Mutex::lock`: the guard, or `None` where the mutex was poisoned.
#[verifier::external_body]
pub(crate) fn lock_receiver(m: &Mutex<Receiver<Vec<u8>>>) -> (r: Option<MutexGuard<'_, Receiver<Vec<u8>>>>)
{
    m.lock().ok()
}

/// Relies on `Receiver::recv_timeout`, through the guard that holds the
/// receiver: blocks for at most `ms` milliseconds and
/// hands back the next event, a timeout, or the disconnection of every sender.
#[verifier::external_body]
pub(crate) fn recv_within(rx: &MutexGuard<'_, Receiver<Vec<u8>>>, ms: u64) -> (r: RecvOutcome)
    requires
        ms == crate::poll::POLL_WAIT_MS,
{
    match rx.recv_timeout(std::time::Duration::from_millis(ms)) {
        Ok(event) => RecvOutcome::Event(event),
        Err(RecvTimeoutError::Timeout) => RecvOutcome::Timeout,
        Err(RecvTimeoutError::Disconnected) => RecvOutcome::Disconnected,
    }
}

/// Relies on `Sender::send`: `true` where the value was queued, `false` where the
/// receiving side has been dropped.
#[verifier::external_body]
pub(crate) fn send_signal(tx: &Sender<()>) -> (r: bool)
{
    tx.send(()).is_ok()
}

} // verus!
