use crate::channel::send_signal;
use crate::error::BridgeError;
use crate::poll::EventEmitterTask;
use std::sync::mpsc::{Receiver, Sender};
use std::sync::{Arc, Mutex};
use vstd::prelude::*;

verus! {

/// The result of a shutdown whose notification was (`sent`) or was not delivered.
pub open spec fn signal_result(sent: bool) -> Result<(), BridgeError> {
    if sent {
        Ok(())
    } else {
        Err(BridgeError::SignalDeliveryFailure)
    }
}

/// Maps the delivery of the shutdown notification to what the host is told.
pub fn shutdown_result(sent: bool) -> (r: Result<(), BridgeError>)
    ensures
        r == signal_result(sent),
{
    if sent {
        Ok(())
    } else {
        Err(BridgeError::SignalDeliveryFailure)
    }
}

/// One `shutdown` on a signal that has (`fired`) or has not fired yet, where
/// a send would be `delivered`: the outcome and whether the signal has fired
/// afterwards. The signal fires once: after a delivered notification every
/// later `shutdown` fails without sending.
pub open spec fn shutdown_step(fired: bool, delivered: bool) -> (Result<(), BridgeError>, bool) {
    if fired {
        (Err(BridgeError::SignalDeliveryFailure), true)
    } else {
        (signal_result(delivered), delivered)
    }
}

/// The host-visible handle: a shared receive end of the event channel and the
/// send end of the fire-once shutdown signal, which it alone owns.
pub struct EventEmitter {
    events: Arc<Mutex<Receiver<Vec<u8>>>>,
    shutdown: Sender<()>,
    fired: bool,
}

impl EventEmitter {
    /// A handle on the producer's shared receive end, with its own shutdown
    /// send end, whose signal has not fired.
    pub fn new(events: Arc<Mutex<Receiver<Vec<u8>>>>, shutdown: Sender<()>) -> (r: EventEmitter)
        ensures
            r.events() == events,
            r.shutdown_end() == shutdown,
            !r.fired(),
    {
        EventEmitter { events, shutdown, fired: false }
    }

    /// The shared receive end that every task of this handle reads from.
    pub closed spec fn events(&self) -> Arc<Mutex<Receiver<Vec<u8>>>> {
        self.events
    }

    /// The send end of this handle's shutdown signal.
    pub closed spec fn shutdown_end(&self) -> Sender<()> {
        self.shutdown
    }

    /// Whether a shutdown notification has been delivered.
    pub closed spec fn fired(&self) -> bool {
        self.fired
    }

    /// A new polling task bound to this handle's receive end, for the host to
    /// schedule off its own thread.
    pub fn poll(&self) -> (r: EventEmitterTask)
        ensures
            r.0 == self.events(),
    {
        EventEmitterTask(Arc::clone(&self.events))
    }

    /// Sends the shutdown notification, once. Fails with `SignalDeliveryFailure`
    /// where it could not be delivered, and without sending where it already was.
    pub fn shutdown(&mut self) -> (r: Result<(), BridgeError>)
        ensures
            final(self).events() == old(self).events(),
            final(self).shutdown_end() == old(self).shutdown_end(),
            old(self).fired() ==> (r, final(self).fired()) == shutdown_step(true, false),
            !old(self).fired() ==> (r, final(self).fired()) == shutdown_step(false, true) || (r, final(self).fired())
                == shutdown_step(false, false),
    {
        if self.fired {
            return shutdown_result(false);
        }
        let sent = send_signal(&self.shutdown);
        self.fired = sent;
        shutdown_result(sent)
    }
}

/// After a `shutdown` that succeeded, a second one fails, whatever a send would
/// do; after one that failed on an unfired signal, the second fails too where
/// a send still would not be delivered.
pub proof fn lemma_shutdown_twice(fired: bool, first: bool, second: bool)
    ensures
        shutdown_step(fired, first).0 is Ok ==> shutdown_step(shutdown_step(fired, first).1, second).0
            == Err::<(), BridgeError>(BridgeError::SignalDeliveryFailure),
        shutdown_step(fired, first).0 is Err && first == second ==> shutdown_step(
            shutdown_step(fired, first).1,
            second,
        ).0 == shutdown_step(fired, first).0,
{
}

} // verus!
