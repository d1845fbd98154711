use crate::channel::{lock_receiver, recv_within, RecvOutcome};
use crate::error::BridgeError;
use std::sync::mpsc::Receiver;
use std::sync::{Arc, Mutex};
use vstd::prelude::*;

verus! {

/// How long one poll waits for an event, in milliseconds.
pub const POLL_WAIT_MS: u64 = 100;

/// The tag that every delivered event carries.
pub open spec fn event_tag() -> Seq<char> {
    "coreEvent"@
}

/// A receive outcome, with its payload as a sequence.
pub enum Received {
    Event(Seq<u8>),
    Timeout,
    Disconnected,
}

impl View for RecvOutcome {
    type V = Received;

    open spec fn view(&self) -> Received {
        match self {
            RecvOutcome::Event(v) => Received::Event(v@),
            RecvOutcome::Timeout => Received::Timeout,
            RecvOutcome::Disconnected => Received::Disconnected,
        }
    }
}

/// What the host's callback is handed at the end of one poll.
pub enum Delivery {
    /// A success value carrying a tagged event.
    Event { name: Seq<char>, data: Seq<u8> },
    /// A success value that says "no data".
    NoData,
    /// A failure value.
    Failure(BridgeError),
}

/// A task's result, with its payload as a sequence.
pub open spec fn result_seq(r: Result<Option<Vec<u8>>, BridgeError>) -> Result<Option<Seq<u8>>, BridgeError> {
    match r {
        Ok(Some(v)) => Ok(Some(v@)),
        Ok(None) => Ok(None),
        Err(e) => Err(e),
    }
}

/// The result of a task whose receive came back with `o`.
pub open spec fn outcome_result(o: Received) -> Result<Option<Seq<u8>>, BridgeError> {
    match o {
        Received::Event(d) => Ok(Some(d)),
        Received::Timeout => Ok(None),
        Received::Disconnected => Err(BridgeError::ChannelDisconnected),
    }
}

/// What the callback is handed for a task's result.
pub open spec fn delivery(r: Result<Option<Seq<u8>>, BridgeError>) -> Delivery {
    match r {
        Ok(Some(d)) => Delivery::Event { name: event_tag(), data: d },
        Ok(None) => Delivery::NoData,
        Err(e) => Delivery::Failure(e),
    }
}

/// An event as the host sees it: `{event, data}`.
pub struct CoreEvent {
    pub event: String,
    pub data: Vec<u8>,
}

/// The delivery that a completed task's value stands for.
pub open spec fn delivery_view(r: Result<Option<CoreEvent>, BridgeError>) -> Delivery {
    match r {
        Ok(Some(ce)) => Delivery::Event { name: ce.event@, data: ce.data@ },
        Ok(None) => Delivery::NoData,
        Err(e) => Delivery::Failure(e),
    }
}

/// Turns one receive outcome into the task's result: an event is a success
/// with data, a timeout a success without, a disconnection an error.
pub fn classify(outcome: RecvOutcome) -> (r: Result<Option<Vec<u8>>, BridgeError>)
    ensures
        result_seq(r) == outcome_result(outcome@),
{
    match outcome {
        RecvOutcome::Event(event) => Ok(Some(event)),
        RecvOutcome::Timeout => Ok(None),
        RecvOutcome::Disconnected => Err(BridgeError::ChannelDisconnected),
    }
}

/// One scheduled attempt to take the next event off the shared receive end.
pub struct EventEmitterTask(pub Arc<Mutex<Receiver<Vec<u8>>>>);

/// The result of one attempt: `None` where the guard could not be taken, so
/// that nothing was received, else what the bounded receive came back with.
pub fn attempt_result(received: Option<RecvOutcome>) -> (r: Result<Option<Vec<u8>>, BridgeError>)
    ensures
        received is None ==> r == Err::<Option<Vec<u8>>, BridgeError>(BridgeError::GuardAcquisitionFailure),
        received matches Some(o) ==> result_seq(r) == outcome_result(o@),
{
    match received {
        None => Err(BridgeError::GuardAcquisitionFailure),
        Some(outcome) => classify(outcome),
    }
}

impl EventEmitterTask {
    /// The work done away from the host thread: take the guard, then wait at
    /// most `POLL_WAIT_MS` for one event. Where the guard cannot be taken,
    /// nothing is received and the result is `GuardAcquisitionFailure`.
    pub fn perform(&self) -> (r: Result<Option<Vec<u8>>, BridgeError>)
        ensures
            result_seq(r) == Err::<Option<Seq<u8>>, BridgeError>(BridgeError::GuardAcquisitionFailure)
                || exists|o: Received| result_seq(r) == outcome_result(o),
    {
        match lock_receiver(&self.0) {
            None => attempt_result(None),
            Some(rx) => {
                let outcome = recv_within(&rx, POLL_WAIT_MS);
                let ghost o = outcome@;
                let r = attempt_result(Some(outcome));
                assert(result_seq(r) == outcome_result(o));
                r
            },
        }
    }

    /// The work done back on the host thread: an event becomes a tagged
    /// `{event, data}` value, a timeout "no data", an error stays an error.
    pub fn complete(self, event: Result<Option<Vec<u8>>, BridgeError>) -> (r: Result<Option<CoreEvent>, BridgeError>)
        ensures
            delivery_view(r) == delivery(result_seq(event)),
    {
        match event {
            Err(e) => Err(e),
            Ok(None) => Ok(None),
            Ok(Some(result)) => {
                let event_name = "coreEvent".to_string();
                proof {
                    reveal_strlit("coreEvent");
                }
                Ok(Some(CoreEvent { event: event_name, data: result }))
            },
        }
    }
}

} // verus!
