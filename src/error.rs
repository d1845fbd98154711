use vstd::prelude::*;

verus! {

/// The failures that the bridge reports to its host.
#[derive(Clone, Copy, Debug, PartialEq, Eq, Structural)]
pub enum BridgeError {
    /// The guard on the shared receive end could not be obtained.
    GuardAcquisitionFailure,
    /// The producer side of the event channel is gone.
    ChannelDisconnected,
    /// The shutdown notification could not be delivered.
    SignalDeliveryFailure,
}

/// The human-readable cause that the host sees for each error.
pub open spec fn cause_of(e: BridgeError) -> Seq<char> {
    match e {
        BridgeError::GuardAcquisitionFailure => "Could not obtain lock on receiver"@,
        BridgeError::ChannelDisconnected => "Failed to receive event"@,
        BridgeError::SignalDeliveryFailure => "sending on a closed channel"@,
    }
}

impl BridgeError {
    /// The cause string handed to the host's callback or return path.
    pub fn message(&self) -> (r: String)
        ensures
            r@ == cause_of(*self),
    {
        match self {
            BridgeError::GuardAcquisitionFailure => "Could not obtain lock on receiver".to_string(),
            BridgeError::ChannelDisconnected => "Failed to receive event".to_string(),
            BridgeError::SignalDeliveryFailure => "sending on a closed channel".to_string(),
        }
    }
}

} // verus!
