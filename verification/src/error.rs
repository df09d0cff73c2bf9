//! Failures that the bridge reports to its callers.

use vstd::prelude::*;

verus! {

/// A typed failure of a bridge operation.
#[derive(Debug, Clone, PartialEq, Eq)]
pub enum BridgeError {
    /// No peer connection, transceiver, track or video sink has the given
    /// address.
    NotFound,
    /// A parameter is outside of its allowed range, or names something that
    /// already exists.
    Validation,
    /// The bounded wait expired before the engine completed the request.
    Timeout,
    /// The engine reported a failure of its own.
    Engine(String),
    /// The producing half of a pending request went away without fulfilling
    /// it.
    ChannelClosed,
}

impl BridgeError {
    /// A short human-readable description of this failure.
    pub fn message(&self) -> (text: String)
        ensures
            self matches BridgeError::Engine(reason) ==> text@ == reason@,
            self is NotFound ==> text@ == "not found"@,
            self is Validation ==> text@ == "validation failed"@,
            self is Timeout ==> text@ == "timed out"@,
            self is ChannelClosed ==> text@ == "channel closed"@,
    {
        match self {
            BridgeError::NotFound => "not found".to_string(),
            BridgeError::Validation => "validation failed".to_string(),
            BridgeError::Timeout => "timed out".to_string(),
            BridgeError::Engine(reason) => reason.clone(),
            BridgeError::ChannelClosed => "channel closed".to_string(),
        }
    }
}

} // verus!
