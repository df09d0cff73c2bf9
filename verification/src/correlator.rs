//! One-shot completion slots with a bounded wait.
//!
//! Each asynchronous engine operation gets a fresh pair: a [`Producer`] that
//! fulfils the request at most once, and a [`Waiter`] that blocks its caller
//! for a bounded time. Both halves are consumed by use, so neither a second
//! fulfilment nor a second wait can be written.

use vstd::prelude::*;
use crate::error::BridgeError;
use crate::stream_sink::rust_api::channel_send;

verus! {

/// How long a caller waits for the engine, in milliseconds.
pub const RX_TIMEOUT_MILLIS: u64 = 5000;

#[verifier::external_type_specification]
#[verifier::external_body]
#[verifier::reject_recursive_types(T)]
pub struct ExReceiver<T>(std::sync::mpsc::Receiver<T>);

/// `std::sync::mpsc::channel` returns the two ends of a new channel. Nothing
/// is claimed of them.
pub assume_specification<T>[ std::sync::mpsc::channel::<T> ]() -> (ends: (
    std::sync::mpsc::Sender<T>,
    std::sync::mpsc::Receiver<T>,
));

/// `std::time::Duration::from_millis` builds a duration from whole
/// milliseconds; it accepts every `u64`.
pub assume_specification[ std::time::Duration::from_millis ](millis: u64) -> (span:
    std::time::Duration);

/// `std::sync::mpsc::Receiver::recv_timeout`: blocks until a value arrives,
/// the producing end is gone, or `span` has passed, and says which. A span
/// that reaches beyond what the clock can tell is waited for without bound.
/// The outcome depends on other threads and on the clock, so nothing is
/// claimed of it.
#[verifier::external_body]
fn receive_within<T>(receiver: &std::sync::mpsc::Receiver<T>, span: std::time::Duration) -> (outcome:
    WaitOutcome<T>) {
    match receiver.recv_timeout(span) {
        Ok(value) => WaitOutcome::Received(value),
        Err(std::sync::mpsc::RecvTimeoutError::Timeout) => WaitOutcome::Elapsed,
        Err(std::sync::mpsc::RecvTimeoutError::Disconnected) => WaitOutcome::Disconnected,
    }
}

/// How a bounded wait ended.
#[derive(Debug, Clone, PartialEq, Eq)]
pub enum WaitOutcome<T> {
    /// The producer fulfilled the request in time.
    Received(T),
    /// The time ran out first.
    Elapsed,
    /// The producer was dropped without fulfilling the request.
    Disconnected,
}

/// What a caller gets for each outcome of its wait: the value, a timeout, or
/// the report that the producer is gone.
pub open spec fn resolved<T>(outcome: WaitOutcome<T>) -> Result<T, BridgeError> {
    match outcome {
        WaitOutcome::Received(value) => Ok(value),
        WaitOutcome::Elapsed => Err(BridgeError::Timeout),
        WaitOutcome::Disconnected => Err(BridgeError::ChannelClosed),
    }
}

/// Turns the outcome of a wait into the caller's result.
pub fn resolve<T>(outcome: WaitOutcome<T>) -> (result: Result<T, BridgeError>)
    ensures
        result == resolved(outcome),
{
    match outcome {
        WaitOutcome::Received(value) => Ok(value),
        WaitOutcome::Elapsed => Err(BridgeError::Timeout),
        WaitOutcome::Disconnected => Err(BridgeError::ChannelClosed),
    }
}

/// The half of a pending request that fulfils it.
#[verifier::reject_recursive_types(T)]
pub struct Producer<T> {
    sender: std::sync::mpsc::Sender<T>,
}

/// The half of a pending request that waits for it.
#[verifier::reject_recursive_types(T)]
pub struct Waiter<T> {
    receiver: std::sync::mpsc::Receiver<T>,
}

/// Creates the two halves of a new pending request.
pub fn create<T>() -> (halves: (Producer<T>, Waiter<T>)) {
    let (tx, rx) = std::sync::mpsc::channel();
    (Producer { sender: tx }, Waiter { receiver: rx })
}

impl<T> Producer<T> {
    /// Fulfils the request with `value`. Reports `false` when nobody waits
    /// any more; the value is then dropped.
    pub fn fulfil(self, value: T) -> (accepted: bool) {
        channel_send(&self.sender, value)
    }
}

impl<T> Waiter<T> {
    /// Blocks for at most `millis` milliseconds and says how the wait ended.
    pub fn outcome_within(self, millis: u64) -> (outcome: WaitOutcome<T>) {
        let span = std::time::Duration::from_millis(millis);
        receive_within(&self.receiver, span)
    }

    /// Blocks for at most `millis` milliseconds. Returns the value if the
    /// producer fulfilled the request in time, [`BridgeError::Timeout`] if the
    /// time ran out, and [`BridgeError::ChannelClosed`] if the producer was
    /// dropped.
    pub fn wait_for(self, millis: u64) -> (result: Result<T, BridgeError>)
        ensures
            result is Err ==> result == Err::<T, BridgeError>(BridgeError::Timeout) || result
                == Err::<T, BridgeError>(BridgeError::ChannelClosed),
    {
        resolve(self.outcome_within(millis))
    }

    /// [`Waiter::wait_for`] with the default bound, [`RX_TIMEOUT_MILLIS`].
    pub fn wait(self) -> (result: Result<T, BridgeError>)
        ensures
            result is Err ==> result == Err::<T, BridgeError>(BridgeError::Timeout) || result
                == Err::<T, BridgeError>(BridgeError::ChannelClosed),
    {
        self.wait_for(RX_TIMEOUT_MILLIS)
    }
}

} // verus!
