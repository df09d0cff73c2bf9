//! The producing end of an event stream inside the process.
//!
//! A [`Sink`] is a handle on a channel. Handles can be cloned and handed to
//! any thread; the listener learns that the stream is over when the last
//! handle has been dropped. Delivery is best-effort: `send` reports `false`
//! once the listener is gone, and that is no error.

use vstd::prelude::*;

verus! {

#[verifier::external_type_specification]
#[verifier::external_body]
#[verifier::reject_recursive_types(T)]
pub struct ExSender<T>(std::sync::mpsc::Sender<T>);

/// `std::sync::mpsc::Sender::send`, reduced to whether the value was handed
/// over. The standard library promises that the call neither blocks nor
/// panics; whether it succeeds depends on the receiving side, so nothing is
/// claimed of the result.
#[verifier::external_body]
pub(crate) fn channel_send<T>(sender: &std::sync::mpsc::Sender<T>, value: T) -> (delivered: bool) {
    sender.send(value).is_ok()
}

/// `std::sync::mpsc::Sender::clone` gives another handle on the same
/// channel. Nothing is claimed of it.
pub assume_specification<T>[ <std::sync::mpsc::Sender<T> as Clone>::clone ](
    sender: &std::sync::mpsc::Sender<T>,
) -> (other: std::sync::mpsc::Sender<T>);

/// A handle on the producing end of an event stream.
#[derive(Clone)]
#[verifier::reject_recursive_types(T)]
pub struct Sink<T> {
    sender: std::sync::mpsc::Sender<T>,
}

impl<T> Sink<T> {
    /// Hands `value` to the listener and reports whether it was handed over.
    /// Once the listener is gone every call reports `false`; the value is
    /// dropped then.
    pub fn send(&self, value: T) -> (delivered: bool) {
        channel_send(&self.sender, value)
    }
}

impl<T> From<std::sync::mpsc::Sender<T>> for Sink<T> {
    /// Wraps the producing end of a channel.
    fn from(sender: std::sync::mpsc::Sender<T>) -> (sink: Self) {
        Sink { sender }
    }
}

impl<T> vstd::std_specs::convert::FromSpecImpl<std::sync::mpsc::Sender<T>> for Sink<T> {
    open spec fn obeys_from_spec() -> bool {
        true
    }

    closed spec fn from_spec(sender: std::sync::mpsc::Sender<T>) -> Self {
        Sink { sender }
    }
}

} // verus!
