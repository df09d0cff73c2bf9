//! A handle on a stream that crosses the language boundary.
//!
//! Such a stream does not end by itself: it has to be closed, once, and not
//! before the last value has been added. A [`Sink`] shares the stream among
//! its clones, and the clone that is dropped last closes it.

use vstd::prelude::*;

verus! {

#[verifier::external_type_specification]
#[verifier::external_body]
#[verifier::reject_recursive_types(T)]
pub struct ExStreamSink<T>(flutter_rust_bridge::StreamSink<T>);

/// `flutter_rust_bridge::StreamSink::close` posts the closing message to the
/// other side of the stream and returns whether it was taken. It does not
/// panic. Whether the message is taken depends on the other side, so nothing
/// is claimed of the result.
#[verifier::external_body]
fn stream_close<T>(stream: &flutter_rust_bridge::StreamSink<T>) -> (posted: bool)
    opens_invariants none
    no_unwind
{
    stream.close()
}

/// `std::sync::Arc::get_mut` gives the shared value if no other handle shares
/// it, and nothing otherwise. It does not panic. Which of the two it is
/// depends on the other handles, so nothing is claimed of the result.
#[verifier::external_body]
fn sole_owner<T>(shared: &mut std::sync::Arc<flutter_rust_bridge::StreamSink<T>>) -> (stream: Option<
    &mut flutter_rust_bridge::StreamSink<T>,
>)
    opens_invariants none
    no_unwind
{
    std::sync::Arc::get_mut(shared)
}

/// A shared handle on a stream, which is closed when the last handle is
/// dropped.
#[derive(Clone)]
#[verifier::reject_recursive_types(T)]
pub struct Sink<T> {
    stream: std::sync::Arc<flutter_rust_bridge::StreamSink<T>>,
}

impl<T> Sink<T> {
    /// Adds `value` to the stream and reports whether the other side took it.
    ///
    /// This is `flutter_rust_bridge::StreamSink::add`, which converts the
    /// value for the other side and posts it. It reports `false` when the
    /// value could not be posted or the stream has been closed. Nothing is
    /// claimed of the result.
    #[verifier::external_body]
    pub fn send<D: flutter_rust_bridge::support::IntoDart>(&self, value: T) -> (delivered: bool) where
        T: flutter_rust_bridge::rust2dart::IntoIntoDart<D>,
     {
        self.stream.add(value)
    }
}

impl<T> From<flutter_rust_bridge::StreamSink<T>> for Sink<T> {
    /// Takes a stream into shared ownership.
    fn from(val: flutter_rust_bridge::StreamSink<T>) -> (sink: Self) {
        Sink { stream: std::sync::Arc::new(val) }
    }
}

impl<T> vstd::std_specs::convert::FromSpecImpl<flutter_rust_bridge::StreamSink<T>> for Sink<T> {
    open spec fn obeys_from_spec() -> bool {
        true
    }

    closed spec fn from_spec(val: flutter_rust_bridge::StreamSink<T>) -> Self {
        Sink { stream: std::sync::Arc::new(val) }
    }
}

impl<T> Drop for Sink<T> {
    /// Closes the stream if this is the last handle on it.
    fn drop(&mut self)
        opens_invariants none
        no_unwind
    {
        match sole_owner(&mut self.stream) {
            Some(stream) => {
                stream_close(stream);
            },
            None => {},
        }
    }
}

} // verus!
