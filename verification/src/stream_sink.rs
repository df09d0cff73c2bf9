//! Delivery of event streams to listeners, over two kinds of transport.
//!
//! [`rust_api::Sink`] feeds a listener inside the process through a channel.
//! [`dart_api::Sink`] feeds a listener on the other side of the language
//! boundary through a stream. Both are shared handles with the same two
//! abilities: `send` a value, best-effort, and end the stream when the last
//! handle is dropped.

use vstd::prelude::*;

pub mod dart_api;
pub mod rust_api;

pub use rust_api::Sink;

verus! {

/// A sink of notifications that carry no value, over either transport.
#[derive(Clone)]
pub enum Notifier {
    /// The listener is inside the process.
    Channel(rust_api::Sink<()>),
    /// The listener is on the other side of the language boundary.
    Stream(dart_api::Sink<()>),
}

impl Notifier {
    /// Notifies the listener and reports whether the notification was
    /// delivered.
    pub fn send(&self) -> (delivered: bool) {
        match self {
            Notifier::Channel(sink) => sink.send(()),
            Notifier::Stream(sink) => sink.send(()),
        }
    }
}

} // verus!
