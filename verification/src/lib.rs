//! A synchronisation bridge between blocking callers and an asynchronous media
//! engine.
//!
//! The bridge never talks to the engine itself. Every operation validates its
//! addressing against the [`registry::Bridge`], records what has to be
//! remembered, and yields the [`model::EngineCall`] that the embedding program
//! performs. Completions and events travel the other way: the embedding
//! program reports them, and the bridge fulfils the matching pending request
//! or feeds the registered listener.

pub mod api;
pub mod correlator;
pub mod error;
pub mod laws;
pub mod model;
pub mod registry;
pub mod stream_sink;
