//! Adapter between the Envoy rate-limit service protocol and a rate-limit
//! decision engine.
//!
//! A request names a domain and carries descriptors, lists of key/value
//! attributes, and a hit count. The adapter merges the attributes of all
//! descriptors into one context, takes a hit count of zero for one, has the
//! decision engine asked about them, and turns the engine's verdict, or its
//! failure, into the result of the call.

pub mod context;
pub mod engine;
pub mod envoy;
pub mod hits;
pub mod server;
pub mod transport;
