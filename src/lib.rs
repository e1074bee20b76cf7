//! A governance engine: an owner or its admins open named votes with their
//! own rules, eligible principals cast one ballot each, and the engine keeps
//! the tallies and the global statistics consistent under every transition.
//!
//! The engine works on an in-memory `Storage` that holds the singleton
//! configuration, the statistics and the keyed vote records. Loading that
//! store from a host's persistent storage and encoding messages is left to
//! the surrounding application.

pub mod errors;
pub mod types;
pub mod state;
pub mod guards;
pub mod stats;
pub mod execute;
pub mod queries;
pub mod contract;
pub mod consistency;
pub mod lifecycle;
