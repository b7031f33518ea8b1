//! The core of a satellite tracking service: a registry of tracked objects
//! behind one lock, the schedule of its periodic refresh, the table of HTTP
//! routes with their handlers, and the rule that picks where frontend files
//! are served from.
//!
//! Everything here works on plain values. Sockets, files, the async runtime
//! and JSON encoding live with the caller.

pub mod api;
pub mod assets;
pub mod clock;
pub mod config;
pub mod model;
pub mod registry;
pub mod scheduler;
pub mod store;
pub mod text;

pub use crate::store::AppState;
