//! A live local mirror of one runtime-chosen resource type inside a
//! cluster-style API.
//!
//! The library resolves a group/version/kind to its endpoint metadata,
//! validates the requested watch scope, folds a possibly-interrupted
//! event stream into a consistent in-memory store, and provides the
//! deep-merge algebra used to compose partial typed specs. Network I/O
//! (discovery queries and the watch connection itself) lives outside the
//! library and hands it plain values.

pub mod backoff;
pub mod custom_resources;
pub mod event;
pub mod object;
pub mod resolver;
pub mod store;
pub mod target;
pub mod watch;
