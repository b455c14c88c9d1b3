//! A live build server library: it watches TeX-like source documents, rebuilds
//! each one through an external command whenever the source changes, records
//! the outcome of every build in a shared state store, and answers HTTP-style
//! requests about build state, compiled artifacts and build logs.
//!
//! This crate holds the verified core: the build state store, the per-source
//! watch-worker state machine, the request router with its response builders,
//! and the string and path derivations they rely on. Process spawning, file
//! reading and the network listener live outside the library and exchange
//! plain values with it.

pub mod escape;
pub mod router;
pub mod state;
pub mod paths;
pub mod strutil;
pub mod worker;
