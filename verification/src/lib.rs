//! A bidirectional byte relay that pairs a network connection with a local
//! byte-stream endpoint (a terminal, or a spawned engine's standard streams).
//!
//! The crate verifies the relay's coordination logic: the two pump
//! directions, the shared shutdown signal, the optional log sink that tees
//! traffic, and the supervision of one child process per server session.
//! The surrounding I/O (sockets, stdio, process spawning) is driven by an
//! unverified front end that reports each event to the verified session
//! model and performs the actions it prescribes.

pub mod config;
pub mod ip;
pub mod laws;
pub mod logsink;
pub mod relay;
pub mod signal;
pub mod supervisor;
pub mod text;

pub use signal::ShutdownSignal;
