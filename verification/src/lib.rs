//! Decision core of a TCP connect scanner.
//!
//! The crate holds everything a scan decides: which ports are probed and in
//! what order, which address of a lookup is scanned, how a connect attempt is
//! classified, and when the next probe may start. Sockets, timers and the
//! terminal belong to the caller, which performs the actions that a
//! [`engine::ScanSession`] hands out and reports back what happened.

pub mod config;
pub mod engine;
pub mod model;
pub mod port_set;
pub mod ports;
pub mod probe;
pub mod resolve;
