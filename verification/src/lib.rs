//! Layered configuration for a camera unit, with its loggers.
//!
//! Every configuration domain (device, storage, stream, calibration) has a
//! default file and an optional user file; a registry records, per domain,
//! which of the two is authoritative.  The library holds the rules: which
//! file is read, what an update changes, what is written and in which order.
//! It performs no input or output itself: a store operation is handed out as
//! a transaction that names the next piece of outside work and is advanced
//! with what came of it.

pub mod common;
pub mod config;
pub mod domains;
