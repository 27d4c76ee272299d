//! What the configuration domains have in common.

pub mod common;
