//! Paths, registry, errors, transactions and logging shared by the domains.

pub mod config;
pub mod gateway;
pub mod logger;
pub mod model;
pub mod text;
