//! Helpers that do not depend on the configuration domains.

pub mod logger;
