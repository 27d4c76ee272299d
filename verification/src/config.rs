//! The configuration domains: one record type and one store for each.

pub mod calibration;
pub mod device;
pub mod profile;
pub mod storage;
pub mod stream;
