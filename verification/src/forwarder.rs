//! Following a growing log file from a remembered offset.

pub mod checkpoint;
pub mod error;
pub mod file;
pub mod tail;
