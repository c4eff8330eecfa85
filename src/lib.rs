//! Liveness tracing, handle remapping and interface validation for a
//! handle-indexed shader IR.

pub mod bits;
pub mod compact;
pub mod ir;
pub mod valid;
pub mod valid_laws;
