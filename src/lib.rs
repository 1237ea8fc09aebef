//! Host-side bridge to an out-of-process text sanitization engine: the wire
//! data model, the engine locator and the process-bridge decisions.

pub mod contract;
pub mod error;
pub mod wire;
pub mod locator;
pub mod bridge;
