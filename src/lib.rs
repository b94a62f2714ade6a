//! Safe, typed snapshots of host telemetry (CPU, memory, network,
//! processes) taken through sigar's handle-based native interface.
//!
//! The native calls themselves are made by the host program. This crate
//! decides, step by step, what the next native call is ([`session`]), maps
//! native status codes to [`Error`], and turns the raw fixed-layout records
//! into owned values.
pub mod cpu;
pub mod integer;
pub mod mem;
pub mod net;
pub mod process;
pub mod result;
pub mod session;
pub mod util;

pub use result::{Error, SigarResult};
pub use util::strip_bytes;
