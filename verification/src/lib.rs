//! Introspection of a foreign process's memory: signatures, relative
//! addresses, structure overlays, pointer chains, object pools and detours,
//! stated over a byte image of that memory.
//!
//! The library decides and computes; it touches no memory but the images it
//! is handed, and makes no call into the foreign process. Where a call is
//! due there, it returns the call as a value.

pub mod bytes;
pub mod memory;
pub mod pattern;
pub mod resolver;
pub mod pointer;
pub mod overlay;
pub mod definitions;
pub mod detour;
pub mod exposure;
pub mod context;
pub mod detect_api;
pub mod util;
