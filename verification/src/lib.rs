//! Bridge from an application-level interpreter-embedding configuration to
//! the native configuration value expected by an embedded language runtime.
//!
//! The library models the runtime's configuration struct, its status
//! protocol, and the marshaling of an argument vector into null-terminated
//! byte buffers. Every function here is verified; the raw foreign calls that
//! consume these values live outside the library.

pub mod argv;
pub mod config;
pub mod error;
pub mod native;
pub mod status;
