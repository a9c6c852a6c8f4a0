//! Per-application and per-user directory resolution.
pub mod dirs;
pub mod location;
pub mod system;
