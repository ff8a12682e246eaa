//! Launches a Windows program through a compatibility-layer runner inside an
//! isolated prefix, optionally wrapped by the gamescope compositor.
//!
//! The library holds the logic: the configuration record and its defaults,
//! the decisions taken while loading or creating the configuration file, and
//! the assembly of the child-process invocation. Reading files, looking up the
//! process environment and spawning processes are left to the caller.
pub mod commands;
pub mod config;
pub mod errors;
