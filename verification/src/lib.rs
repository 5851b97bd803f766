//! Layered configuration resolution and orchestration for a small
//! build-and-install tool.
//!
//! The library holds the verified core: pairing raw command-line tokens,
//! reading key/value entries of the project config file into a raw
//! configuration, merging built-in defaults, config file and command-line
//! overrides under a fixed precedence, deciding which ancestor directory
//! holds the config file, and sequencing the build and install stages as a
//! state machine. All filesystem access, process spawning and the config
//! file's surface syntax live outside the library and hand it plain values.

pub mod args;
pub mod config;
pub mod locate;
pub mod options;
pub mod orchestrate;
pub mod resolve;
