//! Verified core of a command-line client for a remote algorithm and data
//! service: path classification for bulk transfers, the bounded work queue and
//! completion accounting of the concurrent copy engine, destination
//! resolution, and the configuration and endpoint logic around them.
//!
//! All I/O (network calls, the local filesystem, prompts, thread spawning)
//! lives outside this crate; the functions here take plain values, decide, and
//! hand plain values back.

pub mod auth;
pub mod cli;
pub mod commands;
pub mod config;
pub mod endpoint;
pub mod filetype;
pub mod format;
pub mod paths;
pub mod transfer;
pub mod strings;
