//! Core engine of a command-line launcher that runs developer tools inside
//! containers: it resolves a per-project configuration document by walking the
//! directory tree upward, decides how a requested command is executed (fresh
//! ephemeral container, exec into a running one, detached background
//! container, or direct passthrough when already inside a container), and
//! assembles the ordered engine argument lists.
//!
//! The crate holds the decision logic only. Reading files, spawning the
//! container engine and replacing the process image are left to the caller,
//! which feeds results back as plain values and events.

pub mod assemble;
pub mod cli;
pub mod document;
pub mod errors;
pub mod expand;
pub mod identity;
pub mod laws;
pub mod lifecycle;
pub mod model;
pub mod resolve;
pub mod text;
pub mod version;
