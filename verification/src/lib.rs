//! Supervision of one backend server process on behalf of a desktop shell.
//!
//! The crate holds the decisions: which launch mode the environment calls
//! for, where the launch target lies, what the single handle slot does on
//! start and stop, and how window events are answered. Spawning, signalling
//! and probing the filesystem are left to the caller, which reports what it
//! observed as plain values.

pub mod command;
pub mod lifecycle;
pub mod mode;
pub mod resolve;
pub mod server;
pub mod supervisor;
pub mod text;
