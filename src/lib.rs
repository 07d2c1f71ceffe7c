//! Helpers for programs that talk to a user on the console.
//!
//! The console I/O itself (printing a prompt, flushing, reading a line) is
//! left to the caller; this crate holds the part that decides what the
//! caller gets back from a line that was read.
pub mod utils;
