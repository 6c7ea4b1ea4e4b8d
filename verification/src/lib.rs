//! Core of a clipboard-saving hotkey utility.
//!
//! Two verified components make up the library: a hotkey recognizer that
//! turns a stream of key-transition events into "activate" signals, and a
//! clipboard content resolver that classifies a clipboard snapshot (image,
//! structured text, plain text, or empty) and derives a deterministic file
//! name and the exact bytes to persist. Platform glue (the input hook, the
//! clipboard read, the file write, notifications) lives outside the library
//! and exchanges plain values with it.

pub mod formats;
pub mod hashing;
pub mod hotkey;
pub mod naming;
pub mod resolver;
