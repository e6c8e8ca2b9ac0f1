//! Core of a clipboard-history utility: a bounded stack of text snapshots,
//! a controller that reacts to clipboard events and user commands, a backoff
//! discipline for acquiring the contended clipboard, and the parser for the
//! configuration file that drives it all.
//!
//! Everything that touches the operating system (the clipboard itself, the
//! message pump, hotkey registration, the configuration file on disk) lives
//! outside this crate; the functions here work on plain values and carry
//! contracts for what they compute.

pub mod bytes;
pub mod clipboard;
pub mod stack;
pub mod hotkey;
pub mod config;
pub mod controller;
pub mod backoff;
