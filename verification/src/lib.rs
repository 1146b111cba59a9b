//! A verified core for a line-oriented text-adventure engine.
//!
//! Clients walk a directed graph of narrative scenes by sending one-line
//! numeric choices; some scenes are gated by a turn-based battle that must be
//! won before the scene's own options are offered.  This crate holds the
//! engine's logic — input parsing, the narrative and battle state machines,
//! the scene catalogs with their integrity checks, and the per-connection
//! session state machine with its pure rendering — all with proved contracts.
//! Transport, asset decoding and other I/O stay outside and talk to the
//! library in plain values.

pub mod battle;
pub mod catalog;
pub mod render;
pub mod scenes;
pub mod session;
pub mod text;
