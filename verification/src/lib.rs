//! Verified core of a thin rendering client for a networked hexagon game.
//!
//! The client speaks a line-delimited JSON protocol to an authoritative
//! game server: it encodes one input frame per tick and decodes inbound
//! world-state snapshots, tolerating missing or malformed fields by
//! substituting documented defaults. This crate holds the wire codec,
//! the client-side world model with its full-replacement update
//! semantics, and the per-frame synchronization step; the windowing,
//! rendering and socket plumbing live outside it.
pub mod decode;
pub mod encode;
pub mod input;
pub mod json;
pub mod state;
pub mod sync;
