//! Verified rendering core for a media-session diagnostic dump.
//!
//! The host operating system's media transport-control facility exposes the
//! currently active media session: its source application, media metadata,
//! playback state and timeline position. This library turns snapshots of that
//! state, handed over as plain values, into the exact lines of the textual
//! dump, and decides when the dump fails instead. All formatting and all
//! decisions are verified; fetching the snapshots from the platform is left
//! to the surrounding binary.

pub mod enums;
pub mod laws;
pub mod render;
pub mod snapshot;
pub mod text;
