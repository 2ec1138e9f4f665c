//! Decisions of a chat bot that answers a few fixed phrases by joining or
//! leaving a voice channel, or by playing a track from a catalog. The platform
//! client runs the actions that the router returns.
pub mod catalog;
pub mod laws;
pub mod router;
pub mod text;
