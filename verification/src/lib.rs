//! Decision core of a one-shot launcher that moves the user's Spotify
//! session onto a Fire TV: ADB connect/wake state machines, screen-state
//! detection, token-cache handling, and the playback-transfer decision.
//! All process, network and file I/O lives outside this crate; the
//! functions here take the observed outputs as plain values and are
//! verified against exact contracts.
pub mod adb;
pub mod config;
pub mod errors;
pub mod text;
pub mod token;
pub mod transfer;
