//! Presence synchronization engine: mirrors a media server's playback
//! activity into an external presence channel.
//!
//! The library holds the engine's decisions — rule evaluation, activity
//! building, the worker state machine and the controller state — as
//! verified functions over plain data. All I/O (polling the media
//! server, the presence channel socket, the config file) stays with the
//! caller, which feeds outcomes back into these functions.

pub mod activity;
pub mod channel;
pub mod config;
pub mod controller;
pub mod libraries;
pub mod media;
pub mod rules;
pub mod settings;
pub mod worker;
