//! Playback-continuation core of a multi-guild voice-streaming bot: a
//! per-guild FIFO playlist, concurrency-safe registries for playlists and
//! per-guild settings, and the state machine that advances playback when a
//! track ends and applies the auto-leave policy when the playlist runs out.

pub mod config;
pub mod engine;
pub mod laws;
pub mod metadata;
pub mod playlist;
pub mod registry;
pub mod track_end;
