//! Adaptive playback and listening behaviour for a terminal music player.
//!
//! Fractional quantities are held in fixed point: volumes, weights and
//! percentages are whole numbers of millionths (see [`fixed`]). Instants are
//! milliseconds since the Unix epoch, spans of time are milliseconds, and
//! track and session identifiers are the 128 bits of a UUID.

pub mod audio;
pub mod behavior;
pub mod config;
pub mod export;
pub mod fixed;
pub mod spotify;
pub mod text;
pub mod trusted;
pub mod ui;

pub use audio::{AudioPlayer, MusicScanner, Track, TrackMetadata};
pub use behavior::{BehaviorTracker, PlaySession, PlaybackEvent, SkipReason, TrackBehavior};
pub use config::Config;
