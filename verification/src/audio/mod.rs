//! Audio: tracks, formats, and the playback engine.

pub mod metadata_parser;
pub mod player;
pub mod playlist;
pub mod scanner;
pub mod track;

pub use player::{AudioPlayer, PlaybackState};
pub use scanner::MusicScanner;
pub use track::{Track, TrackMetadata};

use crate::text::same_text;
use crate::trusted::{lowercase_text, to_lowercase};
use vstd::prelude::*;

verus! {

/// Settings of the playback engine.
#[derive(Debug, Clone, Copy, PartialEq)]
pub struct AudioConfig {
    /// Volume in millionths of full volume.
    pub volume: u64,
    /// Milliseconds.
    pub crossfade_duration: u64,
    /// Milliseconds a track takes to fade in.
    pub fade_in_duration: u64,
    /// Milliseconds a track takes to fade out when stopped.
    pub fade_out_duration: u64,
    pub buffer_size: usize,
    pub sample_rate: u32,
    pub channels: u16,
}

impl Default for AudioConfig {
    /// Volume 0.7, fade-in 300 ms, fade-out 200 ms, crossfade 500 ms, a
    /// 64 KiB buffer, 44.1 kHz stereo.
    fn default() -> (config: Self)
        ensures
            config == (AudioConfig {
                volume: 700_000,
                crossfade_duration: 500,
                fade_in_duration: 300,
                fade_out_duration: 200,
                buffer_size: 65536,
                sample_rate: 44100,
                channels: 2,
            }),
    {
        AudioConfig {
            volume: 700_000,
            crossfade_duration: 500,
            fade_in_duration: 300,
            fade_out_duration: 200,
            buffer_size: 65536,
            sample_rate: 44100,
            channels: 2,
        }
    }
}

/// The container format of an audio file.
#[derive(Debug, Clone, Copy, PartialEq, Eq, Structural)]
pub enum AudioFormat {
    Mp3,
    Flac,
    Ogg,
    Mp4,
    Wav,
    Unknown,
}

/// The format that a file name extension in small letters stands for.
pub open spec fn format_of(extension: Seq<char>) -> AudioFormat {
    if extension == "mp3"@ {
        AudioFormat::Mp3
    } else if extension == "flac"@ {
        AudioFormat::Flac
    } else if extension == "ogg"@ || extension == "oga"@ {
        AudioFormat::Ogg
    } else if extension == "mp4"@ || extension == "m4a"@ || extension == "aac"@ {
        AudioFormat::Mp4
    } else if extension == "wav"@ {
        AudioFormat::Wav
    } else {
        AudioFormat::Unknown
    }
}

impl AudioFormat {
    /// The format that an extension written in small letters stands for.
    pub fn from_lowercase_extension(extension: &str) -> (format: Self)
        ensures
            format == format_of(extension@),
    {
        if same_text(extension, "mp3") {
            AudioFormat::Mp3
        } else if same_text(extension, "flac") {
            AudioFormat::Flac
        } else if same_text(extension, "ogg") || same_text(extension, "oga") {
            AudioFormat::Ogg
        } else if same_text(extension, "mp4") || same_text(extension, "m4a") || same_text(
            extension,
            "aac",
        ) {
            AudioFormat::Mp4
        } else if same_text(extension, "wav") {
            AudioFormat::Wav
        } else {
            AudioFormat::Unknown
        }
    }

    /// The format that a file name extension stands for, whatever the case
    /// of its letters.
    pub fn from_extension(ext: &str) -> (format: Self)
        ensures
            format == format_of(lowercase_text(ext@)),
    {
        let lowered: String = to_lowercase(ext);
        Self::from_lowercase_extension(lowered.as_str())
    }

    /// Whether files of this format can be played: all but `Unknown`.
    pub fn is_supported(&self) -> (supported: bool)
        ensures
            supported == !(*self is Unknown),
    {
        match self {
            AudioFormat::Unknown => false,
            _ => true,
        }
    }
}

} // verus!
