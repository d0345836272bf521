//! Settings of the player.

use crate::audio::AudioConfig;
use crate::trusted::{joined_path, path_join};
use vstd::prelude::*;
use vstd::std_specs::convert::FromSpecImpl;
use vstd::string::*;

verus! {

/// All settings.
#[derive(Debug, Clone, PartialEq)]
pub struct Config {
    pub music_directories: Vec<String>,
    pub database_path: String,
    pub spotify: SpotifyConfig,
    pub behavior: BehaviorConfig,
    pub ui: UiConfig,
}

/// Settings of the Spotify integration.
#[derive(Debug, Clone, PartialEq)]
pub struct SpotifyConfig {
    pub client_id: Option<String>,
    pub redirect_uri: String,
}

/// Settings of the behaviour tracking.
#[derive(Debug, Clone, Copy, PartialEq)]
pub struct BehaviorConfig {
    pub skip_threshold_seconds: u64,
    /// Days without a play after which a track's weight is boosted.
    pub weight_decay_days: u64,
    /// Seconds a session must have been heard to count as a play.
    pub min_play_time_for_tracking: u64,
}

/// Settings of the interface.
#[derive(Debug, Clone, PartialEq)]
pub struct UiConfig {
    pub show_notifications: bool,
    pub notification_duration_ms: u64,
    pub theme: String,
}

impl Default for BehaviorConfig {
    /// A skip threshold of 30 s, a decay window of 30 days, and 10 s of
    /// listening for a play to count.
    fn default() -> (config: Self)
        ensures
            config == (BehaviorConfig {
                skip_threshold_seconds: 30,
                weight_decay_days: 30,
                min_play_time_for_tracking: 10,
            }),
    {
        BehaviorConfig {
            skip_threshold_seconds: 30,
            weight_decay_days: 30,
            min_play_time_for_tracking: 10,
        }
    }
}

impl Config {
    /// The settings used when none are stored. `config_dir` and `audio_dir`
    /// are the user's configuration and music directories, where the system
    /// names them; without them the current directory and `~/Music` stand
    /// in. The database lies in `panpipe/panpipe.db` under the configuration
    /// directory.
    pub fn with_directories(config_dir: Option<String>, audio_dir: Option<String>) -> (config: Self)
        ensures
            config.music_directories@.len() == 1,
            config.music_directories@[0]@ == match audio_dir {
                Some(dir) => dir@,
                None => "~/Music"@,
            },
            config.database_path@ == joined_path(
                joined_path(
                    match config_dir {
                        Some(dir) => dir@,
                        None => "."@,
                    },
                    "panpipe"@,
                ),
                "panpipe.db"@,
            ),
            config.spotify.client_id is None,
            config.spotify.redirect_uri@ == "http://localhost:8888/callback"@,
            config.behavior == (BehaviorConfig {
                skip_threshold_seconds: 30,
                weight_decay_days: 30,
                min_play_time_for_tracking: 10,
            }),
            config.ui.show_notifications,
            config.ui.notification_duration_ms == 3000,
            config.ui.theme@ == "default"@,
    {
        let base: String = match config_dir {
            Some(dir) => dir,
            None => ".".to_owned(),
        };
        let home: String = path_join(base.as_str(), "panpipe");
        let music: String = match audio_dir {
            Some(dir) => dir,
            None => "~/Music".to_owned(),
        };
        let mut music_directories: Vec<String> = Vec::new();
        music_directories.push(music);
        Config {
            music_directories,
            database_path: path_join(home.as_str(), "panpipe.db"),
            spotify: SpotifyConfig {
                client_id: None,
                redirect_uri: "http://localhost:8888/callback".to_owned(),
            },
            behavior: BehaviorConfig::default(),
            ui: UiConfig {
                show_notifications: true,
                notification_duration_ms: 3000,
                theme: "default".to_owned(),
            },
        }
    }
}

impl From<Config> for AudioConfig {
    /// The audio settings that go with `config`: the defaults.
    fn from(config: Config) -> (audio: AudioConfig) {
        AudioConfig::default()
    }
}

impl FromSpecImpl<Config> for AudioConfig {
    open spec fn obeys_from_spec() -> bool {
        true
    }

    open spec fn from_spec(config: Config) -> AudioConfig {
        AudioConfig {
            volume: 700_000,
            crossfade_duration: 500,
            fade_in_duration: 300,
            fade_out_duration: 200,
            buffer_size: 65536,
            sample_rate: 44100,
            channels: 2,
        }
    }
}

} // verus!
