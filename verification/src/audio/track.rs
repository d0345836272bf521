//! Tracks of the music library.

use crate::audio::{format_of, AudioFormat};
use crate::text::copy_text;
use crate::trusted::{
    extension_text, file_stem_text, fresh_uuid, is_random_uuid, lowercase_text, path_extension,
    path_file_stem, xxh64, xxh64_digest,
};
use vstd::prelude::*;
use vstd::string::*;

verus! {

/// What the tags of an audio file say about it.
#[derive(Debug, PartialEq)]
pub struct TrackMetadata {
    pub title: Option<String>,
    pub artist: Option<String>,
    pub album: Option<String>,
    pub album_artist: Option<String>,
    pub track_number: Option<u32>,
    pub disc_number: Option<u32>,
    pub year: Option<u32>,
    pub genre: Option<String>,
    pub duration_ms: Option<u64>,
}

impl Default for TrackMetadata {
    /// Metadata that says nothing.
    fn default() -> (metadata: Self)
        ensures
            metadata == TrackMetadata::empty(),
    {
        TrackMetadata {
            title: None,
            artist: None,
            album: None,
            album_artist: None,
            track_number: None,
            disc_number: None,
            year: None,
            genre: None,
            duration_ms: None,
        }
    }
}

impl Clone for TrackMetadata {
    fn clone(&self) -> (copy: Self)
        ensures
            copy == *self,
    {
        TrackMetadata {
            title: copy_text(&self.title),
            artist: copy_text(&self.artist),
            album: copy_text(&self.album),
            album_artist: copy_text(&self.album_artist),
            track_number: self.track_number,
            disc_number: self.disc_number,
            year: self.year,
            genre: copy_text(&self.genre),
            duration_ms: self.duration_ms,
        }
    }
}

impl TrackMetadata {
    /// Metadata with every field missing.
    pub open spec fn empty() -> TrackMetadata {
        TrackMetadata {
            title: None,
            artist: None,
            album: None,
            album_artist: None,
            track_number: None,
            disc_number: None,
            year: None,
            genre: None,
            duration_ms: None,
        }
    }
}

/// One audio file of the library.
#[derive(Debug, PartialEq)]
pub struct Track {
    pub id: u128,
    pub file_path: String,
    pub metadata: TrackMetadata,
    pub format: AudioFormat,
    pub file_size: u64,
    /// Length in milliseconds, when known.
    pub duration: Option<u64>,
    /// XXH64 digest of the head of the file, once computed.
    pub content_hash: Option<u64>,
}

impl Clone for Track {
    fn clone(&self) -> (copy: Self)
        ensures
            copy == *self,
    {
        Track {
            id: self.id,
            file_path: self.file_path.clone(),
            metadata: self.metadata.clone(),
            format: self.format,
            file_size: self.file_size,
            duration: self.duration,
            content_hash: self.content_hash,
        }
    }
}

/// The format that the extension of a path stands for.
pub open spec fn format_of_path(path: Seq<char>) -> AudioFormat {
    match extension_text(path) {
        Some(extension) => format_of(lowercase_text(extension)),
        None => AudioFormat::Unknown,
    }
}

/// Milliseconds by which two lengths must differ for the later one to
/// replace the earlier.
pub const LEARNING_TOLERANCE_MS: u64 = 2000;

/// The length of a track after a playback of `actual` milliseconds was
/// observed: an unknown length is learned outright, a known one is replaced
/// only when the two differ by more than two seconds.
pub open spec fn learned_duration(known: Option<u64>, actual: u64) -> Option<u64> {
    match known {
        None => Some(actual),
        Some(existing) => if actual - existing > LEARNING_TOLERANCE_MS || existing - actual
            > LEARNING_TOLERANCE_MS {
            Some(actual)
        } else {
            known
        },
    }
}

impl Track {
    /// A track for the file at `file_path`, under the given identifier: its
    /// format by the path's extension, nothing else known.
    pub fn with_id(id: u128, file_path: String) -> (track: Self)
        ensures
            track == (Track {
                id,
                file_path,
                metadata: TrackMetadata::empty(),
                format: format_of_path(file_path@),
                file_size: 0,
                duration: None,
                content_hash: None,
            }),
    {
        let format = match path_extension(file_path.as_str()) {
            Some(extension) => AudioFormat::from_extension(extension.as_str()),
            None => AudioFormat::Unknown,
        };
        Track {
            id,
            file_path,
            metadata: TrackMetadata::default(),
            format,
            file_size: 0,
            duration: None,
            content_hash: None,
        }
    }

    /// A track for the file at `file_path`, as [`Track::with_id`] makes it,
    /// under a fresh random identifier.
    pub fn new(file_path: String) -> (track: Self)
        ensures
            is_random_uuid(track.id),
            track == (Track {
                id: track.id,
                file_path,
                metadata: TrackMetadata::empty(),
                format: format_of_path(file_path@),
                file_size: 0,
                duration: None,
                content_hash: None,
            }),
    {
        let id: u128 = fresh_uuid();
        Self::with_id(id, file_path)
    }

    /// The track with `metadata` in place of its own, and the length that
    /// the metadata gives, if it gives one.
    pub fn with_metadata(self, metadata: TrackMetadata) -> (track: Self)
        ensures
            track == (Track {
                metadata,
                duration: match metadata.duration_ms {
                    Some(ms) => Some(ms),
                    None => self.duration,
                },
                ..self
            }),
    {
        let mut track = self;
        match metadata.duration_ms {
            Some(ms) => {
                track.duration = Some(ms);
            },
            None => {},
        }
        track.metadata = metadata;
        track
    }

    /// The digest of the file's content, for telling copies and moved files.
    /// `head` is the beginning of the file, up to 64 KiB of it. A digest
    /// computed before is kept and returned.
    pub fn compute_content_hash(&mut self, head: &[u8]) -> (hash: u64)
        ensures
            hash == match old(self).content_hash {
                Some(known) => known,
                None => xxh64_digest(head@, 0),
            },
            *final(self) == (Track { content_hash: Some(hash), ..*old(self) }),
    {
        match self.content_hash {
            Some(known) => known,
            None => {
                let hash: u64 = xxh64(head, 0);
                self.content_hash = Some(hash);
                hash
            },
        }
    }

    /// Takes note of how long the track really played, in milliseconds:
    /// [`learned_duration`]. When the length changes, the metadata's length
    /// follows.
    pub fn learn_duration(&mut self, actual_duration: u64)
        ensures
            final(self).duration == learned_duration(old(self).duration, actual_duration),
            final(self).duration is Some,
            *final(self) == (Track {
                duration: final(self).duration,
                metadata: TrackMetadata {
                    duration_ms: if final(self).duration == old(self).duration {
                        old(self).metadata.duration_ms
                    } else {
                        Some(actual_duration)
                    },
                    ..old(self).metadata
                },
                ..*old(self)
            }),
    {
        match self.duration {
            None => {
                self.duration = Some(actual_duration);
                self.metadata.duration_ms = Some(actual_duration);
            },
            Some(existing) => {
                let diff: u64 = if actual_duration > existing {
                    actual_duration - existing
                } else {
                    existing - actual_duration
                };
                if diff > LEARNING_TOLERANCE_MS {
                    self.duration = Some(actual_duration);
                    self.metadata.duration_ms = Some(actual_duration);
                }
            },
        }
    }

    /// Whether both tracks have a content digest and it is the same.
    pub fn is_same_content(&self, other: &Track) -> (same: bool)
        ensures
            same == (self.content_hash is Some && self.content_hash == other.content_hash),
    {
        match (self.content_hash, other.content_hash) {
            (Some(hash1), Some(hash2)) => hash1 == hash2,
            _ => false,
        }
    }

    /// Whether `other` is the same content at another path.
    pub fn is_moved_version(&self, other: &Track) -> (moved: bool)
        ensures
            moved == (self.content_hash is Some && self.content_hash == other.content_hash
                && self.file_path@ != other.file_path@),
    {
        self.is_same_content(other) && self.file_path != other.file_path
    }

    /// The title to show: the tagged title, else the file name without its
    /// extension, else `Unknown`.
    pub fn display_title(&self) -> (title: String)
        ensures
            title@ == match self.metadata.title {
                Some(t) => t@,
                None => match file_stem_text(self.file_path@) {
                    Some(stem) => stem,
                    None => "Unknown"@,
                },
            },
    {
        match &self.metadata.title {
            Some(t) => t.clone(),
            None => match path_file_stem(self.file_path.as_str()) {
                Some(stem) => stem,
                None => "Unknown".to_owned(),
            },
        }
    }

    /// The artist to show: the tagged artist, else `Unknown Artist`.
    pub fn display_artist(&self) -> (artist: String)
        ensures
            artist@ == match self.metadata.artist {
                Some(a) => a@,
                None => "Unknown Artist"@,
            },
    {
        match &self.metadata.artist {
            Some(a) => a.clone(),
            None => "Unknown Artist".to_owned(),
        }
    }

    /// The album to show: the tagged album, else `Unknown Album`.
    pub fn display_album(&self) -> (album: String)
        ensures
            album@ == match self.metadata.album {
                Some(a) => a@,
                None => "Unknown Album"@,
            },
    {
        match &self.metadata.album {
            Some(a) => a.clone(),
            None => "Unknown Album".to_owned(),
        }
    }

    /// The length in whole seconds, when known.
    pub fn duration_seconds(&self) -> (seconds: Option<u64>)
        ensures
            seconds == match self.duration {
                Some(ms) => Some((ms / 1000) as u64),
                None => None,
            },
    {
        match self.duration {
            Some(ms) => Some(ms / 1000),
            None => None,
        }
    }

    /// Whether the track can be played: its format is supported and its
    /// file is there. `file_exists` says whether the file at the track's
    /// path exists.
    pub fn is_playable(&self, file_exists: bool) -> (playable: bool)
        ensures
            playable == (!(self.format is Unknown) && file_exists),
    {
        self.format.is_supported() && file_exists
    }
}

} // verus!
