//! Finding the audio files of a music library. Walking directories and
//! reading files is the caller's part; which files count is decided here.

use crate::audio::track::{Track, TrackMetadata};
use crate::text::same_text;
use crate::trusted::{ascii_lowered, extension_text, path_extension, to_ascii_lowercase};
use vstd::prelude::*;
use vstd::string::*;

verus! {

/// Largest file, in bytes, that is taken for a track.
pub const MAX_TRACK_FILE_SIZE: u64 = 1_000_000_000;

/// Decides which files belong to the library.
#[derive(Debug, Clone)]
pub struct MusicScanner {
    supported_extensions: Vec<String>,
}

/// Progress of a scan, as it is reported while it runs.
#[derive(Debug, Clone, PartialEq)]
pub enum ScanProgress {
    Started { total_directories: usize },
    DirectoryStarted { path: String },
    TrackFound { track: Track, progress: usize, total: Option<usize> },
    DirectoryCompleted { path: String, tracks_found: usize },
    Completed { total_tracks: usize },
    Error { path: String, error: String },
}

/// The extensions of the files that are scanned, in small letters.
pub open spec fn scanned_extensions() -> Seq<Seq<char>> {
    seq!["mp3"@, "flac"@, "ogg"@, "oga"@, "mp4"@, "m4a"@, "aac"@, "wav"@]
}

/// A text with its ASCII capital letters made small.
pub open spec fn ascii_lowercase_text(text: Seq<char>) -> Seq<char> {
    text.map_values(|c: char| ascii_lowered(c))
}

/// Whether the file at `path` has one of the given extensions, whatever the
/// case of its ASCII letters.
pub open spec fn has_extension_of(extensions: Seq<Seq<char>>, path: Seq<char>) -> bool {
    match extension_text(path) {
        Some(extension) => extensions.contains(ascii_lowercase_text(extension)),
        None => false,
    }
}

/// Whether a file is taken for a track: it is not hidden (its name does not
/// begin with a dot), it is not empty and not larger than 1 GB where its
/// size is known, and it has one of the given extensions.
pub open spec fn is_track_file(
    extensions: Seq<Seq<char>>,
    path: Seq<char>,
    file_name: Option<Seq<char>>,
    size: Option<u64>,
) -> bool {
    &&& !(file_name matches Some(name) && name.len() > 0 && name[0] == '.')
    &&& !(size matches Some(bytes) && (bytes == 0 || bytes > MAX_TRACK_FILE_SIZE))
    &&& has_extension_of(extensions, path)
}

/// The text of a name that may be missing.
pub open spec fn name_text(name: Option<&str>) -> Option<Seq<char>> {
    match name {
        Some(n) => Some(n@),
        None => None,
    }
}

impl View for MusicScanner {
    type V = Seq<Seq<char>>;

    closed spec fn view(&self) -> Seq<Seq<char>> {
        Seq::new(self.supported_extensions@.len(), |i: int| self.supported_extensions@[i]@)
    }
}

impl MusicScanner {
    /// A scanner for the supported formats.
    pub fn new() -> (scanner: Self)
        ensures
            scanner@ == scanned_extensions(),
    {
        let mut supported_extensions: Vec<String> = Vec::new();
        supported_extensions.push("mp3".to_owned());
        supported_extensions.push("flac".to_owned());
        supported_extensions.push("ogg".to_owned());
        supported_extensions.push("oga".to_owned());
        supported_extensions.push("mp4".to_owned());
        supported_extensions.push("m4a".to_owned());
        supported_extensions.push("aac".to_owned());
        supported_extensions.push("wav".to_owned());
        let scanner = Self { supported_extensions };
        assert(scanner@ =~= scanned_extensions());
        scanner
    }

    /// Whether the scanner lists `extension`, which is taken as it is
    /// written.
    pub fn supports_extension(&self, extension: &str) -> (listed: bool)
        ensures
            listed == self@.contains(extension@),
    {
        let mut i: usize = 0;
        while i < self.supported_extensions.len()
            invariant
                i <= self.supported_extensions.len(),
                forall|j: int| 0 <= j < i ==> self@[j] != extension@,
            decreases self.supported_extensions.len() - i,
        {
            if same_text(self.supported_extensions[i].as_str(), extension) {
                assert(self@[i as int] == extension@);
                return true;
            }
            i = i + 1;
        }
        false
    }

    /// Whether the file at `path` has an extension that the scanner lists,
    /// whatever the case of its ASCII letters.
    pub fn is_supported_file(&self, path: &str) -> (supported: bool)
        ensures
            supported == has_extension_of(self@, path@),
    {
        match path_extension(path) {
            Some(extension) => {
                let normalized: String = to_ascii_lowercase(extension.as_str());
                self.supports_extension(normalized.as_str())
            },
            None => false,
        }
    }

    /// Whether a file found while walking a directory is taken for a track.
    /// `file_name` is the last part of `path` where it is valid text, `size`
    /// the size of the file in bytes where it could be read.
    pub fn accepts_file(&self, path: &str, file_name: Option<&str>, size: Option<u64>) -> (accepted:
        bool)
        ensures
            accepted == is_track_file(self@, path@, name_text(file_name), size),
    {
        match file_name {
            Some(name) => {
                if name.unicode_len() > 0 && name.get_char(0) == '.' {
                    return false;
                }
            },
            None => {},
        }
        match size {
            Some(bytes) => {
                if bytes == 0 || bytes > MAX_TRACK_FILE_SIZE {
                    return false;
                }
            },
            None => {},
        }
        self.is_supported_file(path)
    }

    /// The metadata read from a FLAC file: none, whatever the file.
    pub fn extract_flac_metadata(&self, path: &str) -> (metadata: Result<TrackMetadata, String>)
        ensures
            metadata == Ok::<TrackMetadata, String>(TrackMetadata::empty()),
    {
        Ok(TrackMetadata::default())
    }
}

impl Default for MusicScanner {
    fn default() -> (scanner: Self)
        ensures
            scanner@ == scanned_extensions(),
    {
        Self::new()
    }
}

} // verus!
