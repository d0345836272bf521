//! Export of playlists.

use crate::behavior::TrackBehavior;
use vstd::prelude::*;

verus! {

/// A playlist as it is exported.
#[derive(Debug, Clone)]
pub struct PlaylistExport {
    pub name: String,
    pub tracks: Vec<u128>,
    /// Milliseconds since the Unix epoch.
    pub created_at: i64,
    pub behavior_data: Option<Vec<TrackBehavior>>,
}

/// Writes playlists out in other formats.
#[derive(Debug, Clone, Copy, PartialEq, Eq, Structural)]
pub struct ExportManager;

impl ExportManager {
    /// An export manager.
    pub fn new() -> (manager: Self)
        ensures
            manager == ExportManager,
    {
        ExportManager
    }
}

impl Default for ExportManager {
    fn default() -> (manager: Self)
        ensures
            manager == ExportManager,
    {
        Self::new()
    }
}

} // verus!
