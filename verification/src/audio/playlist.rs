//! Playlists: named, ordered lists of track files.

use crate::audio::track::Track;
use crate::text::same_text;
use crate::trusted::{
    decimal_text, fresh_uuid, is_random_uuid, now_millis, number_to_string, uuid_text,
    uuid_to_string,
};
use vstd::prelude::*;
use vstd::string::*;

verus! {

/// A playlist. It refers to its tracks by the paths of their files.
#[derive(Debug, Clone, PartialEq)]
pub struct Playlist {
    pub id: String,
    pub name: String,
    pub description: Option<String>,
    /// Milliseconds since the Unix epoch.
    pub created_at: i64,
    /// Milliseconds since the Unix epoch.
    pub modified_at: i64,
    pub track_paths: Vec<String>,
    pub track_count: usize,
    /// Never set by this library: lengths are computed on demand, see
    /// [`Playlist::calculate_duration`].
    pub total_duration: Option<u64>,
}

/// Figures of one playlist.
#[derive(Debug, Default, Clone, Copy, PartialEq, Eq)]
pub struct PlaylistStats {
    pub track_count: usize,
    pub total_duration: u64,
}

/// The paths of a playlist as texts.
pub open spec fn path_texts(paths: Seq<String>) -> Seq<Seq<char>> {
    Seq::new(paths.len(), |i: int| paths[i]@)
}

/// The position of the last of `tracks` whose file is at `path`, if any is.
pub open spec fn last_index_of_path(tracks: Seq<Track>, path: Seq<char>, upto: int) -> Option<int>
    decreases upto,
{
    if upto <= 0 {
        None
    } else if tracks[upto - 1].file_path@ == path {
        Some(upto - 1)
    } else {
        last_index_of_path(tracks, path, upto - 1)
    }
}

/// For the first `upto` paths in order, the position among `tracks` of the
/// track at each path; paths that no track is at are left out.
pub open spec fn valid_indices(paths: Seq<Seq<char>>, tracks: Seq<Track>, upto: int) -> Seq<usize>
    decreases upto,
{
    if upto <= 0 {
        Seq::empty()
    } else {
        let before = valid_indices(paths, tracks, upto - 1);
        match last_index_of_path(tracks, paths[upto - 1], tracks.len() as int) {
            Some(i) => before.push(i as usize),
            None => before,
        }
    }
}

/// The known lengths, in milliseconds, of the tracks at the first `upto` of
/// `indices`, added up.
pub open spec fn duration_sum(indices: Seq<usize>, tracks: Seq<Track>, upto: int) -> int
    decreases upto,
{
    if upto <= 0 {
        0
    } else {
        duration_sum(indices, tracks, upto - 1) + match tracks[indices[upto - 1] as int].duration {
            Some(ms) => ms as int,
            None => 0,
        }
    }
}

/// The length of a playlist: the known lengths of its tracks that are in
/// the library, added up, in milliseconds.
pub open spec fn playlist_duration(paths: Seq<Seq<char>>, tracks: Seq<Track>) -> int {
    let indices = valid_indices(paths, tracks, paths.len() as int);
    duration_sum(indices, tracks, indices.len() as int)
}

/// A number below one hundred in two digits.
pub open spec fn two_digits(number: u64) -> Seq<char> {
    if number < 10 {
        "0"@ + decimal_text(number as nat)
    } else {
        decimal_text(number as nat)
    }
}

/// A length as a clock reading: `h:mm:ss` from one hour on, else `m:ss`.
pub open spec fn clock_text(duration: u64) -> Seq<char> {
    let hours = (duration / 3600) as u64;
    let minutes = ((duration % 3600) / 60) as u64;
    let seconds = (duration % 60) as u64;
    if hours > 0 {
        decimal_text(hours as nat) + ":"@ + two_digits(minutes) + ":"@ + two_digits(seconds)
    } else {
        decimal_text(minutes as nat) + ":"@ + two_digits(seconds)
    }
}

/// Writes a number below one hundred in two digits.
fn two_digit_string(number: u64) -> (text: String)
    ensures
        text@ == two_digits(number),
{
    if number < 10 {
        let mut text: String = "0".to_owned();
        text.append(number_to_string(number).as_str());
        text
    } else {
        number_to_string(number)
    }
}

/// Where among `tracks` the last track with its file at `path` stands.
fn find_track(tracks: &[Track], path: &str) -> (found: Option<usize>)
    ensures
        match found {
            Some(i) => last_index_of_path(tracks@, path@, tracks@.len() as int) == Some(i as int),
            None => last_index_of_path(tracks@, path@, tracks@.len() as int) is None,
        },
{
    let mut i: usize = tracks.len();
    while i > 0
        invariant
            i <= tracks.len(),
            last_index_of_path(tracks@, path@, tracks@.len() as int) == last_index_of_path(
                tracks@,
                path@,
                i as int,
            ),
        decreases i,
    {
        if same_text(tracks[i - 1].file_path.as_str(), path) {
            return Some(i - 1);
        }
        i = i - 1;
    }
    None
}

/// Every index that `valid_indices` yields is a position among the tracks.
pub proof fn lemma_valid_indices_in_range(paths: Seq<Seq<char>>, tracks: Seq<Track>, upto: int)
    requires
        upto <= paths.len(),
        tracks.len() <= usize::MAX,
    ensures
        valid_indices(paths, tracks, upto).len() <= if upto < 0 {
            0
        } else {
            upto
        },
        forall|k: int|
            0 <= k < valid_indices(paths, tracks, upto).len() ==> (#[trigger] valid_indices(
                paths,
                tracks,
                upto,
            )[k]) < tracks.len(),
    decreases upto,
{
    if upto > 0 {
        lemma_valid_indices_in_range(paths, tracks, upto - 1);
        lemma_last_index_in_range(tracks, paths[upto - 1], tracks.len() as int);
    }
}

/// The position that `last_index_of_path` finds holds a track at the path.
pub proof fn lemma_last_index_in_range(tracks: Seq<Track>, path: Seq<char>, upto: int)
    requires
        upto <= tracks.len(),
    ensures
        match last_index_of_path(tracks, path, upto) {
            Some(i) => 0 <= i < upto && tracks[i].file_path@ == path,
            None => forall|j: int| 0 <= j < upto ==> tracks[j].file_path@ != path,
        },
    decreases upto,
{
    if upto > 0 && tracks[upto - 1].file_path@ != path {
        lemma_last_index_in_range(tracks, path, upto - 1);
    }
}

impl Playlist {
    /// An empty playlist with the given identifier, made at `now`.
    pub fn create(id: String, name: String, description: Option<String>, now: i64) -> (playlist:
        Self)
        ensures
            playlist.id == id,
            playlist.name == name,
            playlist.description == description,
            playlist.created_at == now,
            playlist.modified_at == now,
            playlist.track_paths@.len() == 0,
            playlist.track_count == 0,
            playlist.total_duration is None,
    {
        Self {
            id,
            name,
            description,
            created_at: now,
            modified_at: now,
            track_paths: Vec::new(),
            track_count: 0,
            total_duration: None,
        }
    }

    /// An empty playlist, made at the present instant under the text of a
    /// fresh random UUID.
    pub fn new(name: String, description: Option<String>) -> (playlist: Self)
        ensures
            exists|id: u128| is_random_uuid(id) && playlist.id@ == #[trigger] uuid_text(id),
            playlist.name == name,
            playlist.description == description,
            playlist.modified_at == playlist.created_at,
            playlist.track_paths@.len() == 0,
            playlist.track_count == 0,
            playlist.total_duration is None,
    {
        let id: u128 = fresh_uuid();
        let now: i64 = now_millis();
        Self::create(uuid_to_string(id), name, description, now)
    }

    /// Whether the playlist lists the file at `path`.
    pub fn contains_path(&self, path: &str) -> (listed: bool)
        ensures
            listed == path_texts(self.track_paths@).contains(path@),
    {
        match self.position_of(path) {
            Some(p) => {
                assert(path_texts(self.track_paths@)[p as int] == path@);
                true
            },
            None => false,
        }
    }

    /// Where the playlist first lists the file at `path`.
    fn position_of(&self, path: &str) -> (position: Option<usize>)
        ensures
            match position {
                Some(p) => {
                    &&& p < self.track_paths@.len()
                    &&& self.track_paths@[p as int]@ == path@
                    &&& forall|j: int| 0 <= j < p ==> self.track_paths@[j]@ != path@
                },
                None => !path_texts(self.track_paths@).contains(path@),
            },
    {
        let mut i: usize = 0;
        while i < self.track_paths.len()
            invariant
                i <= self.track_paths.len(),
                forall|j: int| 0 <= j < i ==> (#[trigger] self.track_paths@[j])@ != path@,
            decreases self.track_paths.len() - i,
        {
            if same_text(self.track_paths[i].as_str(), path) {
                return Some(i);
            }
            i = i + 1;
        }
        assert forall|j: int| 0 <= j < path_texts(self.track_paths@).len() implies path_texts(
            self.track_paths@,
        )[j] != path@ by {
            assert(self.track_paths@[j]@ != path@);
        }
        None
    }

    /// Appends the file at `track_path`, unless the playlist lists it
    /// already; a change is dated `now`.
    pub fn add_track_at(&mut self, track_path: String, now: i64)
        ensures
            final(self).id == old(self).id,
            final(self).name == old(self).name,
            final(self).description == old(self).description,
            final(self).created_at == old(self).created_at,
            if path_texts(old(self).track_paths@).contains(track_path@) {
                *final(self) == *old(self)
            } else {
                &&& final(self).track_paths@ == old(self).track_paths@.push(track_path)
                &&& final(self).track_count == final(self).track_paths@.len()
                &&& final(self).modified_at == now
                &&& final(self).total_duration is None
            },
    {
        if !self.contains_path(track_path.as_str()) {
            self.track_paths.push(track_path);
            self.track_count = self.track_paths.len();
            self.modified_at = now;
            self.update_total_duration();
        }
    }

    /// Appends the file at `track_path`, unless the playlist lists it
    /// already; a change is dated with the present instant.
    pub fn add_track(&mut self, track_path: String)
        ensures
            final(self).id == old(self).id,
            final(self).name == old(self).name,
            final(self).description == old(self).description,
            final(self).created_at == old(self).created_at,
            if path_texts(old(self).track_paths@).contains(track_path@) {
                *final(self) == *old(self)
            } else {
                &&& final(self).track_paths@ == old(self).track_paths@.push(track_path)
                &&& final(self).track_count == final(self).track_paths@.len()
                &&& final(self).total_duration is None
            },
    {
        let now: i64 = now_millis();
        self.add_track_at(track_path, now);
    }

    /// Takes the file at `track_path` off the playlist, where it is listed
    /// first, and says whether it was listed; a change is dated `now`.
    pub fn remove_track_at(&mut self, track_path: &str, now: i64) -> (removed: bool)
        ensures
            removed == path_texts(old(self).track_paths@).contains(track_path@),
            final(self).id == old(self).id,
            final(self).name == old(self).name,
            final(self).description == old(self).description,
            final(self).created_at == old(self).created_at,
            !removed ==> *final(self) == *old(self),
            removed ==> {
                &&& exists|p: int|
                    {
                        &&& 0 <= p < old(self).track_paths@.len()
                        &&& old(self).track_paths@[p]@ == track_path@
                        &&& forall|j: int| 0 <= j < p ==> old(self).track_paths@[j]@ != track_path@
                        &&& final(self).track_paths@ == #[trigger] old(self).track_paths@.remove(p)
                    }
                &&& final(self).track_count == final(self).track_paths@.len()
                &&& final(self).modified_at == now
                &&& final(self).total_duration is None
            },
    {
        match self.position_of(track_path) {
            Some(pos) => {
                self.track_paths.remove(pos);
                self.track_count = self.track_paths.len();
                self.modified_at = now;
                self.update_total_duration();
                assert(path_texts(old(self).track_paths@)[pos as int] == track_path@);
                true
            },
            None => false,
        }
    }

    /// Takes the file at `track_path` off the playlist, as
    /// [`Playlist::remove_track_at`] does, dated with the present instant.
    pub fn remove_track(&mut self, track_path: &str) -> (removed: bool)
        ensures
            removed == path_texts(old(self).track_paths@).contains(track_path@),
            !removed ==> *final(self) == *old(self),
            removed ==> final(self).track_paths@.len() + 1 == old(self).track_paths@.len(),
            removed ==> final(self).track_count == final(self).track_paths@.len(),
    {
        let now: i64 = now_millis();
        self.remove_track_at(track_path, now)
    }

    /// Moves the entry at `from_index` to `to_index` and says whether both
    /// are positions of the playlist; a change is dated `now`.
    pub fn move_track_at(&mut self, from_index: usize, to_index: usize, now: i64) -> (moved: bool)
        ensures
            moved == (from_index < old(self).track_paths@.len() && to_index < old(
                self,
            ).track_paths@.len()),
            !moved ==> *final(self) == *old(self),
            moved ==> *final(self) == (Playlist {
                track_paths: final(self).track_paths,
                modified_at: now,
                ..*old(self)
            }),
            moved ==> final(self).track_paths@ == old(self).track_paths@.remove(
                from_index as int,
            ).insert(to_index as int, old(self).track_paths@[from_index as int]),
    {
        if from_index < self.track_paths.len() && to_index < self.track_paths.len() {
            let track: String = self.track_paths.remove(from_index);
            self.track_paths.insert(to_index, track);
            self.modified_at = now;
            true
        } else {
            false
        }
    }

    /// Moves the entry at `from_index` to `to_index`, as
    /// [`Playlist::move_track_at`] does, dated with the present instant.
    pub fn move_track(&mut self, from_index: usize, to_index: usize) -> (moved: bool)
        ensures
            moved == (from_index < old(self).track_paths@.len() && to_index < old(
                self,
            ).track_paths@.len()),
            !moved ==> *final(self) == *old(self),
            moved ==> final(self).track_paths@ == old(self).track_paths@.remove(
                from_index as int,
            ).insert(to_index as int, old(self).track_paths@[from_index as int]),
    {
        let now: i64 = now_millis();
        self.move_track_at(from_index, to_index, now)
    }

    /// For each entry of the playlist whose file is in the library, in the
    /// playlist's order, the position of its track among `all_tracks`; of
    /// several tracks at one path the last.
    pub fn get_valid_tracks(&self, all_tracks: &[Track]) -> (indices: Vec<usize>)
        ensures
            indices@ == valid_indices(
                path_texts(self.track_paths@),
                all_tracks@,
                self.track_paths@.len() as int,
            ),
            forall|k: int| 0 <= k < indices@.len() ==> (#[trigger] indices@[k]) < all_tracks@.len(),
    {
        let mut indices: Vec<usize> = Vec::new();
        let count: usize = all_tracks.len();
        let mut i: usize = 0;
        while i < self.track_paths.len()
            invariant
                i <= self.track_paths.len(),
                indices@ == valid_indices(path_texts(self.track_paths@), all_tracks@, i as int),
            decreases self.track_paths.len() - i,
        {
            match find_track(all_tracks, self.track_paths[i].as_str()) {
                Some(index) => {
                    indices.push(index);
                },
                None => {},
            }
            i = i + 1;
        }
        proof {
            lemma_valid_indices_in_range(
                path_texts(self.track_paths@),
                all_tracks@,
                self.track_paths@.len() as int,
            );
        }
        indices
    }

    /// Leaves the stored total length unset: it is computed on demand.
    fn update_total_duration(&mut self)
        ensures
            *final(self) == (Playlist { total_duration: None, ..*old(self) }),
    {
        self.total_duration = None;
    }

    /// The length of the playlist in milliseconds: the known lengths of its
    /// tracks that are in the library, added up; nothing when that is zero.
    pub fn calculate_duration(&self, all_tracks: &[Track]) -> (total: Option<u64>)
        requires
            playlist_duration(path_texts(self.track_paths@), all_tracks@) <= u64::MAX,
        ensures
            total == if playlist_duration(path_texts(self.track_paths@), all_tracks@) > 0 {
                Some(playlist_duration(path_texts(self.track_paths@), all_tracks@) as u64)
            } else {
                None
            },
    {
        let valid: Vec<usize> = self.get_valid_tracks(all_tracks);
        let mut total: u64 = 0;
        let mut i: usize = 0;
        while i < valid.len()
            invariant
                i <= valid.len(),
                forall|k: int| 0 <= k < valid@.len() ==> (#[trigger] valid@[k]) < all_tracks@.len(),
                total == duration_sum(valid@, all_tracks@, i as int),
                duration_sum(valid@, all_tracks@, valid@.len() as int) <= u64::MAX,
            decreases valid.len() - i,
        {
            proof {
                lemma_duration_sum_grows(valid@, all_tracks@, i + 1, valid@.len() as int);
            }
            match all_tracks[valid[i]].duration {
                Some(ms) => {
                    total = total + ms;
                },
                None => {},
            }
            i = i + 1;
        }
        if total > 0 {
            Some(total)
        } else {
            None
        }
    }

    /// Whether the playlist lists no track.
    pub fn is_empty(&self) -> (empty: bool)
        ensures
            empty == (self.track_paths@.len() == 0),
    {
        self.track_paths.len() == 0
    }

    /// The length of the playlist as a clock reading, or `Unknown` where it
    /// has none.
    pub fn duration_string(&self, all_tracks: &[Track]) -> (text: String)
        requires
            playlist_duration(path_texts(self.track_paths@), all_tracks@) <= u64::MAX,
        ensures
            text@ == if playlist_duration(path_texts(self.track_paths@), all_tracks@) > 0 {
                clock_text(playlist_duration(path_texts(self.track_paths@), all_tracks@) as u64)
            } else {
                "Unknown"@
            },
    {
        match self.calculate_duration(all_tracks) {
            Some(duration) => {
                let hours: u64 = duration / 3600;
                let minutes: u64 = (duration % 3600) / 60;
                let seconds: u64 = duration % 60;
                if hours > 0 {
                    let mut text: String = number_to_string(hours);
                    text.append(":");
                    text.append(two_digit_string(minutes).as_str());
                    text.append(":");
                    text.append(two_digit_string(seconds).as_str());
                    text
                } else {
                    let mut text: String = number_to_string(minutes);
                    text.append(":");
                    text.append(two_digit_string(seconds).as_str());
                    text
                }
            },
            None => "Unknown".to_owned(),
        }
    }

    /// The figures of the playlist: its track count and its length, zero
    /// where it has none.
    pub fn stats(&self, all_tracks: &[Track]) -> (stats: PlaylistStats)
        requires
            playlist_duration(path_texts(self.track_paths@), all_tracks@) <= u64::MAX,
        ensures
            stats.track_count == self.track_count,
            stats.total_duration == playlist_duration(path_texts(self.track_paths@), all_tracks@),
    {
        proof {
            let indices = valid_indices(
                path_texts(self.track_paths@),
                all_tracks@,
                self.track_paths@.len() as int,
            );
            lemma_duration_sum_grows(indices, all_tracks@, 0, indices.len() as int);
        }
        let total_duration: u64 = match self.calculate_duration(all_tracks) {
            Some(total) => total,
            None => 0,
        };
        PlaylistStats { track_count: self.track_count, total_duration }
    }
}

/// Whether the playlist at position `i` bears `name` and is not the one
/// with the identifier `except`.
pub open spec fn bears_name(
    playlists: Seq<&Playlist>,
    i: int,
    name: Seq<char>,
    except: Option<&str>,
) -> bool {
    playlists[i].name@ == name && !(except matches Some(id) && playlists[i].id@ == id@)
}

/// Whether a playlist other than the one with the identifier `except`
/// bears `name` already. Names of playlists are unique.
pub fn name_in_use(playlists: &[&Playlist], name: &str, except: Option<&str>) -> (taken: bool)
    ensures
        taken == exists|i: int| 0 <= i < playlists@.len() && bears_name(playlists@, i, name@, except),
{
    let mut i: usize = 0;
    while i < playlists.len()
        invariant
            i <= playlists.len(),
            forall|j: int| 0 <= j < i ==> !bears_name(playlists@, j, name@, except),
        decreases playlists.len() - i,
    {
        let playlist: &Playlist = playlists[i];
        if same_text(playlist.name.as_str(), name) {
            let excepted: bool = match except {
                Some(id) => same_text(playlist.id.as_str(), id),
                None => false,
            };
            if !excepted {
                assert(bears_name(playlists@, i as int, name@, except));
                return true;
            }
        }
        i = i + 1;
    }
    false
}

/// A longer prefix of the indices never sums to less.
pub proof fn lemma_duration_sum_grows(indices: Seq<usize>, tracks: Seq<Track>, shorter: int, longer: int)
    requires
        shorter <= longer,
    ensures
        duration_sum(indices, tracks, shorter) <= duration_sum(indices, tracks, longer),
        0 <= duration_sum(indices, tracks, shorter),
    decreases longer - shorter, shorter,
{
    if shorter < longer {
        lemma_duration_sum_grows(indices, tracks, shorter, longer - 1);
    } else if shorter > 0 {
        lemma_duration_sum_grows(indices, tracks, shorter - 1, shorter - 1);
    }
}

} // verus!
