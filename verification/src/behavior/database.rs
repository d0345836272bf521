//! The shapes in which aggregates and sessions are stored, and the
//! conversion to and from them. Identifiers are stored as UUID text,
//! instants as RFC 3339 text, and lists as JSON text. The connection to the
//! store itself is the caller's.

use crate::behavior::{tag_names, PlaySession, SkipReason, TrackBehavior, TrackBehaviorView};
use crate::trusted::{
    json_of_numbers, json_of_texts, json_to_numbers, json_to_texts, millis_to_rfc3339,
    numbers_of_json, numbers_to_json, parse_rfc3339, parse_uuid, rfc3339_millis, rfc3339_text,
    texts_of_json, texts_to_json, uuid_parsed, uuid_text, uuid_to_string,
};
use vstd::prelude::*;

verus! {

/// One row of the table of aggregates, keyed by `track_id`.
#[derive(Debug, Clone, PartialEq)]
pub struct BehaviorRow {
    pub track_id: String,
    pub total_plays: u64,
    pub total_skips: u64,
    pub total_play_time: u64,
    pub last_played: Option<String>,
    /// JSON list of numbers.
    pub skip_positions: String,
    pub completion_rate: u64,
    pub weight: u64,
    /// JSON list of strings.
    pub tags: String,
}

/// One row of the log of sessions, keyed by `session_id`.
#[derive(Debug, Clone, PartialEq)]
pub struct SessionRow {
    pub session_id: String,
    pub track_id: String,
    pub started_at: String,
    pub ended_at: Option<String>,
    pub play_duration: u64,
    pub track_duration: u64,
    pub skip_reason: Option<SkipReason>,
    pub completion_percentage: u64,
}

/// Why a value could not be turned into a row, or a row into a value.
#[derive(Debug, Clone, Copy, PartialEq, Eq, Structural)]
pub enum RowError {
    /// The row's track identifier is not a UUID.
    InvalidTrackId,
    /// An instant lies outside the years that can be written as text.
    InstantOutOfRange,
    /// A list could not be written as JSON.
    ListNotEncodable,
}

/// The stored text of an instant that may be missing, and whether it can
/// be written.
pub open spec fn stored_instant(instant: Option<i64>) -> Option<Option<Seq<char>>> {
    match instant {
        None => Some(None),
        Some(millis) => match rfc3339_text(millis) {
            Some(text) => Some(Some(text)),
            None => None,
        },
    }
}

/// The instant read from stored text: missing where the text is missing or
/// is no RFC 3339 date and time.
pub open spec fn loaded_instant(text: Option<Seq<char>>) -> Option<i64> {
    match text {
        Some(t) => rfc3339_millis(t),
        None => None,
    }
}

/// The text of a string that may be missing.
pub open spec fn text_of(text: Option<String>) -> Option<Seq<char>> {
    match text {
        Some(t) => Some(t@),
        None => None,
    }
}

/// The mathematical value of a [`BehaviorRow`].
pub struct BehaviorRowView {
    pub track_id: Seq<char>,
    pub total_plays: u64,
    pub total_skips: u64,
    pub total_play_time: u64,
    pub last_played: Option<Seq<char>>,
    pub skip_positions: Seq<char>,
    pub completion_rate: u64,
    pub weight: u64,
    pub tags: Seq<char>,
}

impl View for BehaviorRow {
    type V = BehaviorRowView;

    open spec fn view(&self) -> BehaviorRowView {
        BehaviorRowView {
            track_id: self.track_id@,
            total_plays: self.total_plays,
            total_skips: self.total_skips,
            total_play_time: self.total_play_time,
            last_played: text_of(self.last_played),
            skip_positions: self.skip_positions@,
            completion_rate: self.completion_rate,
            weight: self.weight,
            tags: self.tags@,
        }
    }
}

/// The row that stores the aggregate `b`, or why there is none.
pub open spec fn row_of_behavior(b: TrackBehaviorView) -> Result<BehaviorRowView, RowError> {
    if json_of_numbers(b.skip_positions) is None || json_of_texts(b.tags) is None {
        Err(RowError::ListNotEncodable)
    } else if stored_instant(b.last_played) is None {
        Err(RowError::InstantOutOfRange)
    } else {
        Ok(
            BehaviorRowView {
                track_id: uuid_text(b.track_id),
                total_plays: b.total_plays as u64,
                total_skips: b.total_skips as u64,
                total_play_time: b.total_play_time as u64,
                last_played: stored_instant(b.last_played)->0,
                skip_positions: json_of_numbers(b.skip_positions)->0,
                completion_rate: b.completion_rate as u64,
                weight: b.weight as u64,
                tags: json_of_texts(b.tags)->0,
            },
        )
    }
}

/// The aggregate that a row holds, or why it holds none. Only a track
/// identifier that is no UUID makes a row unreadable: a list that cannot be
/// read counts as empty, and an instant that cannot be read as missing.
pub open spec fn behavior_of_row(row: BehaviorRowView) -> Result<TrackBehaviorView, RowError> {
    match uuid_parsed(row.track_id) {
        None => Err(RowError::InvalidTrackId),
        Some(track_id) => Ok(
            TrackBehaviorView {
                track_id,
                total_plays: row.total_plays as nat,
                total_skips: row.total_skips as nat,
                total_play_time: row.total_play_time as nat,
                last_played: loaded_instant(row.last_played),
                skip_positions: match numbers_of_json(row.skip_positions) {
                    Some(positions) => positions,
                    None => Seq::empty(),
                },
                completion_rate: row.completion_rate as nat,
                weight: row.weight as nat,
                tags: match texts_of_json(row.tags) {
                    Some(tags) => tags,
                    None => Seq::empty(),
                },
            },
        ),
    }
}

/// Whether the text forms of an aggregate's identifier, lists and instant
/// read back as what was written.
pub open spec fn texts_read_back(b: TrackBehaviorView) -> bool {
    &&& uuid_parsed(uuid_text(b.track_id)) == Some(b.track_id)
    &&& json_of_numbers(b.skip_positions) matches Some(json) && numbers_of_json(json) == Some(
        b.skip_positions,
    )
    &&& json_of_texts(b.tags) matches Some(json) && texts_of_json(json) == Some(b.tags)
    &&& b.last_played matches Some(millis) ==> (rfc3339_text(millis) matches Some(text)
        && rfc3339_millis(text) == Some(millis))
}

/// An aggregate whose text forms read back as written is stored in a row
/// that loads as the same aggregate, field for field.
pub proof fn lemma_stored_aggregate_loads_unchanged(behavior: TrackBehavior)
    requires
        texts_read_back(behavior@),
    ensures
        row_of_behavior(behavior@) matches Ok(row) && behavior_of_row(row) == Ok::<
            TrackBehaviorView,
            RowError,
        >(behavior@),
{
}

/// Writes an instant that may be missing as text.
fn instant_to_text(instant: Option<i64>) -> (text: Result<Option<String>, RowError>)
    ensures
        text is Ok <==> stored_instant(instant) is Some,
        text is Ok ==> text_of(text->Ok_0) == stored_instant(instant)->0,
        text is Err ==> text->Err_0 == RowError::InstantOutOfRange,
{
    match instant {
        None => Ok(None),
        Some(millis) => match millis_to_rfc3339(millis) {
            Some(t) => Ok(Some(t)),
            None => Err(RowError::InstantOutOfRange),
        },
    }
}

/// The row that stores an aggregate: [`row_of_behavior`].
pub fn behavior_to_row(behavior: &TrackBehavior) -> (row: Result<BehaviorRow, RowError>)
    ensures
        match row {
            Ok(r) => row_of_behavior(behavior@) == Ok::<BehaviorRowView, RowError>(r@),
            Err(e) => row_of_behavior(behavior@) == Err::<BehaviorRowView, RowError>(e),
        },
{
    assert(behavior.tags@.map_values(|t: String| t@) =~= tag_names(behavior.tags@));
    let skip_positions: String = match numbers_to_json(&behavior.skip_positions) {
        Ok(json) => json,
        Err(_) => {
            return Err(RowError::ListNotEncodable);
        },
    };
    let tags: String = match texts_to_json(&behavior.tags) {
        Ok(json) => json,
        Err(_) => {
            return Err(RowError::ListNotEncodable);
        },
    };
    let last_played: Option<String> = match instant_to_text(behavior.last_played) {
        Ok(text) => text,
        Err(e) => {
            return Err(e);
        },
    };
    Ok(
        BehaviorRow {
            track_id: uuid_to_string(behavior.track_id),
            total_plays: behavior.total_plays,
            total_skips: behavior.total_skips,
            total_play_time: behavior.total_play_time,
            last_played,
            skip_positions,
            completion_rate: behavior.completion_rate,
            weight: behavior.weight,
            tags,
        },
    )
}

/// The aggregate that a row holds: [`behavior_of_row`].
pub fn row_to_track_behavior(row: &BehaviorRow) -> (behavior: Result<TrackBehavior, RowError>)
    ensures
        match behavior {
            Ok(b) => behavior_of_row(row@) == Ok::<TrackBehaviorView, RowError>(b@),
            Err(e) => behavior_of_row(row@) == Err::<TrackBehaviorView, RowError>(e),
        },
{
    let track_id: u128 = match parse_uuid(row.track_id.as_str()) {
        Some(id) => id,
        None => {
            return Err(RowError::InvalidTrackId);
        },
    };
    let skip_positions: Vec<u64> = match json_to_numbers(row.skip_positions.as_str()) {
        Ok(positions) => positions,
        Err(_) => Vec::new(),
    };
    let tags: Vec<String> = match json_to_texts(row.tags.as_str()) {
        Ok(tags) => tags,
        Err(_) => Vec::new(),
    };
    let last_played: Option<i64> = match &row.last_played {
        Some(text) => parse_rfc3339(text.as_str()),
        None => None,
    };
    proof {
        assert(tags@.map_values(|t: String| t@) =~= tag_names(tags@));
        assert(texts_of_json(row.tags@) is None ==> tag_names(tags@) =~= Seq::<Seq<char>>::empty());
        assert(row@.last_played == text_of(row.last_played));
    }
    Ok(
        TrackBehavior {
            track_id,
            total_plays: row.total_plays,
            total_skips: row.total_skips,
            total_play_time: row.total_play_time,
            last_played,
            skip_positions,
            completion_rate: row.completion_rate,
            weight: row.weight,
            tags,
        },
    )
}

/// The mathematical value of a [`SessionRow`].
pub struct SessionRowView {
    pub session_id: Seq<char>,
    pub track_id: Seq<char>,
    pub started_at: Seq<char>,
    pub ended_at: Option<Seq<char>>,
    pub play_duration: u64,
    pub track_duration: u64,
    pub skip_reason: Option<SkipReason>,
    pub completion_percentage: u64,
}

impl View for SessionRow {
    type V = SessionRowView;

    open spec fn view(&self) -> SessionRowView {
        SessionRowView {
            session_id: self.session_id@,
            track_id: self.track_id@,
            started_at: self.started_at@,
            ended_at: text_of(self.ended_at),
            play_duration: self.play_duration,
            track_duration: self.track_duration,
            skip_reason: self.skip_reason,
            completion_percentage: self.completion_percentage,
        }
    }
}

/// The row that logs `session`, or nothing where one of its instants cannot
/// be written as text.
pub open spec fn row_of_session(session: PlaySession) -> Option<SessionRowView> {
    if rfc3339_text(session.started_at) is None || stored_instant(session.ended_at) is None {
        None
    } else {
        Some(
            SessionRowView {
                session_id: uuid_text(session.session_id),
                track_id: uuid_text(session.track_id),
                started_at: rfc3339_text(session.started_at)->0,
                ended_at: stored_instant(session.ended_at)->0,
                play_duration: session.play_duration,
                track_duration: session.track_duration,
                skip_reason: session.skip_reason,
                completion_percentage: session.completion_percentage,
            },
        )
    }
}

/// The row that logs a session: [`row_of_session`].
pub fn session_to_row(session: &PlaySession) -> (row: Result<SessionRow, RowError>)
    ensures
        match row {
            Ok(r) => row_of_session(*session) == Some(r@),
            Err(e) => row_of_session(*session) is None && e == RowError::InstantOutOfRange,
        },
{
    let started_at: String = match millis_to_rfc3339(session.started_at) {
        Some(text) => text,
        None => {
            return Err(RowError::InstantOutOfRange);
        },
    };
    let ended_at: Option<String> = match instant_to_text(session.ended_at) {
        Ok(text) => text,
        Err(e) => {
            return Err(e);
        },
    };
    Ok(
        SessionRow {
            session_id: uuid_to_string(session.session_id),
            track_id: uuid_to_string(session.track_id),
            started_at,
            ended_at,
            play_duration: session.play_duration,
            track_duration: session.track_duration,
            skip_reason: session.skip_reason,
            completion_percentage: session.completion_percentage,
        },
    )
}

/// The length of a track, in seconds, as the store's signed column holds
/// it: the same bits read as an unsigned number.
pub open spec fn duration_of_column(value: Option<i64>) -> Option<u64> {
    match value {
        Some(seconds) => Some(
            if seconds >= 0 {
                seconds as u64
            } else {
                (seconds + 0x1_0000_0000_0000_0000) as u64
            },
        ),
        None => None,
    }
}

/// Reads a track's length from the store's column: [`duration_of_column`].
pub fn duration_from_column(value: Option<i64>) -> (duration: Option<u64>)
    ensures
        duration == duration_of_column(value),
{
    match value {
        Some(seconds) => {
            if seconds >= 0 {
                Some(seconds as u64)
            } else {
                let below: u64 = (-(seconds + 1)) as u64;
                Some(u64::MAX - below)
            }
        },
        None => None,
    }
}

} // verus!
