//! The session tracker: turns the stream of playback events into finished
//! play sessions. It holds at most one session at a time. What has to be
//! read from or written to the behaviour store it hands to its caller as a
//! [`TrackerAction`].

use crate::behavior::weighting::{track_weight, WeightCalculator, MAX_WEIGHT, MIN_WEIGHT};
use crate::behavior::{
    can_count, updated_behavior, PlaySession, SkipReason, TrackBehavior, TrackBehaviorView,
};
use crate::fixed::{capped_percent, percent_capped};
use crate::trusted::{fresh_uuid, is_random_uuid, now_millis};
use vstd::prelude::*;

verus! {

/// Length, in seconds, assumed for a track whose length the store does not
/// know.
pub const DEFAULT_TRACK_DURATION: u64 = 180;

/// What the player reports to the tracker. Positions are seconds into the
/// track, timestamps milliseconds since the Unix epoch.
#[derive(Debug, Clone, Copy, PartialEq)]
pub enum PlaybackEvent {
    TrackStarted { track_id: u128, timestamp: i64 },
    TrackPaused { track_id: u128, position: u64, timestamp: i64 },
    TrackResumed { track_id: u128, position: u64, timestamp: i64 },
    TrackSkipped { track_id: u128, position: u64, reason: SkipReason, timestamp: i64 },
    TrackCompleted { track_id: u128, timestamp: i64 },
}

/// The session in progress.
#[derive(Debug, Clone, Copy, PartialEq)]
pub struct ActiveSession {
    pub session: PlaySession,
    /// Seconds heard when playback was last paused.
    pub actual_play_time: u64,
    /// When playback was paused, while it is.
    pub pause_start: Option<i64>,
}

/// What the caller has to do with the behaviour store after an event.
#[derive(Debug, Clone, Copy, PartialEq)]
pub enum TrackerAction {
    /// Nothing.
    Nothing,
    /// Persist this finished session and count it into its track's
    /// aggregate (see [`BehaviorTracker::record_session`]).
    Commit(PlaySession),
    /// A track has started. First persist and count `superseded`, the
    /// session it cut short, if there is one; then look up the length of
    /// `track_id` and hand it to [`BehaviorTracker::open_session`]. When the
    /// store fails at either step, stop there: no session is open then.
    Open { track_id: u128, timestamp: i64, superseded: Option<PlaySession> },
}

/// The larger of two play times.
pub open spec fn longer(a: u64, b: u64) -> u64 {
    if a >= b {
        a
    } else {
        b
    }
}

/// The session of `active` as it is closed at `timestamp`: heard for the
/// longer of `position` and the time frozen at the last pause, completed to
/// that share of the track's length, at most 100 %.
pub open spec fn finalized(
    active: ActiveSession,
    position: u64,
    reason: Option<SkipReason>,
    timestamp: i64,
) -> PlaySession {
    let heard = longer(position, active.actual_play_time);
    PlaySession {
        session_id: active.session.session_id,
        track_id: active.session.track_id,
        started_at: active.session.started_at,
        ended_at: Some(timestamp),
        play_duration: heard,
        track_duration: active.session.track_duration,
        skip_reason: reason,
        completion_percentage: capped_percent(
            heard as int,
            active.session.track_duration as int,
        ) as u64,
    }
}

/// The session to commit when the active session, if any, is ended for
/// `track_id`: the finalized session when it is that track's and was heard
/// for at least `min_play_time` seconds, else none.
pub open spec fn ended(
    active: Option<ActiveSession>,
    min_play_time: u64,
    track_id: u128,
    position: u64,
    reason: Option<SkipReason>,
    timestamp: i64,
) -> Option<PlaySession> {
    match active {
        Some(a) => {
            let closed = finalized(a, position, reason, timestamp);
            if a.session.track_id == track_id && closed.play_duration >= min_play_time {
                Some(closed)
            } else {
                None
            }
        },
        None => None,
    }
}

/// `Commit` when there is a session to commit, else `Nothing`.
pub open spec fn commit_of(session: Option<PlaySession>) -> TrackerAction {
    match session {
        Some(s) => TrackerAction::Commit(s),
        None => TrackerAction::Nothing,
    }
}

/// The tracker's transition: the session in progress after `event`, and what
/// the caller has to do.
///
/// * A start ends the session in progress, whatever its track, as skipped
///   for the next track at the time frozen by its last pause, and asks for
///   the new session to be opened.
/// * A pause for the active track, while it is not paused, freezes the time
///   heard at the reported position.
/// * A resume for the active track lifts the pause.
/// * A skip for the active track ends its session; a completion for the
///   active track ends it as heard to the end, with no skip reason. The
///   ended session is committed when it is long enough, and dropped else.
/// * A pause, resume, skip or completion for another track than the active
///   one, or with no session in progress, changes nothing.
pub open spec fn step(
    active: Option<ActiveSession>,
    min_play_time: u64,
    event: PlaybackEvent,
) -> (Option<ActiveSession>, TrackerAction) {
    match event {
        PlaybackEvent::TrackStarted { track_id, timestamp } => (
            None,
            TrackerAction::Open {
                track_id,
                timestamp,
                superseded: match active {
                    Some(a) => ended(
                        active,
                        min_play_time,
                        a.session.track_id,
                        a.actual_play_time,
                        Some(SkipReason::NextTrack),
                        timestamp,
                    ),
                    None => None,
                },
            },
        ),
        PlaybackEvent::TrackPaused { track_id, position, timestamp } => match active {
            Some(a) if a.session.track_id == track_id && a.pause_start is None => (
                Some(
                    ActiveSession {
                        session: a.session,
                        actual_play_time: position,
                        pause_start: Some(timestamp),
                    },
                ),
                TrackerAction::Nothing,
            ),
            _ => (active, TrackerAction::Nothing),
        },
        PlaybackEvent::TrackResumed { track_id, position, timestamp } => match active {
            Some(a) if a.session.track_id == track_id => (
                Some(
                    ActiveSession {
                        session: a.session,
                        actual_play_time: a.actual_play_time,
                        pause_start: None,
                    },
                ),
                TrackerAction::Nothing,
            ),
            _ => (active, TrackerAction::Nothing),
        },
        PlaybackEvent::TrackSkipped { track_id, position, reason, timestamp } => match active {
            Some(a) if a.session.track_id == track_id => (
                None,
                commit_of(
                    ended(active, min_play_time, track_id, position, Some(reason), timestamp),
                ),
            ),
            _ => (active, TrackerAction::Nothing),
        },
        PlaybackEvent::TrackCompleted { track_id, timestamp } => match active {
            Some(a) if a.session.track_id == track_id => (
                None,
                commit_of(
                    ended(active, min_play_time, track_id, a.session.track_duration, None, timestamp),
                ),
            ),
            _ => (active, TrackerAction::Nothing),
        },
    }
}

/// The session that is opened for `track_id` at `timestamp`: nothing heard
/// yet, not paused, with the known length of the track or the default.
pub open spec fn opened(
    session_id: u128,
    track_id: u128,
    timestamp: i64,
    known_duration: Option<u64>,
) -> ActiveSession {
    ActiveSession {
        session: PlaySession {
            session_id,
            track_id,
            started_at: timestamp,
            ended_at: None,
            play_duration: 0,
            track_duration: match known_duration {
                Some(d) => d,
                None => DEFAULT_TRACK_DURATION,
            },
            skip_reason: None,
            completion_percentage: 0,
        },
        actual_play_time: 0,
        pause_start: None,
    }
}

/// The aggregate that a committed session is counted into: the stored one,
/// or a fresh one for the session's track.
pub open spec fn base_behavior(
    existing: Option<TrackBehaviorView>,
    session: PlaySession,
) -> TrackBehaviorView {
    match existing {
        Some(b) => b,
        None => TrackBehavior::fresh(session.track_id),
    }
}

/// The aggregate to store after `session` was committed at the instant
/// `now`: the session counted in, and the weight computed anew.
pub open spec fn recorded(
    existing: Option<TrackBehaviorView>,
    session: PlaySession,
    now: i64,
    decay_days: u64,
) -> TrackBehaviorView {
    let counted = updated_behavior(base_behavior(existing, session), session);
    TrackBehaviorView {
        track_id: counted.track_id,
        total_plays: counted.total_plays,
        total_skips: counted.total_skips,
        total_play_time: counted.total_play_time,
        last_played: counted.last_played,
        skip_positions: counted.skip_positions,
        completion_rate: counted.completion_rate,
        weight: track_weight(counted, now, decay_days) as nat,
        tags: counted.tags,
    }
}

/// The view of an aggregate that may be missing.
pub open spec fn view_of(existing: Option<TrackBehavior>) -> Option<TrackBehaviorView> {
    match existing {
        Some(b) => Some(b@),
        None => None,
    }
}

/// The session that an action asks to be committed, if any.
pub open spec fn committed(action: TrackerAction) -> Option<PlaySession> {
    match action {
        TrackerAction::Nothing => None,
        TrackerAction::Commit(s) => Some(s),
        TrackerAction::Open { superseded, .. } => superseded,
    }
}

/// A session heard for less than the minimum play time is never committed,
/// so it is counted into no aggregate: whatever the state and the event,
/// the session handed out for commit, if any, was heard for at least the
/// minimum, belongs to the session that was in progress, and is closed.
pub proof fn lemma_short_sessions_are_discarded(
    active: Option<ActiveSession>,
    min_play_time: u64,
    event: PlaybackEvent,
)
    ensures
        match committed(step(active, min_play_time, event).1) {
            Some(s) => {
                &&& s.play_duration >= min_play_time
                &&& active is Some
                &&& s.session_id == active->0.session.session_id
                &&& s.track_id == active->0.session.track_id
                &&& s.ended_at is Some
            },
            None => true,
        },
{
}

/// The track that an event is about.
pub open spec fn event_track(event: PlaybackEvent) -> u128 {
    match event {
        PlaybackEvent::TrackStarted { track_id, .. } => track_id,
        PlaybackEvent::TrackPaused { track_id, .. } => track_id,
        PlaybackEvent::TrackResumed { track_id, .. } => track_id,
        PlaybackEvent::TrackSkipped { track_id, .. } => track_id,
        PlaybackEvent::TrackCompleted { track_id, .. } => track_id,
    }
}

/// After a start, and after a skip or a completion for the track in
/// progress, no session is in progress until one is opened.
pub proof fn lemma_ending_events_leave_tracker_idle(
    active: Option<ActiveSession>,
    min_play_time: u64,
    event: PlaybackEvent,
)
    requires
        event is TrackStarted || ((event is TrackSkipped || event is TrackCompleted) && (
        active matches Some(a) ==> a.session.track_id == event_track(event))),
    ensures
        step(active, min_play_time, event).0 is None,
{
}

/// Only a start ends the session of another track: a pause, resume, skip or
/// completion for a track other than the one in progress leaves the session
/// as it was and asks for nothing.
pub proof fn lemma_events_for_another_track_change_nothing(
    in_progress: ActiveSession,
    min_play_time: u64,
    event: PlaybackEvent,
)
    requires
        !(event is TrackStarted),
        event_track(event) != in_progress.session.track_id,
    ensures
        step(Some(in_progress), min_play_time, event) == (
            Some(in_progress),
            TrackerAction::Nothing,
        ),
{
}

/// A start while another session is in progress closes that session first:
/// it ends at the new event's timestamp, skipped for the next track, heard
/// for the time frozen at its last pause. When that reaches the minimum play
/// time it is handed out for commit. Counted into the aggregate that the
/// store holds for its track, or into a fresh one, it gives one more play,
/// one more skip, its play time and one more skip position, and makes its
/// start the latest play.
pub proof fn lemma_start_supersedes_session_in_progress(
    in_progress: ActiveSession,
    min_play_time: u64,
    track_id: u128,
    timestamp: i64,
    existing: Option<TrackBehaviorView>,
    now: i64,
    decay_days: u64,
)
    ensures
        ({
            let (next, action) = step(
                Some(in_progress),
                min_play_time,
                PlaybackEvent::TrackStarted { track_id, timestamp },
            );
            let closed = finalized(
                in_progress,
                in_progress.actual_play_time,
                Some(SkipReason::NextTrack),
                timestamp,
            );
            let before = base_behavior(existing, closed);
            let counted = recorded(existing, closed, now, decay_days);
            &&& next is None
            &&& action == TrackerAction::Open {
                track_id,
                timestamp,
                superseded: if in_progress.actual_play_time >= min_play_time {
                    Some(closed)
                } else {
                    None
                },
            }
            &&& closed.session_id == in_progress.session.session_id
            &&& closed.track_id == in_progress.session.track_id
            &&& closed.started_at == in_progress.session.started_at
            &&& closed.skip_reason == Some(SkipReason::NextTrack)
            &&& closed.ended_at == Some(timestamp)
            &&& closed.play_duration == in_progress.actual_play_time
            &&& existing is None ==> before.track_id == in_progress.session.track_id
                && before.total_plays == 0 && before.total_skips == 0
            &&& counted.track_id == before.track_id
            &&& counted.total_plays == before.total_plays + 1
            &&& counted.total_skips == before.total_skips + 1
            &&& counted.total_play_time == before.total_play_time + in_progress.actual_play_time
            &&& counted.last_played == Some(in_progress.session.started_at)
            &&& counted.skip_positions.len() == before.skip_positions.len() + 1
            &&& counted.skip_positions.drop_last() == before.skip_positions
        }),
{
    let closed = finalized(
        in_progress,
        in_progress.actual_play_time,
        Some(SkipReason::NextTrack),
        timestamp,
    );
    let before = base_behavior(existing, closed);
    let counted = recorded(existing, closed, now, decay_days);
    assert(counted.skip_positions.drop_last() =~= before.skip_positions);
}

/// Follows one listener's playback and closes a session for each attempt to
/// listen to a track.
pub struct BehaviorTracker {
    current_session: Option<ActiveSession>,
    min_play_time: u64,
    calculator: WeightCalculator,
}

impl BehaviorTracker {
    /// The session in progress.
    pub closed spec fn active(&self) -> Option<ActiveSession> {
        self.current_session
    }

    /// Seconds a session must have been heard to count as a play.
    pub closed spec fn min_play_time(&self) -> u64 {
        self.min_play_time
    }

    /// The decay window, in days, of the weights given to aggregates.
    pub closed spec fn decay_days(&self) -> u64 {
        self.calculator.decay_days()
    }

    /// A tracker with no session in progress.
    pub fn new(min_play_time: u64, decay_days: u64) -> (t: Self)
        ensures
            t.active() is None,
            t.min_play_time() == min_play_time,
            t.decay_days() == decay_days,
    {
        Self { current_session: None, min_play_time, calculator: WeightCalculator::new(decay_days) }
    }

    /// The session in progress, if any.
    pub fn current_session(&self) -> (s: Option<ActiveSession>)
        ensures
            s == self.active(),
    {
        self.current_session
    }

    /// Takes one playback event: [`step`]. A session that was heard for
    /// less than the minimum play time is never handed out.
    pub fn handle_event(&mut self, event: PlaybackEvent) -> (action: TrackerAction)
        ensures
            (final(self).active(), action) == step(
                old(self).active(),
                old(self).min_play_time(),
                event,
            ),
            final(self).min_play_time() == old(self).min_play_time(),
            final(self).decay_days() == old(self).decay_days(),
    {
        match event {
            PlaybackEvent::TrackStarted { track_id, timestamp } => {
                let superseded = self.start_session(timestamp);
                TrackerAction::Open { track_id, timestamp, superseded }
            },
            PlaybackEvent::TrackPaused { track_id, position, timestamp } => {
                self.pause_session(track_id, position, timestamp);
                TrackerAction::Nothing
            },
            PlaybackEvent::TrackResumed { track_id, position, timestamp } => {
                self.resume_session(track_id, position, timestamp);
                TrackerAction::Nothing
            },
            PlaybackEvent::TrackSkipped { track_id, position, reason, timestamp } => {
                match self.end_session(track_id, position, Some(reason), timestamp) {
                    Some(s) => TrackerAction::Commit(s),
                    None => TrackerAction::Nothing,
                }
            },
            PlaybackEvent::TrackCompleted { track_id, timestamp } => {
                match self.current_session {
                    Some(a) => {
                        let position: u64 = a.session.track_duration;
                        match self.end_session(track_id, position, None, timestamp) {
                            Some(s) => TrackerAction::Commit(s),
                            None => TrackerAction::Nothing,
                        }
                    },
                    None => TrackerAction::Nothing,
                }
            },
        }
    }

    /// Ends the session in progress, if any, because another track starts.
    fn start_session(&mut self, timestamp: i64) -> (superseded: Option<PlaySession>)
        ensures
            final(self).active() is None,
            final(self).min_play_time() == old(self).min_play_time(),
            final(self).decay_days() == old(self).decay_days(),
            superseded == match old(self).active() {
                Some(a) => ended(
                    old(self).active(),
                    old(self).min_play_time(),
                    a.session.track_id,
                    a.actual_play_time,
                    Some(SkipReason::NextTrack),
                    timestamp,
                ),
                None => None,
            },
    {
        match self.current_session {
            Some(a) => self.end_session(
                a.session.track_id,
                a.actual_play_time,
                Some(SkipReason::NextTrack),
                timestamp,
            ),
            None => None,
        }
    }

    /// Freezes the time heard when the active track is paused.
    fn pause_session(&mut self, track_id: u128, position: u64, timestamp: i64)
        ensures
            final(self).min_play_time() == old(self).min_play_time(),
            final(self).decay_days() == old(self).decay_days(),
            final(self).active() == step(
                old(self).active(),
                old(self).min_play_time(),
                PlaybackEvent::TrackPaused { track_id, position, timestamp },
            ).0,
    {
        match self.current_session {
            Some(a) => {
                if a.session.track_id == track_id && a.pause_start.is_none() {
                    self.current_session = Some(
                        ActiveSession {
                            session: a.session,
                            actual_play_time: position,
                            pause_start: Some(timestamp),
                        },
                    );
                }
            },
            None => {},
        }
    }

    /// Lifts the pause of the active track. The time heard stays as it was
    /// frozen.
    fn resume_session(&mut self, track_id: u128, position: u64, timestamp: i64)
        ensures
            final(self).min_play_time() == old(self).min_play_time(),
            final(self).decay_days() == old(self).decay_days(),
            final(self).active() == step(
                old(self).active(),
                old(self).min_play_time(),
                PlaybackEvent::TrackResumed { track_id, position, timestamp },
            ).0,
    {
        match self.current_session {
            Some(a) => {
                if a.session.track_id == track_id {
                    self.current_session = Some(
                        ActiveSession {
                            session: a.session,
                            actual_play_time: a.actual_play_time,
                            pause_start: None,
                        },
                    );
                }
            },
            None => {},
        }
    }

    /// Closes the session in progress when it is that of `track_id`, and
    /// returns it when it is to be committed. The session of another track
    /// stays in progress.
    fn end_session(
        &mut self,
        track_id: u128,
        position: u64,
        skip_reason: Option<SkipReason>,
        timestamp: i64,
    ) -> (commit: Option<PlaySession>)
        ensures
            final(self).active() == match old(self).active() {
                Some(a) if a.session.track_id != track_id => old(self).active(),
                _ => None,
            },
            final(self).min_play_time() == old(self).min_play_time(),
            final(self).decay_days() == old(self).decay_days(),
            commit == ended(
                old(self).active(),
                old(self).min_play_time(),
                track_id,
                position,
                skip_reason,
                timestamp,
            ),
    {
        match self.current_session {
            Some(a) => {
                if a.session.track_id == track_id {
                    self.current_session = None;
                    let heard: u64 = if position >= a.actual_play_time {
                        position
                    } else {
                        a.actual_play_time
                    };
                    let closed = PlaySession {
                        session_id: a.session.session_id,
                        track_id: a.session.track_id,
                        started_at: a.session.started_at,
                        ended_at: Some(timestamp),
                        play_duration: heard,
                        track_duration: a.session.track_duration,
                        skip_reason,
                        completion_percentage: percent_capped(heard, a.session.track_duration),
                    };
                    if closed.play_duration >= self.min_play_time {
                        Some(closed)
                    } else {
                        None
                    }
                } else {
                    None
                }
            },
            None => None,
        }
    }

    /// Opens the session of a track that has started, under the given
    /// session identifier. `known_duration` is the track's length in seconds
    /// as the store has it. A session still in progress is replaced.
    pub fn open_session_as(
        &mut self,
        session_id: u128,
        track_id: u128,
        timestamp: i64,
        known_duration: Option<u64>,
    )
        ensures
            final(self).active() == Some(opened(session_id, track_id, timestamp, known_duration)),
            final(self).min_play_time() == old(self).min_play_time(),
            final(self).decay_days() == old(self).decay_days(),
    {
        let track_duration: u64 = match known_duration {
            Some(d) => d,
            None => DEFAULT_TRACK_DURATION,
        };
        let session = PlaySession {
            session_id,
            track_id,
            started_at: timestamp,
            ended_at: None,
            play_duration: 0,
            track_duration,
            skip_reason: None,
            completion_percentage: 0,
        };
        self.current_session = Some(
            ActiveSession { session, actual_play_time: 0, pause_start: None },
        );
    }

    /// Opens the session of a track that has started, as
    /// [`BehaviorTracker::open_session_as`] does, under a fresh random
    /// session identifier, which is returned.
    pub fn open_session(&mut self, track_id: u128, timestamp: i64, known_duration: Option<u64>) -> (session_id:
        u128)
        ensures
            is_random_uuid(session_id),
            final(self).active() == Some(opened(session_id, track_id, timestamp, known_duration)),
            final(self).min_play_time() == old(self).min_play_time(),
            final(self).decay_days() == old(self).decay_days(),
    {
        let session_id: u128 = fresh_uuid();
        self.open_session_as(session_id, track_id, timestamp, known_duration);
        session_id
    }

    /// The aggregate to store for a committed session, with its weight
    /// computed for the instant `now`: [`recorded`]. `existing` is the
    /// aggregate stored for the session's track so far.
    pub fn record_session_at(
        &self,
        existing: Option<TrackBehavior>,
        session: &PlaySession,
        now: i64,
    ) -> (behavior: TrackBehavior)
        requires
            can_count(base_behavior(view_of(existing), *session), *session),
        ensures
            behavior@ == recorded(view_of(existing), *session, now, self.decay_days()),
            MIN_WEIGHT <= behavior.weight <= MAX_WEIGHT,
    {
        let mut behavior = match existing {
            Some(b) => b,
            None => TrackBehavior::new(session.track_id),
        };
        behavior.update_from_session(session);
        let weight: u64 = self.calculator.calculate_weight(&behavior, now);
        behavior.weight = weight;
        behavior
    }

    /// The aggregate to store for a committed session, as
    /// [`BehaviorTracker::record_session_at`] computes it for the present
    /// instant.
    pub fn record_session(&self, existing: Option<TrackBehavior>, session: &PlaySession) -> (behavior:
        TrackBehavior)
        requires
            can_count(base_behavior(view_of(existing), *session), *session),
        ensures
            exists|now: i64|
                behavior@ == recorded(view_of(existing), *session, now, self.decay_days()),
            MIN_WEIGHT <= behavior.weight <= MAX_WEIGHT,
    {
        let now: i64 = now_millis();
        self.record_session_at(existing, session, now)
    }
}

} // verus!
