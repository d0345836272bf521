use panpipe::behavior::tracker::{
    ActiveSession, BehaviorTracker, PlaybackEvent, TrackerAction, DEFAULT_TRACK_DURATION,
};
use panpipe::behavior::{PlaySession, SkipReason, TrackBehavior};
use panpipe::fixed::UNIT;

const A: u128 = 0xA;
const B: u128 = 0xB;
const T0: i64 = 1_700_000_000_000;

fn started(track_id: u128, timestamp: i64) -> PlaybackEvent {
    PlaybackEvent::TrackStarted { track_id, timestamp }
}

fn open(tracker: &mut BehaviorTracker, track_id: u128, timestamp: i64, length: Option<u64>) {
    assert_eq!(
        tracker.handle_event(started(track_id, timestamp)),
        TrackerAction::Open { track_id, timestamp, superseded: None }
    );
    tracker.open_session_as(1, track_id, timestamp, length);
}

#[test]
fn new_tracker_is_idle() {
    let tracker = BehaviorTracker::new(10, 30);
    assert_eq!(tracker.current_session(), None);
}

#[test]
fn start_opens_a_session_with_the_known_length() {
    let mut tracker = BehaviorTracker::new(10, 30);
    open(&mut tracker, A, T0, Some(240));
    assert_eq!(
        tracker.current_session(),
        Some(ActiveSession {
            session: PlaySession {
                session_id: 1,
                track_id: A,
                started_at: T0,
                ended_at: None,
                play_duration: 0,
                track_duration: 240,
                skip_reason: None,
                completion_percentage: 0,
            },
            actual_play_time: 0,
            pause_start: None,
        })
    );
}

#[test]
fn unknown_length_falls_back_to_three_minutes() {
    let mut tracker = BehaviorTracker::new(10, 30);
    open(&mut tracker, A, T0, None);
    assert_eq!(tracker.current_session().unwrap().session.track_duration, 180);
    assert_eq!(DEFAULT_TRACK_DURATION, 180);
}

#[test]
fn open_session_draws_a_random_version_four_identifier() {
    let mut tracker = BehaviorTracker::new(10, 30);
    let first = tracker.open_session(A, T0, None);
    let second = tracker.open_session(A, T0, None);
    assert_ne!(first, second);
    for id in [first, second] {
        assert_eq!((id >> 76) & 0xf, 4);
        assert_eq!((id >> 62) & 0x3, 2);
    }
    assert_eq!(tracker.current_session().unwrap().session.session_id, second);
}

#[test]
fn pause_freezes_play_time_and_resume_keeps_it() {
    let mut tracker = BehaviorTracker::new(10, 30);
    open(&mut tracker, A, T0, Some(200));
    let paused = PlaybackEvent::TrackPaused { track_id: A, position: 42, timestamp: T0 + 42_000 };
    assert_eq!(tracker.handle_event(paused), TrackerAction::Nothing);
    let active = tracker.current_session().unwrap();
    assert_eq!(active.actual_play_time, 42);
    assert_eq!(active.pause_start, Some(T0 + 42_000));
    // a second pause while paused changes nothing
    let again = PlaybackEvent::TrackPaused { track_id: A, position: 99, timestamp: T0 + 50_000 };
    assert_eq!(tracker.handle_event(again), TrackerAction::Nothing);
    assert_eq!(tracker.current_session(), Some(active));
    let resumed = PlaybackEvent::TrackResumed { track_id: A, position: 0, timestamp: T0 + 60_000 };
    assert_eq!(tracker.handle_event(resumed), TrackerAction::Nothing);
    let active = tracker.current_session().unwrap();
    assert_eq!(active.actual_play_time, 42);
    assert_eq!(active.pause_start, None);
}

#[test]
fn pause_and_resume_for_another_track_are_ignored() {
    let mut tracker = BehaviorTracker::new(10, 30);
    open(&mut tracker, A, T0, Some(200));
    let before = tracker.current_session();
    let paused = PlaybackEvent::TrackPaused { track_id: B, position: 42, timestamp: T0 + 1 };
    assert_eq!(tracker.handle_event(paused), TrackerAction::Nothing);
    let resumed = PlaybackEvent::TrackResumed { track_id: B, position: 42, timestamp: T0 + 2 };
    assert_eq!(tracker.handle_event(resumed), TrackerAction::Nothing);
    assert_eq!(tracker.current_session(), before);
}

#[test]
fn skip_commits_a_finalized_session() {
    let mut tracker = BehaviorTracker::new(10, 30);
    open(&mut tracker, A, T0, Some(200));
    let skipped = PlaybackEvent::TrackSkipped {
        track_id: A,
        position: 50,
        reason: SkipReason::UserSkip,
        timestamp: T0 + 50_000,
    };
    assert_eq!(
        tracker.handle_event(skipped),
        TrackerAction::Commit(PlaySession {
            session_id: 1,
            track_id: A,
            started_at: T0,
            ended_at: Some(T0 + 50_000),
            play_duration: 50,
            track_duration: 200,
            skip_reason: Some(SkipReason::UserSkip),
            completion_percentage: 25 * UNIT,
        })
    );
    assert_eq!(tracker.current_session(), None);
}

#[test]
fn play_duration_is_the_longer_of_position_and_frozen_time() {
    let mut tracker = BehaviorTracker::new(10, 30);
    open(&mut tracker, A, T0, Some(200));
    tracker.handle_event(PlaybackEvent::TrackPaused { track_id: A, position: 120, timestamp: T0 + 1 });
    let skipped = PlaybackEvent::TrackSkipped {
        track_id: A,
        position: 30,
        reason: SkipReason::PreviousTrack,
        timestamp: T0 + 2,
    };
    match tracker.handle_event(skipped) {
        TrackerAction::Commit(s) => {
            assert_eq!(s.play_duration, 120);
            assert_eq!(s.completion_percentage, 60 * UNIT);
        }
        other => panic!("{:?}", other),
    }
}

#[test]
fn short_session_is_discarded_silently() {
    let mut tracker = BehaviorTracker::new(10, 30);
    open(&mut tracker, A, T0, Some(200));
    let skipped = PlaybackEvent::TrackSkipped {
        track_id: A,
        position: 9,
        reason: SkipReason::UserSkip,
        timestamp: T0 + 9_000,
    };
    assert_eq!(tracker.handle_event(skipped), TrackerAction::Nothing);
    assert_eq!(tracker.current_session(), None);
}

#[test]
fn session_of_exactly_the_minimum_counts() {
    let mut tracker = BehaviorTracker::new(10, 30);
    open(&mut tracker, A, T0, Some(200));
    let skipped = PlaybackEvent::TrackSkipped {
        track_id: A,
        position: 10,
        reason: SkipReason::UserSkip,
        timestamp: T0 + 10_000,
    };
    assert!(matches!(tracker.handle_event(skipped), TrackerAction::Commit(_)));
}

#[test]
fn completion_counts_the_whole_track() {
    let mut tracker = BehaviorTracker::new(10, 30);
    open(&mut tracker, A, T0, None);
    let done = PlaybackEvent::TrackCompleted { track_id: A, timestamp: T0 + 180_000 };
    assert_eq!(
        tracker.handle_event(done),
        TrackerAction::Commit(PlaySession {
            session_id: 1,
            track_id: A,
            started_at: T0,
            ended_at: Some(T0 + 180_000),
            play_duration: 180,
            track_duration: 180,
            skip_reason: None,
            completion_percentage: 100 * UNIT,
        })
    );
    assert_eq!(tracker.current_session(), None);
}

#[test]
fn completion_is_capped_at_one_hundred_percent() {
    let mut tracker = BehaviorTracker::new(10, 30);
    open(&mut tracker, A, T0, Some(100));
    let skipped = PlaybackEvent::TrackSkipped {
        track_id: A,
        position: 250,
        reason: SkipReason::PlaylistEnd,
        timestamp: T0 + 1,
    };
    match tracker.handle_event(skipped) {
        TrackerAction::Commit(s) => assert_eq!(s.completion_percentage, 100 * UNIT),
        other => panic!("{:?}", other),
    }
}

#[test]
fn skip_for_another_track_leaves_the_session_in_progress() {
    let mut tracker = BehaviorTracker::new(10, 30);
    open(&mut tracker, A, T0, Some(200));
    tracker.handle_event(PlaybackEvent::TrackPaused { track_id: A, position: 40, timestamp: T0 + 1 });
    let before = tracker.current_session();
    let skipped = PlaybackEvent::TrackSkipped {
        track_id: B,
        position: 100,
        reason: SkipReason::Error,
        timestamp: T0 + 2,
    };
    assert_eq!(tracker.handle_event(skipped), TrackerAction::Nothing);
    assert_eq!(tracker.current_session(), before);
    assert!(before.is_some());
    // the session can still be ended for its own track
    let own = PlaybackEvent::TrackSkipped {
        track_id: A,
        position: 60,
        reason: SkipReason::UserSkip,
        timestamp: T0 + 3,
    };
    match tracker.handle_event(own) {
        TrackerAction::Commit(s) => {
            assert_eq!(s.track_id, A);
            assert_eq!(s.play_duration, 60);
        }
        other => panic!("{:?}", other),
    }
    assert_eq!(tracker.current_session(), None);
}

#[test]
fn completion_for_another_track_leaves_the_session_in_progress() {
    let mut tracker = BehaviorTracker::new(10, 30);
    open(&mut tracker, A, T0, Some(200));
    let before = tracker.current_session();
    let done = PlaybackEvent::TrackCompleted { track_id: B, timestamp: T0 + 200_000 };
    assert_eq!(tracker.handle_event(done), TrackerAction::Nothing);
    assert_eq!(tracker.current_session(), before);
    let own = PlaybackEvent::TrackCompleted { track_id: A, timestamp: T0 + 200_000 };
    assert!(matches!(tracker.handle_event(own), TrackerAction::Commit(_)));
    assert_eq!(tracker.current_session(), None);
}

#[test]
fn superseded_session_counts_into_a_stored_aggregate() {
    let mut tracker = BehaviorTracker::new(10, 30);
    open(&mut tracker, A, T0, Some(200));
    tracker.handle_event(PlaybackEvent::TrackPaused { track_id: A, position: 50, timestamp: T0 + 50_000 });
    let closed = match tracker.handle_event(started(B, T0 + 60_000)) {
        TrackerAction::Open { superseded: Some(s), .. } => s,
        other => panic!("{:?}", other),
    };
    let mut stored = TrackBehavior::new(A);
    stored.total_plays = 4;
    stored.total_skips = 1;
    stored.total_play_time = 700;
    stored.skip_positions = vec![80];
    stored.completion_rate = 60 * UNIT;
    stored.last_played = Some(T0 - 5);
    let aggregate = tracker.record_session_at(Some(stored), &closed, T0 + 61_000);
    assert_eq!(aggregate.total_plays, 5);
    assert_eq!(aggregate.total_skips, 2);
    assert_eq!(aggregate.total_play_time, 750);
    assert_eq!(aggregate.skip_positions, vec![80, 25]);
    assert_eq!(aggregate.last_played, Some(T0));
    // 0.7 x 60 + 0.3 x 25
    assert_eq!(aggregate.completion_rate, 49_500_000);
}

#[test]
fn events_without_a_session_do_nothing() {
    let mut tracker = BehaviorTracker::new(10, 30);
    let done = PlaybackEvent::TrackCompleted { track_id: A, timestamp: T0 };
    assert_eq!(tracker.handle_event(done), TrackerAction::Nothing);
    let skipped = PlaybackEvent::TrackSkipped {
        track_id: A,
        position: 100,
        reason: SkipReason::UserSkip,
        timestamp: T0,
    };
    assert_eq!(tracker.handle_event(skipped), TrackerAction::Nothing);
    let paused = PlaybackEvent::TrackPaused { track_id: A, position: 1, timestamp: T0 };
    assert_eq!(tracker.handle_event(paused), TrackerAction::Nothing);
    assert_eq!(tracker.current_session(), None);
}

#[test]
fn new_start_supersedes_the_session_in_progress_as_a_skip() {
    let mut tracker = BehaviorTracker::new(10, 30);
    open(&mut tracker, A, T0, Some(200));
    tracker.handle_event(PlaybackEvent::TrackPaused { track_id: A, position: 50, timestamp: T0 + 50_000 });
    let action = tracker.handle_event(started(B, T0 + 60_000));
    let closed = PlaySession {
        session_id: 1,
        track_id: A,
        started_at: T0,
        ended_at: Some(T0 + 60_000),
        play_duration: 50,
        track_duration: 200,
        skip_reason: Some(SkipReason::NextTrack),
        completion_percentage: 25 * UNIT,
    };
    assert_eq!(
        action,
        TrackerAction::Open { track_id: B, timestamp: T0 + 60_000, superseded: Some(closed) }
    );
    // nothing is in progress until the new session is opened
    assert_eq!(tracker.current_session(), None);
    let aggregate = tracker.record_session_at(None, &closed, T0 + 61_000);
    assert_eq!(aggregate.track_id, A);
    assert_eq!(aggregate.total_plays, 1);
    assert_eq!(aggregate.total_skips, 1);
    assert_eq!(aggregate.total_play_time, 50);
    assert_eq!(aggregate.skip_positions, vec![25]);
    assert_eq!(aggregate.completion_rate, 25 * UNIT);
    assert_eq!(aggregate.last_played, Some(T0));
    tracker.open_session_as(2, B, T0 + 60_000, None);
    assert_eq!(tracker.current_session().unwrap().session.track_id, B);
}

#[test]
fn superseded_session_that_was_never_paused_is_discarded() {
    let mut tracker = BehaviorTracker::new(10, 30);
    open(&mut tracker, A, T0, Some(200));
    assert_eq!(
        tracker.handle_event(started(B, T0 + 60_000)),
        TrackerAction::Open { track_id: B, timestamp: T0 + 60_000, superseded: None }
    );
}

#[test]
fn recorded_aggregate_carries_a_fresh_weight() {
    let tracker = BehaviorTracker::new(10, 30);
    let session = PlaySession {
        session_id: 5,
        track_id: A,
        started_at: T0,
        ended_at: Some(T0 + 200_000),
        play_duration: 200,
        track_duration: 200,
        skip_reason: None,
        completion_percentage: 100 * UNIT,
    };
    let first = tracker.record_session_at(None, &session, T0 + 200_000);
    assert_eq!(first.total_plays, 1);
    assert_eq!(first.tags, vec!["favorite".to_string(), "low_skip_rate".to_string()]);
    // 0.8 (played today) x 1.5 x 1.0 x 1.8 x 1.2
    assert_eq!(first.weight, 2_592_000);
    let mut stored = TrackBehavior::new(A);
    stored.total_plays = 3;
    stored.total_skips = 3;
    stored.completion_rate = 10 * UNIT;
    stored.weight = 77;
    let second = tracker.record_session_at(Some(stored), &session, T0 + 40 * 86_400_000);
    assert_eq!(second.total_plays, 4);
    assert_eq!(second.total_skips, 3);
    // 0.7 x 10 + 0.3 x 100
    assert_eq!(second.completion_rate, 37 * UNIT);
    assert_eq!(second.tags, vec!["high_skip_rate".to_string()]);
    // (1 + 40 / 30 x 0.2) x (1 - 0.75 x 0.6) x 0.3
    let recency: u64 = 1_000_000 + 40 * 200_000 / 30;
    let after_skips = recency * 550_000 / 1_000_000;
    assert_eq!(second.weight, after_skips * 300_000 / 1_000_000);
    let now = tracker.record_session(None, &session);
    assert!(now.weight >= 50_000 && now.weight <= 5_000_000);
    assert_eq!(now.total_plays, 1);
}
