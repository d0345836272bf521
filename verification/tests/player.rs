use panpipe::audio::player::{
    AudioPlayer, PlaybackError, PlaybackState, PlayerAction, PlayerEvent,
};
use panpipe::audio::{AudioConfig, Track};

fn config() -> AudioConfig {
    AudioConfig::default()
}

fn track(duration: Option<u64>) -> Track {
    let mut t = Track::with_id(11, "/music/a.mp3".to_string());
    t.duration = duration;
    t
}

fn fade_in(target: u64, step: u64, wait: u64) -> Vec<PlayerAction> {
    let mut v = vec![PlayerAction::SetVolume(0)];
    for i in 1..=10u64 {
        v.push(PlayerAction::SetVolume(step * i));
        v.push(PlayerAction::Wait(wait));
    }
    v.push(PlayerAction::SetVolume(target));
    v
}

fn fade_out(from: u64, step: u64, steps: u64, wait: u64) -> Vec<PlayerAction> {
    let mut v = Vec::new();
    for i in 1..=steps {
        v.push(PlayerAction::SetVolume(from - step * i));
        v.push(PlayerAction::Wait(wait));
    }
    v.push(PlayerAction::SetVolume(0));
    v
}

#[test]
fn default_config_has_documented_values() {
    let c = AudioConfig::default();
    assert_eq!(c.volume, 700_000);
    assert_eq!(c.fade_in_duration, 300);
    assert_eq!(c.fade_out_duration, 200);
    assert_eq!(c.crossfade_duration, 500);
    assert_eq!(c.buffer_size, 65536);
    assert_eq!(c.sample_rate, 44100);
    assert_eq!(c.channels, 2);
}

#[test]
fn new_engine_is_stopped() {
    let p = AudioPlayer::new(config());
    assert_eq!(p.get_state(), PlaybackState::Stopped);
    assert_eq!(p.get_current_track(), None);
    assert_eq!(p.get_volume(), 700_000);
    assert!(p.is_finished(false));
    assert!(p.is_finished(true));
}

#[test]
fn stop_on_stopped_engine_still_reports_stop() {
    let mut p = AudioPlayer::new(config());
    assert_eq!(p.stop(), vec![PlayerAction::Emit(PlayerEvent::TrackStopped)]);
    assert_eq!(p.stop(), vec![PlayerAction::Emit(PlayerEvent::TrackStopped)]);
    assert_eq!(p.get_state(), PlaybackState::Stopped);
}

#[test]
fn pause_and_resume_without_sink_do_nothing() {
    let mut p = AudioPlayer::new(config());
    assert!(p.pause().is_empty());
    assert!(p.resume().is_empty());
    assert_eq!(p.get_state(), PlaybackState::Stopped);
}

#[test]
fn set_volume_clamps_and_reports() {
    let mut p = AudioPlayer::new(config());
    assert_eq!(
        p.set_volume(1_500_000),
        vec![PlayerAction::Emit(PlayerEvent::VolumeChanged(1_000_000))]
    );
    assert_eq!(p.get_volume(), 1_000_000);
    assert_eq!(p.set_volume(0), vec![PlayerAction::Emit(PlayerEvent::VolumeChanged(0))]);
    assert_eq!(p.get_volume(), 0);
    assert_eq!(
        p.set_volume(333_333),
        vec![PlayerAction::Emit(PlayerEvent::VolumeChanged(333_333))]
    );
    assert_eq!(p.get_volume(), 333_333);
    assert_eq!(p.set_volume(1_000_000).len(), 1);
    assert_eq!(p.get_volume(), 1_000_000);
}

#[test]
fn set_volume_reaches_the_live_sink() {
    let mut p = AudioPlayer::new(config());
    p.play_track(track(Some(1000)), Ok(()), 0);
    assert_eq!(
        p.set_volume(400_000),
        vec![
            PlayerAction::SetVolume(400_000),
            PlayerAction::Emit(PlayerEvent::VolumeChanged(400_000)),
        ]
    );
}

#[test]
fn play_track_starts_and_fades_in() {
    let mut p = AudioPlayer::new(config());
    let t = track(Some(200_000));
    let actions = p.play_track(t.clone(), Ok(()), 5);
    let mut expected = vec![
        PlayerAction::Emit(PlayerEvent::TrackStopped),
        PlayerAction::StartSink(700_000),
    ];
    expected.extend(fade_in(700_000, 70_000, 30));
    expected.push(PlayerAction::Emit(PlayerEvent::TrackStarted(t.clone())));
    assert_eq!(actions, expected);
    assert_eq!(p.get_state(), PlaybackState::Playing);
    assert_eq!(p.get_current_track(), Some(t));
    assert!(!p.is_finished(false));
    assert!(p.is_finished(true));
}

#[test]
fn fade_in_snaps_to_target_when_steps_do_not_divide_it() {
    let mut c = config();
    c.volume = 700_005;
    c.fade_in_duration = 95;
    let mut p = AudioPlayer::new(c);
    let actions = p.play_track(track(Some(1)), Ok(()), 0);
    // ten steps of 70_000 reach 700_000; the last word is the exact target
    assert_eq!(actions[actions.len() - 4], PlayerAction::SetVolume(700_000));
    assert_eq!(actions[actions.len() - 3], PlayerAction::Wait(9));
    assert_eq!(actions[actions.len() - 2], PlayerAction::SetVolume(700_005));
}

#[test]
fn zero_fade_in_sets_the_volume_at_once() {
    let mut c = config();
    c.fade_in_duration = 0;
    let mut p = AudioPlayer::new(c);
    let t = track(Some(1));
    assert_eq!(
        p.play_track(t.clone(), Ok(()), 0),
        vec![
            PlayerAction::Emit(PlayerEvent::TrackStopped),
            PlayerAction::StartSink(700_000),
            PlayerAction::SetVolume(700_000),
            PlayerAction::Emit(PlayerEvent::TrackStarted(t)),
        ]
    );
}

#[test]
fn stop_fades_out_in_fifteen_steps_to_silence() {
    let mut p = AudioPlayer::new(config());
    p.play_track(track(Some(1)), Ok(()), 0);
    let mut expected = fade_out(700_000, 46_666, 15, 13);
    expected.push(PlayerAction::StopSink);
    expected.push(PlayerAction::Emit(PlayerEvent::TrackStopped));
    let actions = p.stop();
    assert_eq!(actions, expected);
    // the fifteenth step leaves a residue that the final step removes
    assert_eq!(actions[28], PlayerAction::SetVolume(10));
    assert_eq!(actions[30], PlayerAction::SetVolume(0));
    assert_eq!(p.get_state(), PlaybackState::Stopped);
    assert!(p.get_current_track().is_some());
}

#[test]
fn zero_fade_out_stops_without_fading() {
    let mut c = config();
    c.fade_out_duration = 0;
    let mut p = AudioPlayer::new(c);
    p.play_track(track(Some(1)), Ok(()), 0);
    assert_eq!(
        p.stop(),
        vec![PlayerAction::StopSink, PlayerAction::Emit(PlayerEvent::TrackStopped)]
    );
}

#[test]
fn pause_uses_the_quick_fade() {
    let mut c = config();
    c.fade_out_duration = 0;
    let mut p = AudioPlayer::new(c);
    p.play_track(track(Some(1)), Ok(()), 0);
    let mut expected = fade_out(700_000, 70_000, 10, 10);
    expected.push(PlayerAction::PauseSink);
    expected.push(PlayerAction::Emit(PlayerEvent::TrackPaused));
    assert_eq!(p.pause(), expected);
    assert_eq!(p.get_state(), PlaybackState::Paused);
}

#[test]
fn resume_plays_on_and_fades_in() {
    let mut p = AudioPlayer::new(config());
    p.play_track(track(Some(1)), Ok(()), 0);
    p.pause();
    let mut expected = vec![PlayerAction::ResumeSink];
    expected.extend(fade_in(700_000, 70_000, 30));
    expected.push(PlayerAction::Emit(PlayerEvent::TrackResumed));
    assert_eq!(p.resume(), expected);
    assert_eq!(p.get_state(), PlaybackState::Playing);
}

#[test]
fn playing_another_track_stops_the_first() {
    let mut p = AudioPlayer::new(config());
    p.play_track(track(Some(1)), Ok(()), 0);
    let mut second = track(Some(2));
    second.id = 12;
    let actions = p.play_track(second.clone(), Ok(()), 0);
    let mut expected = fade_out(700_000, 46_666, 15, 13);
    expected.push(PlayerAction::StopSink);
    expected.push(PlayerAction::Emit(PlayerEvent::TrackStopped));
    expected.push(PlayerAction::StartSink(700_000));
    expected.extend(fade_in(700_000, 70_000, 30));
    expected.push(PlayerAction::Emit(PlayerEvent::TrackStarted(second.clone())));
    assert_eq!(actions, expected);
    assert_eq!(p.get_current_track(), Some(second));
}

#[test]
fn failed_open_reports_error_and_stays_stopped() {
    let mut p = AudioPlayer::new(config());
    let actions = p.play_track(
        track(None),
        Err(PlaybackError::OpenFailed("No such file".to_string())),
        0,
    );
    assert_eq!(
        actions,
        vec![
            PlayerAction::Emit(PlayerEvent::TrackStopped),
            PlayerAction::Emit(PlayerEvent::Error("Failed to open file: No such file".to_string())),
        ]
    );
    assert_eq!(p.get_state(), PlaybackState::Stopped);
    assert_eq!(p.get_current_track(), None);
    assert!(p.duration_observed(5).is_empty());
}

#[test]
fn failed_decode_stops_what_was_playing() {
    let mut p = AudioPlayer::new(config());
    let first = track(Some(1));
    p.play_track(first.clone(), Ok(()), 0);
    let actions = p.play_track(
        track(None),
        Err(PlaybackError::DecodeFailed("bad header".to_string())),
        0,
    );
    assert_eq!(
        actions.last(),
        Some(&PlayerAction::Emit(PlayerEvent::Error(
            "Unsupported audio format or corrupted file: bad header".to_string()
        )))
    );
    assert_eq!(actions[actions.len() - 2], PlayerAction::Emit(PlayerEvent::TrackStopped));
    assert_eq!(actions[actions.len() - 3], PlayerAction::StopSink);
    assert_eq!(p.get_state(), PlaybackState::Stopped);
    assert_eq!(p.get_current_track(), Some(first));
}

#[test]
fn error_messages_name_the_failed_step() {
    assert_eq!(
        PlaybackError::OpenFailed("x".to_string()).message(),
        "Failed to open file: x"
    );
    assert_eq!(
        PlaybackError::DecodeFailed("y".to_string()).message(),
        "Unsupported audio format or corrupted file: y"
    );
}

#[test]
fn unknown_length_is_learned_from_observed_playback() {
    let mut p = AudioPlayer::new(config());
    let t = track(None);
    p.play_track(t.clone(), Ok(()), 1000);
    let mut learned = t.clone();
    learned.duration = Some(185_000);
    learned.metadata.duration_ms = Some(185_000);
    assert_eq!(
        p.duration_observed(185_000),
        vec![PlayerAction::Emit(PlayerEvent::DurationLearned(learned, 185_000))]
    );
    // learning ends with the first observation
    assert!(p.duration_observed(190_000).is_empty());
}

#[test]
fn known_length_starts_no_learning() {
    let mut p = AudioPlayer::new(config());
    p.play_track(track(Some(200_000)), Ok(()), 1000);
    assert!(p.duration_observed(185_000).is_empty());
}

#[test]
fn fade_in_alone_ends_at_the_exact_target() {
    let mut c = config();
    c.volume = 333_337;
    c.fade_in_duration = 250;
    let p = AudioPlayer::new(c);
    let mut actions = vec![PlayerAction::ResumeSink];
    p.fade_in(&mut actions);
    assert_eq!(actions.len(), 1 + 22);
    assert_eq!(actions[1], PlayerAction::SetVolume(0));
    assert_eq!(actions[2], PlayerAction::SetVolume(33_333));
    assert_eq!(actions[3], PlayerAction::Wait(25));
    assert_eq!(actions[20], PlayerAction::SetVolume(333_330));
    assert_eq!(actions.last(), Some(&PlayerAction::SetVolume(333_337)));
    c.fade_in_duration = 0;
    let p = AudioPlayer::new(c);
    let mut actions = Vec::new();
    p.fade_in(&mut actions);
    assert_eq!(actions, vec![PlayerAction::SetVolume(333_337)]);
}

#[test]
fn fade_out_alone_descends_to_exact_silence() {
    let mut c = config();
    c.volume = 1_000_000;
    c.fade_out_duration = 150;
    let p = AudioPlayer::new(c);
    let mut actions = Vec::new();
    p.fade_out(&mut actions);
    assert_eq!(actions.len(), 31);
    let mut last = 1_000_000;
    for action in actions.iter() {
        if let PlayerAction::SetVolume(v) = action {
            assert!(*v <= last);
            last = *v;
        } else {
            assert_eq!(action, &PlayerAction::Wait(10));
        }
    }
    assert_eq!(actions[0], PlayerAction::SetVolume(933_334));
    assert_eq!(actions[28], PlayerAction::SetVolume(10));
    assert_eq!(actions.last(), Some(&PlayerAction::SetVolume(0)));
    assert_eq!(p.get_volume(), 1_000_000);
    c.fade_out_duration = 0;
    let p = AudioPlayer::new(c);
    let mut actions = vec![PlayerAction::PauseSink];
    p.fade_out(&mut actions);
    assert_eq!(actions, vec![PlayerAction::PauseSink]);
}

#[test]
fn quick_fade_out_takes_ten_steps_whatever_the_configured_fade() {
    for configured in [0u64, 200, 5_000] {
        let mut c = config();
        c.volume = 500_005;
        c.fade_out_duration = configured;
        let p = AudioPlayer::new(c);
        let mut actions = Vec::new();
        p.fade_out_quick(&mut actions);
        assert_eq!(actions, fade_out(500_005, 50_000, 10, 10));
        assert_eq!(actions.len(), 21);
        assert_eq!(actions[18], PlayerAction::SetVolume(5));
        assert_eq!(actions.last(), Some(&PlayerAction::SetVolume(0)));
    }
}
