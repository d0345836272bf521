use panpipe::audio::playlist::{name_in_use, Playlist};
use panpipe::ui::{
    key_to_app_event, moved_selection, next_index, previous_index, volume_down, volume_up,
    AppEvent, Key, RepeatMode,
};

#[test]
fn keys_stand_for_events() {
    assert_eq!(key_to_app_event(Key::Char('q')), Some(AppEvent::Quit));
    assert_eq!(key_to_app_event(Key::Esc), Some(AppEvent::Quit));
    assert_eq!(key_to_app_event(Key::Char(' ')), Some(AppEvent::TogglePlayPause));
    assert_eq!(key_to_app_event(Key::Char('p')), Some(AppEvent::Play));
    assert_eq!(key_to_app_event(Key::Char('s')), Some(AppEvent::Stop));
    assert_eq!(key_to_app_event(Key::Char('n')), Some(AppEvent::NextTrack));
    assert_eq!(key_to_app_event(Key::Right), Some(AppEvent::NextTrack));
    assert_eq!(key_to_app_event(Key::Char('b')), Some(AppEvent::PreviousTrack));
    assert_eq!(key_to_app_event(Key::Left), Some(AppEvent::PreviousTrack));
    assert_eq!(key_to_app_event(Key::Up), Some(AppEvent::Up));
    assert_eq!(key_to_app_event(Key::Down), Some(AppEvent::Down));
    assert_eq!(key_to_app_event(Key::Enter), Some(AppEvent::Enter));
    assert_eq!(key_to_app_event(Key::Backspace), Some(AppEvent::Back));
    assert_eq!(key_to_app_event(Key::Char('+')), Some(AppEvent::VolumeUp));
    assert_eq!(key_to_app_event(Key::Char('=')), Some(AppEvent::VolumeUp));
    assert_eq!(key_to_app_event(Key::Char('-')), Some(AppEvent::VolumeDown));
    assert_eq!(key_to_app_event(Key::Char('z')), Some(AppEvent::ToggleShuffle));
    assert_eq!(key_to_app_event(Key::Char('r')), Some(AppEvent::ToggleRepeat));
    assert_eq!(key_to_app_event(Key::F(5)), Some(AppEvent::RefreshLibrary));
    assert_eq!(key_to_app_event(Key::F(4)), None);
    assert_eq!(key_to_app_event(Key::Char('Q')), None);
    assert_eq!(key_to_app_event(Key::Char('x')), None);
    assert_eq!(key_to_app_event(Key::Other), None);
}

#[test]
fn volume_moves_in_tenths_within_bounds() {
    assert_eq!(volume_up(700_000), 800_000);
    assert_eq!(volume_up(900_000), 1_000_000);
    assert_eq!(volume_up(950_000), 1_000_000);
    assert_eq!(volume_up(1_000_000), 1_000_000);
    assert_eq!(volume_up(u64::MAX), 1_000_000);
    assert_eq!(volume_down(700_000), 600_000);
    assert_eq!(volume_down(100_000), 0);
    assert_eq!(volume_down(50_000), 0);
    assert_eq!(volume_down(0), 0);
}

#[test]
fn next_and_previous_wrap_only_when_all_are_repeated() {
    assert_eq!(next_index(0, 3, RepeatMode::Off), Some(1));
    assert_eq!(next_index(2, 3, RepeatMode::Off), None);
    assert_eq!(next_index(2, 3, RepeatMode::One), None);
    assert_eq!(next_index(2, 3, RepeatMode::All), Some(0));
    assert_eq!(next_index(usize::MAX, 3, RepeatMode::All), Some(0));
    assert_eq!(previous_index(2, 3, RepeatMode::Off), Some(1));
    assert_eq!(previous_index(0, 3, RepeatMode::Off), None);
    assert_eq!(previous_index(0, 3, RepeatMode::One), None);
    assert_eq!(previous_index(0, 3, RepeatMode::All), Some(2));
}

#[test]
fn selection_stops_at_both_ends() {
    assert_eq!(moved_selection(0, -1, 5), 0);
    assert_eq!(moved_selection(3, -1, 5), 2);
    assert_eq!(moved_selection(3, 1, 5), 4);
    assert_eq!(moved_selection(4, 1, 5), 4);
    assert_eq!(moved_selection(2, 10, 5), 4);
    assert_eq!(moved_selection(2, -10, 5), 0);
    assert_eq!(moved_selection(2, i32::MIN, 5), 0);
    assert_eq!(moved_selection(0, 0, 1), 0);
}

#[test]
fn playlist_names_are_unique() {
    let a = Playlist::create("1".to_string(), "Road".to_string(), None, 0);
    let b = Playlist::create("2".to_string(), "Home".to_string(), None, 0);
    let all = vec![&a, &b];
    assert!(name_in_use(&all, "Road", None));
    assert!(name_in_use(&all, "Home", Some("1")));
    assert!(!name_in_use(&all, "Home", Some("2")));
    assert!(!name_in_use(&all, "Work", None));
    assert!(!name_in_use(&[], "Road", None));
    assert!(!name_in_use(&all, "road", None));
}
