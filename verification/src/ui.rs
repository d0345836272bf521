//! What the interface asks of the player, and the small rules by which it
//! moves through the track list.

use crate::fixed::UNIT;
use vstd::prelude::*;

verus! {

/// An event of the interface.
#[derive(Debug, Clone, Copy, PartialEq, Eq, Structural)]
pub enum AppEvent {
    Quit,
    Tick,
    Render,
    Play,
    Stop,
    NextTrack,
    PreviousTrack,
    TogglePlayPause,
    Up,
    Down,
    Enter,
    Back,
    VolumeUp,
    VolumeDown,
    ToggleShuffle,
    ToggleRepeat,
    RefreshLibrary,
}

/// The pages of the interface.
#[derive(Debug, Clone, Copy, PartialEq, Eq, Structural)]
pub enum Tab {
    Library,
    Queue,
    Playlists,
    Settings,
}

/// What happens at the end of the track list.
#[derive(Debug, Clone, Copy, PartialEq, Eq, Structural)]
pub enum RepeatMode {
    Off,
    All,
    One,
}

/// A key of the keyboard, as far as the interface tells keys apart.
#[derive(Debug, Clone, Copy, PartialEq, Eq, Structural)]
pub enum Key {
    Char(char),
    Esc,
    Up,
    Down,
    Left,
    Right,
    Enter,
    Backspace,
    /// A function key, by its number.
    F(u8),
    Other,
}

/// The event that a key stands for, if it stands for one.
pub open spec fn event_of_key(key: Key) -> Option<AppEvent> {
    match key {
        Key::Char(c) => if c == 'q' {
            Some(AppEvent::Quit)
        } else if c == ' ' {
            Some(AppEvent::TogglePlayPause)
        } else if c == 'p' {
            Some(AppEvent::Play)
        } else if c == 's' {
            Some(AppEvent::Stop)
        } else if c == 'n' {
            Some(AppEvent::NextTrack)
        } else if c == 'b' {
            Some(AppEvent::PreviousTrack)
        } else if c == '+' || c == '=' {
            Some(AppEvent::VolumeUp)
        } else if c == '-' {
            Some(AppEvent::VolumeDown)
        } else if c == 'z' {
            Some(AppEvent::ToggleShuffle)
        } else if c == 'r' {
            Some(AppEvent::ToggleRepeat)
        } else {
            None
        },
        Key::Esc => Some(AppEvent::Quit),
        Key::Right => Some(AppEvent::NextTrack),
        Key::Left => Some(AppEvent::PreviousTrack),
        Key::Up => Some(AppEvent::Up),
        Key::Down => Some(AppEvent::Down),
        Key::Enter => Some(AppEvent::Enter),
        Key::Backspace => Some(AppEvent::Back),
        Key::F(n) => if n == 5 {
            Some(AppEvent::RefreshLibrary)
        } else {
            None
        },
        Key::Other => None,
    }
}

/// The event that a pressed key stands for: [`event_of_key`].
pub fn key_to_app_event(key: Key) -> (event: Option<AppEvent>)
    ensures
        event == event_of_key(key),
{
    match key {
        Key::Char(c) => {
            if c == 'q' {
                Some(AppEvent::Quit)
            } else if c == ' ' {
                Some(AppEvent::TogglePlayPause)
            } else if c == 'p' {
                Some(AppEvent::Play)
            } else if c == 's' {
                Some(AppEvent::Stop)
            } else if c == 'n' {
                Some(AppEvent::NextTrack)
            } else if c == 'b' {
                Some(AppEvent::PreviousTrack)
            } else if c == '+' || c == '=' {
                Some(AppEvent::VolumeUp)
            } else if c == '-' {
                Some(AppEvent::VolumeDown)
            } else if c == 'z' {
                Some(AppEvent::ToggleShuffle)
            } else if c == 'r' {
                Some(AppEvent::ToggleRepeat)
            } else {
                None
            }
        },
        Key::Esc => Some(AppEvent::Quit),
        Key::Right => Some(AppEvent::NextTrack),
        Key::Left => Some(AppEvent::PreviousTrack),
        Key::Up => Some(AppEvent::Up),
        Key::Down => Some(AppEvent::Down),
        Key::Enter => Some(AppEvent::Enter),
        Key::Backspace => Some(AppEvent::Back),
        Key::F(n) => {
            if n == 5 {
                Some(AppEvent::RefreshLibrary)
            } else {
                None
            }
        },
        Key::Other => None,
    }
}

/// How far one press of a volume key moves the volume: a tenth.
pub const VOLUME_STEP: u64 = 100_000;

/// The volume one step up, at most full volume.
pub fn volume_up(volume: u64) -> (raised: u64)
    ensures
        raised == if volume + VOLUME_STEP >= UNIT {
            UNIT as int
        } else {
            volume + VOLUME_STEP
        },
{
    if volume >= UNIT - VOLUME_STEP {
        UNIT
    } else {
        volume + VOLUME_STEP
    }
}

/// The volume one step down, at least silence.
pub fn volume_down(volume: u64) -> (lowered: u64)
    ensures
        lowered == if volume <= VOLUME_STEP {
            0
        } else {
            volume - VOLUME_STEP
        },
{
    if volume <= VOLUME_STEP {
        0
    } else {
        volume - VOLUME_STEP
    }
}

/// The position after `current` in a list of `len` tracks: the next one,
/// the first one after the last when all are repeated, else none.
pub fn next_index(current: usize, len: usize, repeat_mode: RepeatMode) -> (next: Option<usize>)
    ensures
        next == if current + 1 < len {
            Some((current + 1) as usize)
        } else if repeat_mode is All {
            Some(0usize)
        } else {
            None
        },
{
    if current < len && current + 1 < len {
        Some(current + 1)
    } else {
        match repeat_mode {
            RepeatMode::All => Some(0),
            _ => None,
        }
    }
}

/// The position before `current` in a list of `len` tracks: the one
/// before, the last one before the first when all are repeated, else none.
pub fn previous_index(current: usize, len: usize, repeat_mode: RepeatMode) -> (previous: Option<
    usize,
>)
    requires
        len > 0,
    ensures
        previous == if current > 0 {
            Some((current - 1) as usize)
        } else if repeat_mode is All {
            Some((len - 1) as usize)
        } else {
            None
        },
{
    if current > 0 {
        Some(current - 1)
    } else {
        match repeat_mode {
            RepeatMode::All => Some(len - 1),
            _ => None,
        }
    }
}

/// The selected position after moving by `delta` in a list of `len`
/// tracks: it stops at the first and at the last.
pub fn moved_selection(current: usize, delta: i32, len: usize) -> (selected: usize)
    requires
        len > 0,
        current + delta <= usize::MAX,
    ensures
        selected == if delta < 0 {
            if current + delta < 0 {
                0
            } else {
                current + delta
            }
        } else if current + delta > len - 1 {
            len - 1
        } else {
            current + delta
        },
{
    if delta < 0 {
        let back: u64 = (-(delta as i64)) as u64;
        if (current as u64) < back {
            0
        } else {
            current - (back as usize)
        }
    } else {
        let target: usize = current + (delta as usize);
        if target > len - 1 {
            len - 1
        } else {
            target
        }
    }
}

} // verus!
