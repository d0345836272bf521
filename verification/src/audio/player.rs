//! The playback engine. It decides what the audio sink is to do and which
//! events go out; the caller owns the sink and the event channel and carries
//! the decisions out, in the order given.

use crate::audio::track::Track;
use crate::audio::AudioConfig;
use crate::fixed::UNIT;
use crate::text::joined;
use vstd::prelude::*;

verus! {

/// The state of playback. A sink is live in every state but `Stopped`.
#[derive(Debug, Clone, Copy, PartialEq, Eq, Structural)]
pub enum PlaybackState {
    Stopped,
    Playing,
    Paused,
}

/// What the engine reports. Durations are milliseconds, the volume is in
/// millionths of full volume.
#[derive(Debug, Clone, PartialEq)]
pub enum PlayerEvent {
    TrackStarted(Track),
    TrackPaused,
    TrackResumed,
    TrackStopped,
    TrackFinished(Track),
    DurationLearned(Track, u64),
    PositionChanged(u64),
    VolumeChanged(u64),
    Error(String),
}

/// Why a track could not be played; each carries what the failed step
/// reported.
#[derive(Debug, Clone, PartialEq)]
pub enum PlaybackError {
    /// The file could not be opened.
    OpenFailed(String),
    /// The file's content could not be decoded.
    DecodeFailed(String),
}

/// One thing for the caller to do.
#[derive(Debug, Clone, PartialEq)]
pub enum PlayerAction {
    /// Make the sink that holds the decoded track the live one and let it
    /// play, at the given volume.
    StartSink(u64),
    /// Set the live sink's volume.
    SetVolume(u64),
    /// Let the given number of milliseconds pass.
    Wait(u64),
    /// Pause the live sink.
    PauseSink,
    /// Let the live sink play on.
    ResumeSink,
    /// Stop the live sink and discard it.
    StopSink,
    /// Send the event, and go on whether or not anyone receives it.
    Emit(PlayerEvent),
}

/// Steps of a fade-in.
pub const FADE_IN_STEPS: u64 = 10;

/// Steps of the fade-out before a stop.
pub const FADE_OUT_STEPS: u64 = 15;

/// Steps of the quick fade-out before a pause.
pub const QUICK_FADE_STEPS: u64 = 10;

/// Milliseconds that the quick fade-out before a pause takes.
pub const QUICK_FADE_MS: u64 = 100;

/// The volume at step `index` (from 1) of a ramp from silence to `target`
/// in `steps` equal steps: `index` times the step, at most `target`.
pub open spec fn rising_volume(target: u64, steps: u64, index: int) -> u64 {
    let level = (target / steps) * index;
    if level > target {
        target
    } else {
        level as u64
    }
}

/// The volume at step `index` (from 1) of a ramp from `current` to silence
/// in `steps` equal steps: `current` less `index` times the step, at least
/// silence.
pub open spec fn falling_volume(current: u64, steps: u64, index: int) -> u64 {
    let drop = (current / steps) * index;
    if drop > current {
        0
    } else {
        (current - drop) as u64
    }
}

/// A ramp up: for each step the volume to set, then the wait.
pub open spec fn ramp_up(target: u64, steps: u64, wait: u64) -> Seq<PlayerAction> {
    Seq::new(
        2 * steps as nat,
        |i: int|
            if i % 2 == 0 {
                PlayerAction::SetVolume(rising_volume(target, steps, i / 2 + 1))
            } else {
                PlayerAction::Wait(wait)
            },
    )
}

/// A ramp down: for each step the volume to set, then the wait.
pub open spec fn ramp_down(current: u64, steps: u64, wait: u64) -> Seq<PlayerAction> {
    Seq::new(
        2 * steps as nat,
        |i: int|
            if i % 2 == 0 {
                PlayerAction::SetVolume(falling_volume(current, steps, i / 2 + 1))
            } else {
                PlayerAction::Wait(wait)
            },
    )
}

/// The fade-in to `target` over `duration` milliseconds: with no duration
/// the volume is set at once; else it starts from silence, rises in ten
/// steps, and is then set to exactly `target`.
pub open spec fn fade_in_actions(target: u64, duration: u64) -> Seq<PlayerAction> {
    if duration == 0 {
        seq![PlayerAction::SetVolume(target)]
    } else {
        seq![PlayerAction::SetVolume(0)] + ramp_up(
            target,
            FADE_IN_STEPS,
            duration / FADE_IN_STEPS,
        ) + seq![PlayerAction::SetVolume(target)]
    }
}

/// A fade-out from `current` over `duration` milliseconds in `steps` steps,
/// ending at exactly silence.
pub open spec fn falling_fade(current: u64, duration: u64, steps: u64) -> Seq<PlayerAction> {
    ramp_down(current, steps, duration / steps) + seq![PlayerAction::SetVolume(0)]
}

/// The fade-out before a stop: none with no duration, else fifteen steps
/// down and then exactly silence.
pub open spec fn fade_out_actions(current: u64, duration: u64) -> Seq<PlayerAction> {
    if duration == 0 {
        Seq::empty()
    } else {
        falling_fade(current, duration, FADE_OUT_STEPS)
    }
}

/// The quick fade-out before a pause: ten steps over 100 ms, whatever the
/// configured fade-out, and then exactly silence.
pub open spec fn quick_fade_out_actions(current: u64) -> Seq<PlayerAction> {
    falling_fade(current, QUICK_FADE_MS, QUICK_FADE_STEPS)
}

/// The volume that an action sets on the live sink, if it sets one.
pub open spec fn volume_of(action: PlayerAction) -> Option<u64> {
    match action {
        PlayerAction::SetVolume(v) => Some(v),
        _ => None,
    }
}

/// Whether no volume that `actions` sets is above `bound`.
pub open spec fn volumes_within(actions: Seq<PlayerAction>, bound: u64) -> bool {
    forall|i: int|
        0 <= i < actions.len() && volume_of(#[trigger] actions[i]) is Some ==> volume_of(
            actions[i],
        )->0 <= bound
}

/// Whether no volume that `actions` sets is above one set before it.
pub open spec fn volumes_descend(actions: Seq<PlayerAction>) -> bool {
    forall|i: int, j: int|
        0 <= i < j < actions.len() && volume_of(#[trigger] actions[i]) is Some && volume_of(
            #[trigger] actions[j],
        ) is Some ==> volume_of(actions[j])->0 <= volume_of(actions[i])->0
}

/// Whether no volume that `actions` sets is below one set before it.
pub open spec fn volumes_rise(actions: Seq<PlayerAction>) -> bool {
    forall|i: int, j: int|
        0 <= i < j < actions.len() && volume_of(#[trigger] actions[i]) is Some && volume_of(
            #[trigger] actions[j],
        ) is Some ==> volume_of(actions[i])->0 <= volume_of(actions[j])->0
}

/// The steps of a ramp are in order: a later step of a rising ramp is no
/// lower, a later step of a falling ramp no higher, and none leaves the
/// range between silence and the volume faded to or from.
pub proof fn lemma_ramp_steps_in_order(volume: u64, steps: u64, earlier: int, later: int)
    requires
        steps > 0,
        0 <= earlier <= later,
    ensures
        rising_volume(volume, steps, earlier) <= rising_volume(volume, steps, later) <= volume,
        falling_volume(volume, steps, later) <= falling_volume(volume, steps, earlier) <= volume,
{
    let step = (volume / steps) as int;
    assert(0 <= step * earlier <= step * later) by (nonlinear_arith)
        requires
            0 <= step,
            0 <= earlier <= later,
    ;
}

/// A fade-in sets the target volume last and nothing above it on the way,
/// never going down; with no duration that is all it does.
pub proof fn lemma_fade_in_rises_to_target(target: u64, duration: u64)
    ensures
        fade_in_actions(target, duration).len() > 0,
        fade_in_actions(target, duration).last() == PlayerAction::SetVolume(target),
        duration == 0 ==> fade_in_actions(target, duration) == seq![
            PlayerAction::SetVolume(target),
        ],
        duration > 0 ==> fade_in_actions(target, duration).len() == 2 * FADE_IN_STEPS + 2,
        volumes_within(fade_in_actions(target, duration), target),
        volumes_rise(fade_in_actions(target, duration)),
{
    let actions = fade_in_actions(target, duration);
    if duration > 0 {
        let wait = (duration / FADE_IN_STEPS) as u64;
        assert(actions[0] == PlayerAction::SetVolume(0));
        assert(actions[21] == PlayerAction::SetVolume(target));
        assert forall|i: int| 1 <= i < 21 implies #[trigger] actions[i] == ramp_up(
            target,
            FADE_IN_STEPS,
            wait,
        )[i - 1] by {}
        assert forall|i: int|
            0 <= i < actions.len() && volume_of(#[trigger] actions[i]) is Some implies volume_of(
            actions[i],
        )->0 <= target by {
            if 1 <= i < 21 {
                lemma_ramp_steps_in_order(target, FADE_IN_STEPS, (i - 1) / 2 + 1, (i - 1) / 2 + 1);
            }
        }
        assert forall|i: int, j: int|
            0 <= i < j < actions.len() && volume_of(#[trigger] actions[i]) is Some && volume_of(
                #[trigger] actions[j],
            ) is Some implies volume_of(actions[i])->0 <= volume_of(actions[j])->0 by {
            if 1 <= i && j < 21 {
                lemma_ramp_steps_in_order(target, FADE_IN_STEPS, (i - 1) / 2 + 1, (j - 1) / 2 + 1);
            } else if 1 <= i && j == 21 {
                lemma_ramp_steps_in_order(target, FADE_IN_STEPS, (i - 1) / 2 + 1, (i - 1) / 2 + 1);
            }
        }
    }
}

/// A fade-out in steps sets silence last and on the way nothing above the
/// volume it starts from, never going up.
pub proof fn lemma_falling_fade_descends_to_silence(current: u64, duration: u64, steps: u64)
    requires
        steps > 0,
    ensures
        falling_fade(current, duration, steps).len() == 2 * steps + 1,
        falling_fade(current, duration, steps).last() == PlayerAction::SetVolume(0),
        volumes_within(falling_fade(current, duration, steps), current),
        volumes_descend(falling_fade(current, duration, steps)),
{
    let actions = falling_fade(current, duration, steps);
    let wait = (duration / steps) as u64;
    assert forall|i: int| 0 <= i < 2 * steps implies #[trigger] actions[i] == ramp_down(
        current,
        steps,
        wait,
    )[i] by {}
    assert(actions[2 * steps as int] == PlayerAction::SetVolume(0));
    assert forall|i: int|
        0 <= i < actions.len() && volume_of(#[trigger] actions[i]) is Some implies volume_of(
        actions[i],
    )->0 <= current by {
        if i < 2 * steps {
            lemma_ramp_steps_in_order(current, steps, i / 2 + 1, i / 2 + 1);
        }
    }
    assert forall|i: int, j: int|
        0 <= i < j < actions.len() && volume_of(#[trigger] actions[i]) is Some && volume_of(
            #[trigger] actions[j],
        ) is Some implies volume_of(actions[j])->0 <= volume_of(actions[i])->0 by {
        if j < 2 * steps {
            lemma_ramp_steps_in_order(current, steps, i / 2 + 1, j / 2 + 1);
        }
    }
}

/// The last volume that a sequence of actions sets, if it sets any.
pub open spec fn last_volume_set(actions: Seq<PlayerAction>) -> Option<u64>
    decreases actions.len(),
{
    if actions.len() == 0 {
        None
    } else {
        match actions.last() {
            PlayerAction::SetVolume(v) => Some(v),
            PlayerAction::StartSink(v) => Some(v),
            _ => last_volume_set(actions.drop_last()),
        }
    }
}

/// A fade-in ends with the volume at exactly the target.
pub proof fn lemma_fade_in_ends_at_target(target: u64, duration: u64)
    ensures
        last_volume_set(fade_in_actions(target, duration)) == Some(target),
{
    let actions = fade_in_actions(target, duration);
    assert(actions.last() == PlayerAction::SetVolume(target));
}

/// A fade-out that fades at all ends with the volume at exactly silence.
pub proof fn lemma_fade_out_ends_silent(current: u64, duration: u64)
    requires
        duration > 0,
    ensures
        last_volume_set(fade_out_actions(current, duration)) == Some(0u64),
        last_volume_set(quick_fade_out_actions(current)) == Some(0u64),
{
    assert(fade_out_actions(current, duration).last() == PlayerAction::SetVolume(0));
    assert(quick_fade_out_actions(current).last() == PlayerAction::SetVolume(0));
}

/// No step of a fade leaves the range between silence and the volume it
/// fades to or from.
pub proof fn lemma_fade_steps_stay_in_range(volume: u64, steps: u64, index: int)
    requires
        steps > 0,
        1 <= index <= steps,
    ensures
        rising_volume(volume, steps, index) <= volume,
        falling_volume(volume, steps, index) <= volume,
        index == steps ==> volume - rising_volume(volume, steps, index) < steps,
        index == steps ==> falling_volume(volume, steps, index) < steps,
{
    let step = (volume / steps) as int;
    assert(step * index <= step * steps) by (nonlinear_arith)
        requires
            0 <= step,
            1 <= index <= steps,
    ;
    assert(step * steps <= volume && volume - step * steps < steps) by (nonlinear_arith)
        requires
            step == (volume as int) / (steps as int),
            steps > 0,
            volume >= 0,
    ;
}

/// Appends a ramp of `steps` steps to `actions`: rising to `volume` when
/// `rising`, else falling from it.
fn push_ramp(actions: &mut Vec<PlayerAction>, volume: u64, steps: u64, wait: u64, rising: bool)
    requires
        0 < steps <= FADE_OUT_STEPS,
    ensures
        final(actions)@ == old(actions)@ + if rising {
            ramp_up(volume, steps, wait)
        } else {
            ramp_down(volume, steps, wait)
        },
{
    let step: u64 = volume / steps;
    let ghost before = actions@;
    let ghost ramp = if rising {
        ramp_up(volume, steps, wait)
    } else {
        ramp_down(volume, steps, wait)
    };
    let mut index: u64 = 1;
    while index <= steps
        invariant
            1 <= index <= steps + 1,
            0 < steps <= FADE_OUT_STEPS,
            step == volume / steps,
            ramp == if rising {
                ramp_up(volume, steps, wait)
            } else {
                ramp_down(volume, steps, wait)
            },
            actions@ == before + ramp.take(2 * (index - 1)),
        decreases steps + 1 - index,
    {
        proof {
            lemma_fade_steps_stay_in_range(volume, steps, index as int);
            assert(step * index <= step * steps) by (nonlinear_arith)
                requires
                    0 <= step,
                    1 <= index <= steps,
            ;
            assert(step * steps <= volume) by (nonlinear_arith)
                requires
                    step == (volume as int) / (steps as int),
                    steps > 0,
            ;
        }
        let moved: u64 = step * index;
        let level: u64 = if rising {
            if moved > volume {
                volume
            } else {
                moved
            }
        } else {
            if moved > volume {
                0
            } else {
                volume - moved
            }
        };
        actions.push(PlayerAction::SetVolume(level));
        actions.push(PlayerAction::Wait(wait));
        proof {
            let k = 2 * (index - 1);
            assert(ramp[k] == PlayerAction::SetVolume(level));
            assert(ramp[k + 1] == PlayerAction::Wait(wait));
            assert(ramp.take(k + 2) =~= ramp.take(k).push(ramp[k]).push(ramp[k + 1]));
            assert(actions@ =~= before + ramp.take(k + 2));
        }
        index = index + 1;
    }
    assert(ramp.take(2 * steps as int) =~= ramp);
}

impl PlaybackError {
    /// What is reported for the failure.
    pub open spec fn text(&self) -> Seq<char> {
        match self {
            PlaybackError::OpenFailed(detail) => "Failed to open file: "@ + detail@,
            PlaybackError::DecodeFailed(detail) => "Unsupported audio format or corrupted file: "@
                + detail@,
        }
    }

    /// What is reported for the failure, as a string.
    pub fn message(&self) -> (message: String)
        ensures
            message@ == self.text(),
    {
        match self {
            PlaybackError::OpenFailed(detail) => joined("Failed to open file: ", detail.as_str()),
            PlaybackError::DecodeFailed(detail) => joined(
                "Unsupported audio format or corrupted file: ",
                detail.as_str(),
            ),
        }
    }
}

/// The mathematical value of an [`AudioPlayer`].
pub struct AudioPlayerView {
    pub state: PlaybackState,
    /// The track loaded last; it stays after a stop.
    pub current_track: Option<Track>,
    pub config: AudioConfig,
    /// While the length of a track is being learned: when its playback
    /// began, on the caller's clock in milliseconds, and the track.
    pub learning: Option<(u64, Track)>,
}

/// What stopping asks for: with a live sink the full fade-out, then the
/// stop; and the stop event in any case.
pub open spec fn stop_actions(state: PlaybackState, config: AudioConfig) -> Seq<PlayerAction> {
    if state is Stopped {
        seq![PlayerAction::Emit(PlayerEvent::TrackStopped)]
    } else {
        fade_out_actions(config.volume, config.fade_out_duration) + seq![
            PlayerAction::StopSink,
            PlayerAction::Emit(PlayerEvent::TrackStopped),
        ]
    }
}

/// What starting a decoded track asks for: the sink goes live at the
/// configured volume, fades in, and the start is reported.
pub open spec fn start_actions(config: AudioConfig, track: Track) -> Seq<PlayerAction> {
    seq![PlayerAction::StartSink(config.volume)] + fade_in_actions(
        config.volume,
        config.fade_in_duration,
    ) + seq![PlayerAction::Emit(PlayerEvent::TrackStarted(track))]
}

/// What pausing asks for: nothing without a live sink; else the quick
/// fade-out, the pause and its report.
pub open spec fn pause_actions(state: PlaybackState, config: AudioConfig) -> Seq<PlayerAction> {
    if state is Stopped {
        Seq::empty()
    } else {
        quick_fade_out_actions(config.volume) + seq![
            PlayerAction::PauseSink,
            PlayerAction::Emit(PlayerEvent::TrackPaused),
        ]
    }
}

/// What resuming asks for: nothing without a live sink; else the sink plays
/// on, fades in, and the resumption is reported.
pub open spec fn resume_actions(state: PlaybackState, config: AudioConfig) -> Seq<PlayerAction> {
    if state is Stopped {
        Seq::empty()
    } else {
        seq![PlayerAction::ResumeSink] + fade_in_actions(config.volume, config.fade_in_duration)
            + seq![PlayerAction::Emit(PlayerEvent::TrackResumed)]
    }
}

/// A volume kept within silence and full volume.
pub open spec fn clamped_volume(volume: u64) -> u64 {
    if volume > UNIT {
        UNIT
    } else {
        volume
    }
}

/// What a change of volume asks for: a live sink takes the new volume at
/// once, and the change is reported.
pub open spec fn volume_actions(state: PlaybackState, volume: u64) -> Seq<PlayerAction> {
    if state is Stopped {
        seq![PlayerAction::Emit(PlayerEvent::VolumeChanged(clamped_volume(volume)))]
    } else {
        seq![
            PlayerAction::SetVolume(clamped_volume(volume)),
            PlayerAction::Emit(PlayerEvent::VolumeChanged(clamped_volume(volume))),
        ]
    }
}

/// The track `track` after a playback of `actual` milliseconds was observed.
pub open spec fn track_learned(track: Track, actual: u64) -> Track {
    let duration = crate::audio::track::learned_duration(track.duration, actual);
    Track {
        duration,
        metadata: crate::audio::track::TrackMetadata {
            duration_ms: if duration == track.duration {
                track.metadata.duration_ms
            } else {
                Some(actual)
            },
            ..track.metadata
        },
        ..track
    }
}

/// The playback engine: drives one audio sink through play, pause, resume
/// and stop, with fades in between, and learns the length of tracks that
/// come without one.
pub struct AudioPlayer {
    current_track: Option<Track>,
    state: PlaybackState,
    config: AudioConfig,
    playback_start_time: Option<u64>,
    track_for_learning: Option<Track>,
}

impl View for AudioPlayer {
    type V = AudioPlayerView;

    closed spec fn view(&self) -> AudioPlayerView {
        AudioPlayerView {
            state: self.state,
            current_track: self.current_track,
            config: self.config,
            learning: match (self.playback_start_time, self.track_for_learning) {
                (Some(since), Some(track)) => Some((since, track)),
                _ => None,
            },
        }
    }
}

impl AudioPlayer {
    /// An engine at rest: stopped, with no track and no sink.
    pub fn new(config: AudioConfig) -> (player: Self)
        ensures
            player@ == (AudioPlayerView {
                state: PlaybackState::Stopped,
                current_track: None,
                config,
                learning: None,
            }),
    {
        Self {
            current_track: None,
            state: PlaybackState::Stopped,
            config,
            playback_start_time: None,
            track_for_learning: None,
        }
    }

    /// Appends the fade-in to the configured volume: [`fade_in_actions`].
    /// Its last action sets exactly the configured volume, and no action
    /// sets one above it or below one set before. With no fade-in duration
    /// that action is the only one.
    pub fn fade_in(&self, actions: &mut Vec<PlayerAction>)
        ensures
            final(actions)@ == old(actions)@ + fade_in_actions(
                self@.config.volume,
                self@.config.fade_in_duration,
            ),
            final(actions)@.len() > old(actions)@.len(),
            final(actions)@.last() == PlayerAction::SetVolume(self@.config.volume),
            self@.config.fade_in_duration == 0 ==> final(actions)@ == old(actions)@.push(
                PlayerAction::SetVolume(self@.config.volume),
            ),
            self@.config.fade_in_duration > 0 ==> final(actions)@.len() == old(actions)@.len() + 2
                * FADE_IN_STEPS + 2,
            volumes_within(
                final(actions)@.skip(old(actions)@.len() as int),
                self@.config.volume,
            ),
            volumes_rise(final(actions)@.skip(old(actions)@.len() as int)),
    {
        let target: u64 = self.config.volume;
        let fade_duration: u64 = self.config.fade_in_duration;
        proof {
            lemma_fade_in_rises_to_target(target, fade_duration);
            let added = fade_in_actions(target, fade_duration);
            assert((old(actions)@ + added).skip(old(actions)@.len() as int) =~= added);
            assert((old(actions)@ + added).last() == added.last());
            if fade_duration == 0 {
                assert(old(actions)@ + added =~= old(actions)@.push(
                    PlayerAction::SetVolume(target),
                ));
            }
        }
        if fade_duration == 0 {
            actions.push(PlayerAction::SetVolume(target));
            assert(actions@ =~= old(actions)@ + fade_in_actions(target, fade_duration));
            return ;
        }
        actions.push(PlayerAction::SetVolume(0));
        push_ramp(actions, target, FADE_IN_STEPS, fade_duration / FADE_IN_STEPS, true);
        actions.push(PlayerAction::SetVolume(target));
        assert(actions@ =~= old(actions)@ + fade_in_actions(target, fade_duration));
    }

    /// Appends the fade-out before a stop: [`fade_out_actions`]. With no
    /// fade-out duration nothing is appended. Else fifteen steps are, in
    /// which no action sets a volume above the configured one or above one
    /// set before, and a last action that sets exactly silence.
    pub fn fade_out(&self, actions: &mut Vec<PlayerAction>)
        ensures
            final(actions)@ == old(actions)@ + fade_out_actions(
                self@.config.volume,
                self@.config.fade_out_duration,
            ),
            self@.config.fade_out_duration == 0 ==> final(actions)@ == old(actions)@,
            self@.config.fade_out_duration > 0 ==> {
                &&& final(actions)@.len() == old(actions)@.len() + 2 * FADE_OUT_STEPS + 1
                &&& final(actions)@.last() == PlayerAction::SetVolume(0)
            },
            volumes_within(
                final(actions)@.skip(old(actions)@.len() as int),
                self@.config.volume,
            ),
            volumes_descend(final(actions)@.skip(old(actions)@.len() as int)),
    {
        let current: u64 = self.config.volume;
        let fade_duration: u64 = self.config.fade_out_duration;
        proof {
            let added = fade_out_actions(current, fade_duration);
            assert((old(actions)@ + added).skip(old(actions)@.len() as int) =~= added);
            if fade_duration > 0 {
                lemma_falling_fade_descends_to_silence(current, fade_duration, FADE_OUT_STEPS);
                assert((old(actions)@ + added).last() == added.last());
            } else {
                assert(old(actions)@ + added =~= old(actions)@);
            }
        }
        if fade_duration == 0 {
            assert(actions@ =~= old(actions)@ + fade_out_actions(current, fade_duration));
            return ;
        }
        push_ramp(actions, current, FADE_OUT_STEPS, fade_duration / FADE_OUT_STEPS, false);
        actions.push(PlayerAction::SetVolume(0));
        assert(actions@ =~= old(actions)@ + fade_out_actions(current, fade_duration));
    }

    /// Appends the quick fade-out before a pause:
    /// [`quick_fade_out_actions`]. Ten steps are appended whatever the
    /// configured fade-out, in which no action sets a volume above the
    /// configured one or above one set before, and a last action that sets
    /// exactly silence.
    pub fn fade_out_quick(&self, actions: &mut Vec<PlayerAction>)
        ensures
            final(actions)@ == old(actions)@ + quick_fade_out_actions(self@.config.volume),
            final(actions)@.len() == old(actions)@.len() + 2 * QUICK_FADE_STEPS + 1,
            final(actions)@.last() == PlayerAction::SetVolume(0),
            volumes_within(
                final(actions)@.skip(old(actions)@.len() as int),
                self@.config.volume,
            ),
            volumes_descend(final(actions)@.skip(old(actions)@.len() as int)),
    {
        let current: u64 = self.config.volume;
        proof {
            let added = quick_fade_out_actions(current);
            lemma_falling_fade_descends_to_silence(current, QUICK_FADE_MS, QUICK_FADE_STEPS);
            assert((old(actions)@ + added).skip(old(actions)@.len() as int) =~= added);
            assert((old(actions)@ + added).last() == added.last());
        }
        let current: u64 = self.config.volume;
        push_ramp(actions, current, QUICK_FADE_STEPS, QUICK_FADE_MS / QUICK_FADE_STEPS, false);
        actions.push(PlayerAction::SetVolume(0));
        assert(actions@ =~= old(actions)@ + quick_fade_out_actions(current));
    }

    /// Plays `track`. Whatever is playing is stopped first, as by
    /// [`AudioPlayer::stop`]. `loaded` says whether the caller could open and
    /// decode the track's file. If so, the track starts and fades in; when
    /// its length is unknown, learning it begins at `started_at`, a reading
    /// of the caller's clock in milliseconds. If not, the failure is
    /// reported as an `Error` event after the stop, and the engine stays
    /// stopped with no sink.
    pub fn play_track(
        &mut self,
        track: Track,
        loaded: Result<(), PlaybackError>,
        started_at: u64,
    ) -> (actions: Vec<PlayerAction>)
        ensures
            match loaded {
                Ok(_) => {
                    &&& actions@ == stop_actions(old(self)@.state, old(self)@.config)
                        + start_actions(old(self)@.config, track)
                    &&& final(self)@ == (AudioPlayerView {
                        state: PlaybackState::Playing,
                        current_track: Some(track),
                        config: old(self)@.config,
                        learning: if track.duration is None {
                            Some((started_at, track))
                        } else {
                            old(self)@.learning
                        },
                    })
                },
                Err(error) => {
                    let stopping = stop_actions(old(self)@.state, old(self)@.config);
                    &&& actions@.len() == stopping.len() + 1
                    &&& actions@.take(stopping.len() as int) == stopping
                    &&& actions@.last() matches PlayerAction::Emit(PlayerEvent::Error(message))
                        && message@ == error.text()
                    &&& final(self)@ == (AudioPlayerView {
                        state: PlaybackState::Stopped,
                        ..old(self)@
                    })
                },
            },
    {
        let mut actions: Vec<PlayerAction> = self.stop();
        let ghost stopping = actions@;
        match loaded {
            Err(error) => {
                actions.push(PlayerAction::Emit(PlayerEvent::Error(error.message())));
                assert(actions@.take(stopping.len() as int) =~= stopping);
            },
            Ok(_) => {
                actions.push(PlayerAction::StartSink(self.config.volume));
                self.fade_in(&mut actions);
                self.current_track = Some(track.clone());
                self.state = PlaybackState::Playing;
                if track.duration.is_none() {
                    self.playback_start_time = Some(started_at);
                    self.track_for_learning = Some(track.clone());
                }
                actions.push(PlayerAction::Emit(PlayerEvent::TrackStarted(track)));
                assert(actions@ =~= stopping + start_actions(self.config, track));
            },
        }
        actions
    }

    /// Pauses: with a live sink, fades out quickly, pauses the sink and
    /// reports it; without one, nothing happens.
    pub fn pause(&mut self) -> (actions: Vec<PlayerAction>)
        ensures
            actions@ == pause_actions(old(self)@.state, old(self)@.config),
            final(self)@ == (AudioPlayerView {
                state: if old(self)@.state is Stopped {
                    PlaybackState::Stopped
                } else {
                    PlaybackState::Paused
                },
                ..old(self)@
            }),
    {
        let mut actions: Vec<PlayerAction> = Vec::new();
        match self.state {
            PlaybackState::Stopped => {},
            _ => {
                self.fade_out_quick(&mut actions);
                actions.push(PlayerAction::PauseSink);
                self.state = PlaybackState::Paused;
                actions.push(PlayerAction::Emit(PlayerEvent::TrackPaused));
            },
        }
        assert(actions@ =~= pause_actions(old(self)@.state, old(self)@.config));
        actions
    }

    /// Resumes: with a live sink, lets it play on, fades in and reports it;
    /// without one, nothing happens.
    pub fn resume(&mut self) -> (actions: Vec<PlayerAction>)
        ensures
            actions@ == resume_actions(old(self)@.state, old(self)@.config),
            final(self)@ == (AudioPlayerView {
                state: if old(self)@.state is Stopped {
                    PlaybackState::Stopped
                } else {
                    PlaybackState::Playing
                },
                ..old(self)@
            }),
    {
        let mut actions: Vec<PlayerAction> = Vec::new();
        match self.state {
            PlaybackState::Stopped => {},
            _ => {
                actions.push(PlayerAction::ResumeSink);
                self.fade_in(&mut actions);
                self.state = PlaybackState::Playing;
                actions.push(PlayerAction::Emit(PlayerEvent::TrackResumed));
            },
        }
        assert(actions@ =~= resume_actions(old(self)@.state, old(self)@.config));
        actions
    }

    /// Stops: with a live sink, fades out fully, stops the sink and
    /// discards it. The stop is reported in any case, also when nothing was
    /// playing.
    pub fn stop(&mut self) -> (actions: Vec<PlayerAction>)
        ensures
            actions@ == stop_actions(old(self)@.state, old(self)@.config),
            actions@.len() > 0,
            actions@.last() == PlayerAction::Emit(PlayerEvent::TrackStopped),
            final(self)@ == (AudioPlayerView { state: PlaybackState::Stopped, ..old(self)@ }),
    {
        let mut actions: Vec<PlayerAction> = Vec::new();
        match self.state {
            PlaybackState::Stopped => {},
            _ => {
                self.fade_out(&mut actions);
                actions.push(PlayerAction::StopSink);
            },
        }
        self.state = PlaybackState::Stopped;
        actions.push(PlayerAction::Emit(PlayerEvent::TrackStopped));
        assert(actions@ =~= stop_actions(old(self)@.state, old(self)@.config));
        actions
    }

    /// Sets the volume, kept within silence and full volume. A live sink
    /// takes it at once, and the change is reported.
    pub fn set_volume(&mut self, volume: u64) -> (actions: Vec<PlayerAction>)
        ensures
            actions@ == volume_actions(old(self)@.state, volume),
            final(self)@ == (AudioPlayerView {
                config: AudioConfig { volume: clamped_volume(volume), ..old(self)@.config },
                ..old(self)@
            }),
            final(self)@.config.volume <= UNIT,
    {
        let clamped: u64 = if volume > UNIT {
            UNIT
        } else {
            volume
        };
        self.config.volume = clamped;
        let mut actions: Vec<PlayerAction> = Vec::new();
        match self.state {
            PlaybackState::Stopped => {},
            _ => {
                actions.push(PlayerAction::SetVolume(clamped));
            },
        }
        actions.push(PlayerAction::Emit(PlayerEvent::VolumeChanged(clamped)));
        assert(actions@ =~= volume_actions(old(self)@.state, volume));
        actions
    }

    /// The state of playback.
    pub fn get_state(&self) -> (state: PlaybackState)
        ensures
            state == self@.state,
    {
        self.state
    }

    /// The track loaded last.
    pub fn get_current_track(&self) -> (track: Option<Track>)
        ensures
            track == self@.current_track,
    {
        match &self.current_track {
            Some(t) => Some(t.clone()),
            None => None,
        }
    }

    /// Whether playback is over: no sink is live, or the live sink has
    /// nothing left to play. `sink_empty` is what the live sink reports.
    pub fn is_finished(&self, sink_empty: bool) -> (finished: bool)
        ensures
            finished == (self@.state is Stopped || sink_empty),
    {
        match self.state {
            PlaybackState::Stopped => true,
            _ => sink_empty,
        }
    }

    /// The configured volume.
    pub fn get_volume(&self) -> (volume: u64)
        ensures
            volume == self@.config.volume,
    {
        self.config.volume
    }

    /// Ends the learning of a track's length with the playing time that was
    /// observed, in milliseconds. While a length is being learned, the track
    /// takes the observed one (see [`Track::learn_duration`]) and is
    /// reported with it; otherwise nothing happens.
    pub fn duration_observed(&mut self, actual_duration: u64) -> (actions: Vec<PlayerAction>)
        ensures
            actions@ == match old(self)@.learning {
                Some((_, track)) => seq![
                    PlayerAction::Emit(
                        PlayerEvent::DurationLearned(
                            track_learned(track, actual_duration),
                            actual_duration,
                        ),
                    ),
                ],
                None => Seq::empty(),
            },
            final(self)@ == (AudioPlayerView { learning: None, ..old(self)@ }),
    {
        let mut actions: Vec<PlayerAction> = Vec::new();
        let since = self.playback_start_time.take();
        let learning = self.track_for_learning.take();
        match (since, learning) {
            (Some(_), Some(track)) => {
                let mut learned = track;
                learned.learn_duration(actual_duration);
                actions.push(
                    PlayerAction::Emit(PlayerEvent::DurationLearned(learned, actual_duration)),
                );
            },
            _ => {},
        }
        actions
    }
}

/// The last volume set by two runs of actions in a row is that of the
/// second, or that of the first when the second sets none.
pub proof fn lemma_last_volume_of_sequence(first: Seq<PlayerAction>, second: Seq<PlayerAction>)
    ensures
        last_volume_set(first + second) == match last_volume_set(second) {
            Some(v) => Some(v),
            None => last_volume_set(first),
        },
    decreases second.len(),
{
    if second.len() == 0 {
        assert(first + second =~= first);
    } else {
        assert((first + second).drop_last() =~= first + second.drop_last());
        assert((first + second).last() == second.last());
        lemma_last_volume_of_sequence(first, second.drop_last());
    }
}

/// A track that starts, from whatever state, ends up playing at exactly
/// the configured volume: no step of the fade-in is the last word.
pub proof fn lemma_start_ends_at_configured_volume(
    state: PlaybackState,
    config: AudioConfig,
    track: Track,
)
    ensures
        last_volume_set(stop_actions(state, config) + start_actions(config, track)) == Some(
            config.volume,
        ),
        last_volume_set(resume_actions(PlaybackState::Paused, config)) == Some(config.volume),
{
    let fade = fade_in_actions(config.volume, config.fade_in_duration);
    let report = seq![PlayerAction::Emit(PlayerEvent::TrackStarted(track))];
    let begin = seq![PlayerAction::StartSink(config.volume)];
    lemma_fade_in_ends_at_target(config.volume, config.fade_in_duration);
    lemma_last_volume_of_sequence(begin, fade);
    assert(last_volume_set(report) == None::<u64>) by {
        reveal_with_fuel(last_volume_set, 3);
    }
    lemma_last_volume_of_sequence(begin + fade, report);
    lemma_last_volume_of_sequence(stop_actions(state, config), start_actions(config, track));
    let resumed = seq![PlayerAction::Emit(PlayerEvent::TrackResumed)];
    assert(last_volume_set(resumed) == None::<u64>) by {
        reveal_with_fuel(last_volume_set, 3);
    }
    lemma_last_volume_of_sequence(seq![PlayerAction::ResumeSink], fade);
    lemma_last_volume_of_sequence(seq![PlayerAction::ResumeSink] + fade, resumed);
}

/// A pause of a live sink leaves it at exactly silence, and so does a stop
/// that fades at all.
pub proof fn lemma_pause_and_stop_end_silent(state: PlaybackState, config: AudioConfig)
    requires
        !(state is Stopped),
    ensures
        last_volume_set(pause_actions(state, config)) == Some(0u64),
        config.fade_out_duration > 0 ==> last_volume_set(stop_actions(state, config)) == Some(
            0u64,
        ),
{
    let paused = seq![PlayerAction::PauseSink, PlayerAction::Emit(PlayerEvent::TrackPaused)];
    assert(last_volume_set(paused) == None::<u64>) by {
        reveal_with_fuel(last_volume_set, 4);
    }
    lemma_fade_out_ends_silent(config.volume, 1);
    lemma_last_volume_of_sequence(quick_fade_out_actions(config.volume), paused);
    if config.fade_out_duration > 0 {
        let stopped = seq![PlayerAction::StopSink, PlayerAction::Emit(PlayerEvent::TrackStopped)];
        assert(last_volume_set(stopped) == None::<u64>) by {
            reveal_with_fuel(last_volume_set, 4);
        }
        lemma_fade_out_ends_silent(config.volume, config.fade_out_duration);
        lemma_last_volume_of_sequence(
            fade_out_actions(config.volume, config.fade_out_duration),
            stopped,
        );
    }
}

/// Setting a volume that already lies between silence and full volume
/// leaves exactly that volume configured.
pub proof fn lemma_volume_within_range_is_kept(volume: u64)
    ensures
        clamped_volume(clamped_volume(volume)) == clamped_volume(volume),
        volume <= UNIT ==> clamped_volume(volume) == volume,
        clamped_volume(volume) <= UNIT,
{
}

/// Stopping a stopped engine still reports the stop, and asks for nothing
/// else.
pub proof fn lemma_stop_when_stopped_reports_stop(config: AudioConfig)
    ensures
        stop_actions(PlaybackState::Stopped, config) == seq![
            PlayerAction::Emit(PlayerEvent::TrackStopped),
        ],
{
}

} // verus!
