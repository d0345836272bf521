//! What a listener does with each track: play sessions and the per-track
//! aggregate that the shuffle weights are computed from.

pub mod database;
pub mod shuffle;
pub mod tracker;
pub mod weighting;

pub use tracker::{BehaviorTracker, PlaybackEvent};

use crate::fixed::{lemma_scaled_monotonic, percent_rounded, rounded_percent, scale, scaled, UNIT};
use vstd::prelude::*;
use vstd::string::*;

verus! {

/// Why a session ended before the track was over.
#[derive(Debug, Clone, Copy, PartialEq, Eq, Structural)]
pub enum SkipReason {
    UserSkip,
    NextTrack,
    PreviousTrack,
    PlaylistEnd,
    Error,
}

/// One continuous attempt to listen to a track.
#[derive(Debug, Clone, Copy, PartialEq)]
pub struct PlaySession {
    pub session_id: u128,
    pub track_id: u128,
    /// Milliseconds since the Unix epoch.
    pub started_at: i64,
    pub ended_at: Option<i64>,
    /// Seconds actually heard.
    pub play_duration: u64,
    /// Length of the track in seconds.
    pub track_duration: u64,
    pub skip_reason: Option<SkipReason>,
    /// Percentage heard, in millionths of a point, at most one hundred points.
    pub completion_percentage: u64,
}

/// The per-track aggregate of every session that counted as a play.
#[derive(Debug, PartialEq)]
pub struct TrackBehavior {
    pub track_id: u128,
    pub total_plays: u64,
    pub total_skips: u64,
    /// Seconds.
    pub total_play_time: u64,
    /// Start of the latest session, in milliseconds since the Unix epoch.
    pub last_played: Option<i64>,
    /// Where in the track each skip happened, in whole percentage points.
    pub skip_positions: Vec<u64>,
    /// Running average of the percentage heard, in millionths of a point.
    pub completion_rate: u64,
    /// Last shuffle weight computed for the track, in millionths. A cache:
    /// nothing in this library reads it to decide anything.
    pub weight: u64,
    /// Labels derived from the other fields; see [`derived_tags`].
    pub tags: Vec<String>,
}

/// The mathematical value of a [`TrackBehavior`].
pub struct TrackBehaviorView {
    pub track_id: u128,
    pub total_plays: nat,
    pub total_skips: nat,
    pub total_play_time: nat,
    pub last_played: Option<i64>,
    pub skip_positions: Seq<u64>,
    pub completion_rate: nat,
    pub weight: nat,
    pub tags: Seq<Seq<char>>,
}

/// The characters of each string of `tags`, in order.
pub open spec fn tag_names(tags: Seq<String>) -> Seq<Seq<char>> {
    Seq::new(tags.len(), |i: int| tags[i]@)
}

impl Clone for TrackBehavior {
    fn clone(&self) -> (copy: Self)
        ensures
            copy@ == self@,
    {
        let copy = TrackBehavior {
            track_id: self.track_id,
            total_plays: self.total_plays,
            total_skips: self.total_skips,
            total_play_time: self.total_play_time,
            last_played: self.last_played,
            skip_positions: self.skip_positions.clone(),
            completion_rate: self.completion_rate,
            weight: self.weight,
            tags: self.tags.clone(),
        };
        assert(copy.skip_positions@ =~= self.skip_positions@);
        assert(tag_names(copy.tags@) =~= tag_names(self.tags@));
        copy
    }
}

impl View for TrackBehavior {
    type V = TrackBehaviorView;

    open spec fn view(&self) -> TrackBehaviorView {
        TrackBehaviorView {
            track_id: self.track_id,
            total_plays: self.total_plays as nat,
            total_skips: self.total_skips as nat,
            total_play_time: self.total_play_time as nat,
            last_played: self.last_played,
            skip_positions: self.skip_positions@,
            completion_rate: self.completion_rate as nat,
            weight: self.weight as nat,
            tags: tag_names(self.tags@),
        }
    }
}

/// The label of a track that is mostly heard to the end.
pub open spec fn tag_favorite() -> Seq<char> {
    "favorite"@
}

/// The label of a track of which little is heard.
pub open spec fn tag_often_skipped() -> Seq<char> {
    "often_skipped"@
}

/// The label of a track that is skipped near its beginning.
pub open spec fn tag_skip_early() -> Seq<char> {
    "skip_early"@
}

/// The label of a track that is skipped near its end.
pub open spec fn tag_skip_late() -> Seq<char> {
    "skip_late"@
}

/// The label of a track with more than ten plays.
pub open spec fn tag_frequently_played() -> Seq<char> {
    "frequently_played"@
}

/// The label of a track that is skipped in most of its plays.
pub open spec fn tag_high_skip_rate() -> Seq<char> {
    "high_skip_rate"@
}

/// The label of a track that is skipped in few of its plays.
pub open spec fn tag_low_skip_rate() -> Seq<char> {
    "low_skip_rate"@
}

/// Sum of the first `n` entries of `positions`.
pub open spec fn position_sum(positions: Seq<u64>, n: int) -> int
    decreases n,
{
    if n <= 0 {
        0
    } else {
        position_sum(positions, n - 1) + positions[n - 1] as int
    }
}

/// `tags` with `name` appended when `wanted` holds.
pub open spec fn with_tag(tags: Seq<Seq<char>>, wanted: bool, name: Seq<char>) -> Seq<Seq<char>> {
    if wanted {
        tags.push(name)
    } else {
        tags
    }
}

/// The labels that follow from an aggregate, each judged by itself and
/// listed in this order: `favorite` above 90 % completion; `often_skipped`
/// below 30 %; with more than three recorded skips, `skip_early` when they
/// average below 25 % of the track and `skip_late` when above 75 %;
/// `frequently_played` above ten plays; `high_skip_rate` when more than 0.7
/// of the plays were skipped and `low_skip_rate` when fewer than 0.2 were.
pub open spec fn derived_tags(
    completion_rate: int,
    skip_positions: Seq<u64>,
    total_plays: int,
    total_skips: int,
) -> Seq<Seq<char>> {
    let favorite = completion_rate > 90 * UNIT;
    let often_skipped = completion_rate < 30 * UNIT;
    let sum = position_sum(skip_positions, skip_positions.len() as int);
    let patterned = skip_positions.len() > 3;
    let early = patterned && sum < 25 * skip_positions.len();
    let late = patterned && sum > 75 * skip_positions.len();
    let frequent = total_plays > 10;
    let high = total_plays > 0 && 10 * total_skips > 7 * total_plays;
    let low = total_plays > 0 && 10 * total_skips < 2 * total_plays;
    let t0 = Seq::<Seq<char>>::empty();
    let t1 = with_tag(t0, favorite, tag_favorite());
    let t2 = with_tag(t1, often_skipped, tag_often_skipped());
    let t3 = with_tag(t2, early, tag_skip_early());
    let t4 = with_tag(t3, late, tag_skip_late());
    let t5 = with_tag(t4, frequent, tag_frequently_played());
    let t6 = with_tag(t5, high, tag_high_skip_rate());
    with_tag(t6, low, tag_low_skip_rate())
}

/// The running completion average after one more session: the first play
/// sets it, every later one blends 0.7 of the old value with 0.3 of the new,
/// rounding down.
pub open spec fn blended_rate(plays_after: int, old_rate: int, new_rate: int) -> int {
    if plays_after == 1 {
        new_rate
    } else {
        (7 * old_rate + 3 * new_rate) / 10
    }
}

/// The skip positions after a session: one more entry, the rounded
/// percentage of the track that was heard, when the session was a skip.
pub open spec fn positions_after(positions: Seq<u64>, session: PlaySession) -> Seq<u64> {
    if session.skip_reason is Some {
        positions.push(
            rounded_percent(session.play_duration as int, session.track_duration as int) as u64,
        )
    } else {
        positions
    }
}

/// The aggregate `b` after `session` has been counted. The cached weight is
/// carried over unchanged.
pub open spec fn updated_behavior(b: TrackBehaviorView, session: PlaySession) -> TrackBehaviorView {
    let plays = b.total_plays + 1;
    let skips = if session.skip_reason is Some {
        b.total_skips + 1
    } else {
        b.total_skips
    };
    let positions = positions_after(b.skip_positions, session);
    let rate = blended_rate(
        plays as int,
        b.completion_rate as int,
        session.completion_percentage as int,
    );
    TrackBehaviorView {
        track_id: b.track_id,
        total_plays: plays,
        total_skips: skips,
        total_play_time: (b.total_play_time + session.play_duration) as nat,
        last_played: Some(session.started_at),
        skip_positions: positions,
        completion_rate: rate as nat,
        weight: b.weight,
        tags: derived_tags(rate, positions, plays as int, skips as int),
    }
}

/// Whether `session` can be counted into `b` without a counter leaving the
/// range of its machine type.
pub open spec fn can_count(b: TrackBehaviorView, session: PlaySession) -> bool {
    &&& b.total_plays < u64::MAX
    &&& b.total_skips < u64::MAX
    &&& b.total_play_time + session.play_duration <= u64::MAX
}

/// Whether one of `tags` reads `name`.
pub fn has_tag(tags: &Vec<String>, name: &str) -> (found: bool)
    ensures
        found == tag_names(tags@).contains(name@),
{
    let wanted: String = name.to_owned();
    let mut i: usize = 0;
    while i < tags.len()
        invariant
            i <= tags.len(),
            wanted@ == name@,
            forall|j: int| 0 <= j < i ==> tag_names(tags@)[j] != name@,
        decreases tags.len() - i,
    {
        if tags[i] == wanted {
            assert(tag_names(tags@)[i as int] == name@);
            return true;
        }
        i = i + 1;
    }
    false
}

/// The factor, in millionths, by which the share of skipped plays lowers a
/// weight: one minus `per_skip` of the share, but no less than `floor`.
pub open spec fn skip_factor(total_skips: int, total_plays: int, per_skip: int, floor: int) -> int {
    let lost = total_skips * per_skip / total_plays;
    if lost >= UNIT - floor {
        floor
    } else {
        UNIT - lost
    }
}

/// `value` kept within `low` and `high`.
pub open spec fn clamped(value: int, low: int, high: int) -> int {
    if value < low {
        low
    } else if value > high {
        high
    } else {
        value
    }
}

/// The weight that [`TrackBehavior::calculate_shuffle_weight`] computes, in
/// millionths; every product is rounded down. Starting from 1.0: times 1.5
/// for a `favorite`, times 0.3 for an `often_skipped` track; after more than
/// a week without a play, times one plus a tenth per day, at most 3.0; times
/// one minus half the share of skipped plays, at least 0.1; the result kept
/// within 0.1 and 5.0.
pub open spec fn shuffle_weight(b: TrackBehaviorView, days_since_last_play: Option<u64>) -> int {
    let w0 = UNIT as int;
    let w1 = if b.tags.contains(tag_favorite()) {
        scaled(w0, 1_500_000)
    } else {
        w0
    };
    let w2 = if b.tags.contains(tag_often_skipped()) {
        scaled(w1, 300_000)
    } else {
        w1
    };
    let w3 = match days_since_last_play {
        Some(days) if days > 7 => scaled(
            w2,
            UNIT + if days >= 20 {
                2_000_000
            } else {
                days * 100_000
            },
        ),
        _ => w2,
    };
    let plays = if b.total_plays == 0 {
        1
    } else {
        b.total_plays as int
    };
    let w4 = scaled(w3, skip_factor(b.total_skips as int, plays, 500_000, 100_000));
    clamped(w4, 100_000, 5_000_000)
}

/// Computes [`skip_factor`].
pub fn skip_factor_of(total_skips: u64, total_plays: u64, per_skip: u64, floor: u64) -> (f: u64)
    requires
        total_plays > 0,
        floor <= UNIT,
        per_skip <= UNIT,
    ensures
        f == skip_factor(total_skips as int, total_plays as int, per_skip as int, floor as int),
        floor <= f <= UNIT,
{
    assert(total_skips * per_skip <= u64::MAX * UNIT) by (nonlinear_arith)
        requires
            total_skips <= u64::MAX,
            per_skip <= UNIT,
    ;
    let lost: u128 = (total_skips as u128) * (per_skip as u128) / (total_plays as u128);
    if lost >= (UNIT - floor) as u128 {
        floor
    } else {
        UNIT - (lost as u64)
    }
}

/// Appends `name` to `tags` when `wanted` holds.
fn push_tag(tags: &mut Vec<String>, wanted: bool, name: &str)
    ensures
        tag_names(final(tags)@) == with_tag(tag_names(old(tags)@), wanted, name@),
{
    if wanted {
        tags.push(name.to_owned());
    }
    assert(tag_names(tags@) =~= with_tag(tag_names(old(tags)@), wanted, name@));
}

/// Adds up `positions`.
fn sum_positions(positions: &Vec<u64>) -> (sum: u128)
    ensures
        sum == position_sum(positions@, positions@.len() as int),
{
    let mut sum: u128 = 0;
    let mut i: usize = 0;
    while i < positions.len()
        invariant
            i <= positions.len(),
            sum == position_sum(positions@, i as int),
            sum <= i * u64::MAX,
        decreases positions.len() - i,
    {
        assert((i + 1) * u64::MAX == i * u64::MAX + u64::MAX) by (nonlinear_arith);
        assert(i * u64::MAX <= usize::MAX * u64::MAX) by (nonlinear_arith)
            requires
                i <= usize::MAX,
        ;
        assert(usize::MAX * u64::MAX <= 0xffff_ffff_ffff_ffff * 0xffff_ffff_ffff_ffff)
            by (nonlinear_arith)
            requires
                usize::MAX <= 0xffff_ffff_ffff_ffff,
                u64::MAX == 0xffff_ffff_ffff_ffff,
        ;
        sum = sum + positions[i] as u128;
        i = i + 1;
    }
    sum
}

impl TrackBehavior {
    /// The aggregate of a track that has not been played: all counters zero,
    /// no tags, and the neutral weight 1.0.
    pub fn new(track_id: u128) -> (b: Self)
        ensures
            b@ == Self::fresh(track_id),
    {
        let b = Self {
            track_id,
            total_plays: 0,
            total_skips: 0,
            total_play_time: 0,
            last_played: None,
            skip_positions: Vec::new(),
            completion_rate: 0,
            weight: UNIT,
            tags: Vec::new(),
        };
        assert(b@.tags =~= Seq::empty());
        b
    }

    /// The value that [`TrackBehavior::new`] returns.
    pub open spec fn fresh(track_id: u128) -> TrackBehaviorView {
        TrackBehaviorView {
            track_id,
            total_plays: 0,
            total_skips: 0,
            total_play_time: 0,
            last_played: None,
            skip_positions: Seq::empty(),
            completion_rate: 0,
            weight: UNIT as nat,
            tags: Seq::empty(),
        }
    }

    /// No more skips than plays.
    pub open spec fn wf(&self) -> bool {
        self.total_skips <= self.total_plays
    }

    /// Counts a finished session into the aggregate: one more play, its
    /// seconds heard, its start as the latest play; for a skipped session one
    /// more skip and where it happened; the blended completion average; and
    /// the tags, derived afresh from the result.
    pub fn update_from_session(&mut self, session: &PlaySession)
        requires
            can_count(old(self)@, *session),
        ensures
            final(self)@ == updated_behavior(old(self)@, *session),
            old(self).wf() ==> final(self).wf(),
    {
        self.total_plays = self.total_plays + 1;
        self.total_play_time = self.total_play_time + session.play_duration;
        self.last_played = Some(session.started_at);
        if session.skip_reason.is_some() {
            self.total_skips = self.total_skips + 1;
            let skip_position: u64 = percent_rounded(session.play_duration, session.track_duration);
            self.skip_positions.push(skip_position);
        }
        let new_completion: u64 = session.completion_percentage;
        if self.total_plays == 1 {
            self.completion_rate = new_completion;
        } else {
            let blend: u128 = (7 * (self.completion_rate as u128) + 3 * (new_completion as u128))
                / 10;
            self.completion_rate = blend as u64;
        }
        self.update_tags();
    }

    /// The shuffle weight that the aggregate alone suggests, given the whole
    /// days since the track was last played: [`shuffle_weight`].
    pub fn calculate_shuffle_weight(&self, days_since_last_play: Option<u64>) -> (weight: u64)
        ensures
            weight == shuffle_weight(self@, days_since_last_play),
            100_000 <= weight <= 5_000_000,
    {
        let mut weight: u64 = UNIT;
        if has_tag(&self.tags, "favorite") {
            weight = scale(weight, 1_500_000);
        }
        if has_tag(&self.tags, "often_skipped") {
            weight = scale(weight, 300_000);
        }
        assert(weight <= 1_500_000);
        let ghost before_boost: int = weight as int;
        match days_since_last_play {
            Some(days) => {
                if days > 7 {
                    let boost: u64 = if days >= 20 {
                        2_000_000
                    } else {
                        days * 100_000
                    };
                    weight = scale(weight, UNIT + boost);
                    proof {
                        lemma_scaled_monotonic(
                            before_boost,
                            UNIT + boost,
                            1_500_000,
                            3_000_000,
                        );
                    }
                }
            },
            None => {},
        }
        assert(weight <= 4_500_000);
        let plays: u64 = if self.total_plays == 0 {
            1
        } else {
            self.total_plays
        };
        let factor: u64 = skip_factor_of(self.total_skips, plays, 500_000, 100_000);
        weight = scale(weight, factor);
        if weight < 100_000 {
            100_000
        } else if weight > 5_000_000 {
            5_000_000
        } else {
            weight
        }
    }

    /// Replaces the tags by those that follow from the other fields.
    fn update_tags(&mut self)
        ensures
            tag_names(final(self).tags@) == derived_tags(
                old(self).completion_rate as int,
                old(self).skip_positions@,
                old(self).total_plays as int,
                old(self).total_skips as int,
            ),
            final(self).track_id == old(self).track_id,
            final(self).total_plays == old(self).total_plays,
            final(self).total_skips == old(self).total_skips,
            final(self).total_play_time == old(self).total_play_time,
            final(self).last_played == old(self).last_played,
            final(self).skip_positions == old(self).skip_positions,
            final(self).completion_rate == old(self).completion_rate,
            final(self).weight == old(self).weight,
    {
        let favorite = self.completion_rate > 90 * UNIT;
        let often_skipped = self.completion_rate < 30 * UNIT;
        let count: u128 = self.skip_positions.len() as u128;
        let sum: u128 = sum_positions(&self.skip_positions);
        let patterned = count > 3;
        let early = patterned && sum < 25 * count;
        let late = patterned && sum > 75 * count;
        let frequent = self.total_plays > 10;
        let plays: u128 = self.total_plays as u128;
        let skips: u128 = self.total_skips as u128;
        let high = plays > 0 && 10 * skips > 7 * plays;
        let low = plays > 0 && 10 * skips < 2 * plays;
        let mut tags: Vec<String> = Vec::new();
        assert(tag_names(tags@) =~= Seq::<Seq<char>>::empty());
        push_tag(&mut tags, favorite, "favorite");
        push_tag(&mut tags, often_skipped, "often_skipped");
        push_tag(&mut tags, early, "skip_early");
        push_tag(&mut tags, late, "skip_late");
        push_tag(&mut tags, frequent, "frequently_played");
        push_tag(&mut tags, high, "high_skip_rate");
        push_tag(&mut tags, low, "low_skip_rate");
        self.tags = tags;
    }
}

} // verus!
