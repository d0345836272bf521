//! Shuffle weights: how much more or less often than average a track should
//! come up, from how it has been listened to.

use crate::behavior::{
    clamped, has_tag, skip_factor, skip_factor_of, tag_favorite, tag_frequently_played,
    tag_high_skip_rate, tag_low_skip_rate, tag_often_skipped, tag_skip_early, TrackBehavior,
    TrackBehaviorView,
};
use crate::fixed::{lemma_scaled_monotonic, scale, scaled, UNIT};
use vstd::prelude::*;

verus! {

/// Milliseconds in a day.
pub const MS_PER_DAY: u64 = 86_400_000;

/// Lowest weight a track can have: 0.05.
pub const MIN_WEIGHT: u64 = 50_000;

/// Highest weight a track can have: 5.0.
pub const MAX_WEIGHT: u64 = 5_000_000;

/// Weight of a track that has no aggregate yet: 1.2.
pub const UNKNOWN_TRACK_WEIGHT: u64 = 1_200_000;

/// Whole days from `last` to `now`, both in milliseconds since the epoch.
/// A `last` that lies a day or more after `now` gives the negative count
/// read as an unsigned 64-bit number, so such a play counts as long past.
pub open spec fn days_between(now: i64, last: i64) -> int {
    if now >= last {
        (now - last) / (MS_PER_DAY as int)
    } else {
        let ahead = (last - now) / (MS_PER_DAY as int);
        if ahead == 0 {
            0
        } else {
            0x1_0000_0000_0000_0000 - ahead
        }
    }
}

/// The factor for how long ago the track was played: 1.3 when never; after
/// more than `decay_days` days, one plus a fifth of the days counted in
/// decay windows, at most three windows; 0.8 within the last day.
pub open spec fn recency_factor(last_played: Option<i64>, now: i64, decay_days: u64) -> int {
    match last_played {
        None => 1_300_000,
        Some(last) => {
            let days = days_between(now, last);
            if days > decay_days {
                if decay_days == 0 || days >= 3 * decay_days {
                    1_600_000
                } else {
                    UNIT + days * 200_000 / (decay_days as int)
                }
            } else if days < 1 {
                800_000
            } else {
                UNIT as int
            }
        },
    }
}

/// The factor for how much of the track is usually heard: 1.5 above 80 %,
/// 0.3 below 30 %.
pub open spec fn completion_factor(completion_rate: int) -> int {
    if completion_rate > 80 * UNIT {
        1_500_000
    } else if completion_rate < 30 * UNIT {
        300_000
    } else {
        UNIT as int
    }
}

/// The factor for the share of skipped plays: one minus 0.6 of the share,
/// at least 0.2; none before the first play.
pub open spec fn skip_ratio_factor(total_skips: int, total_plays: int) -> int {
    if total_plays > 0 {
        skip_factor(total_skips, total_plays, 600_000, 200_000)
    } else {
        UNIT as int
    }
}

/// `weight` times `factor` when `tags` holds `name`, else `weight`.
pub open spec fn tagged(weight: int, tags: Seq<Seq<char>>, name: Seq<char>, factor: int) -> int {
    if tags.contains(name) {
        scaled(weight, factor)
    } else {
        weight
    }
}

/// The product of all factors before it is bounded. Each product is rounded
/// down to a millionth, in this order: recency, completion, skip ratio, then
/// the tags `favorite` (1.8), `often_skipped` (0.2), `skip_early` (0.4),
/// `frequently_played` (0.9), `high_skip_rate` (0.3), `low_skip_rate` (1.2).
/// A tag counts once however often it is listed.
pub open spec fn unbounded_weight(b: TrackBehaviorView, now: i64, decay_days: u64) -> int {
    let w0 = scaled(UNIT as int, recency_factor(b.last_played, now, decay_days));
    let w1 = scaled(w0, completion_factor(b.completion_rate as int));
    let w2 = scaled(w1, skip_ratio_factor(b.total_skips as int, b.total_plays as int));
    let w3 = tagged(w2, b.tags, tag_favorite(), 1_800_000);
    let w4 = tagged(w3, b.tags, tag_often_skipped(), 200_000);
    let w5 = tagged(w4, b.tags, tag_skip_early(), 400_000);
    let w6 = tagged(w5, b.tags, tag_frequently_played(), 900_000);
    let w7 = tagged(w6, b.tags, tag_high_skip_rate(), 300_000);
    tagged(w7, b.tags, tag_low_skip_rate(), 1_200_000)
}

/// The shuffle weight of a track with aggregate `b` at the instant `now`:
/// [`unbounded_weight`] kept within 0.05 and 5.0.
pub open spec fn track_weight(b: TrackBehaviorView, now: i64, decay_days: u64) -> int {
    clamped(unbounded_weight(b, now, decay_days), MIN_WEIGHT as int, MAX_WEIGHT as int)
}

/// Computes [`days_between`].
pub fn days_since(now: i64, last: i64) -> (days: u64)
    ensures
        days == days_between(now, last),
{
    let gap: i128 = now as i128 - last as i128;
    if gap >= 0 {
        (gap as u64) / 86_400_000
    } else {
        let ahead: u64 = ((-gap) as u64) / 86_400_000;
        if ahead == 0 {
            0
        } else {
            (u64::MAX - ahead) + 1
        }
    }
}

/// Computes [`recency_factor`].
pub fn recency_factor_of(last_played: Option<i64>, now: i64, decay_days: u64) -> (f: u64)
    ensures
        f == recency_factor(last_played, now, decay_days),
        800_000 <= f <= 1_600_000,
{
    match last_played {
        None => 1_300_000,
        Some(last) => {
            let days: u64 = days_since(now, last);
            if days > decay_days {
                if decay_days == 0 || (days as u128) >= 3 * (decay_days as u128) {
                    1_600_000
                } else {
                    let extra: u128 = (days as u128) * 200_000 / (decay_days as u128);
                    assert(extra < 600_000) by (nonlinear_arith)
                        requires
                            extra == (days as int) * 200_000 / (decay_days as int),
                            0 < decay_days,
                            0 <= days < 3 * decay_days,
                    ;
                    1_000_000 + (extra as u64)
                }
            } else if days < 1 {
                800_000
            } else {
                1_000_000
            }
        },
    }
}

/// Scores tracks for the shuffle.
pub struct WeightCalculator {
    decay_days: u64,
    boost_factor: u64,
    penalty_factor: u64,
}

impl WeightCalculator {
    #[verifier::type_invariant]
    spec fn factors_fixed(&self) -> bool {
        self.boost_factor == 1_500_000 && self.penalty_factor == 300_000
    }

    /// The days without a play after which a track is boosted.
    pub closed spec fn decay_days(&self) -> u64 {
        self.decay_days
    }

    /// A calculator with the given decay window in days.
    pub fn new(decay_days: u64) -> (c: Self)
        ensures
            c.decay_days() == decay_days,
    {
        Self { decay_days, boost_factor: 1_500_000, penalty_factor: 300_000 }
    }

    /// The decay window in days.
    pub fn window(&self) -> (d: u64)
        ensures
            d == self.decay_days(),
    {
        self.decay_days
    }

    /// The shuffle weight of a track at `current_time` (milliseconds since
    /// the epoch), in millionths: always between 0.05 and 5.0.
    pub fn calculate_weight(&self, behavior: &TrackBehavior, current_time: i64) -> (weight: u64)
        ensures
            weight == track_weight(behavior@, current_time, self.decay_days()),
            MIN_WEIGHT <= weight <= MAX_WEIGHT,
    {
        proof {
            use_type_invariant(self);
        }
        let recency: u64 = recency_factor_of(behavior.last_played, current_time, self.decay_days);
        let w0: u64 = scale(UNIT, recency);
        let completion: u64 = if behavior.completion_rate > 80 * UNIT {
            self.boost_factor
        } else if behavior.completion_rate < 30 * UNIT {
            self.penalty_factor
        } else {
            UNIT
        };
        proof {
            lemma_scaled_monotonic(UNIT as int, recency as int, 1_000_000, 1_600_000);
            lemma_scaled_monotonic(w0 as int, completion as int, 1_600_000, 1_500_000);
        }
        let w1: u64 = scale(w0, completion);
        let skipping: u64 = if behavior.total_plays > 0 {
            skip_factor_of(behavior.total_skips, behavior.total_plays, 600_000, 200_000)
        } else {
            UNIT
        };
        let w2: u64 = scale(w1, skipping);
        proof {
            lemma_scaled_monotonic(w1 as int, skipping as int, 2_400_000, 1_000_000);
        }
        let w3: u64 = apply_tag(w2, &behavior.tags, "favorite", 1_800_000, Ghost(2_400_000));
        let w4: u64 = apply_tag(w3, &behavior.tags, "often_skipped", 200_000, Ghost(4_320_000));
        let w5: u64 = apply_tag(w4, &behavior.tags, "skip_early", 400_000, Ghost(4_320_000));
        let w6: u64 = apply_tag(w5, &behavior.tags, "frequently_played", 900_000, Ghost(4_320_000));
        let w7: u64 = apply_tag(w6, &behavior.tags, "high_skip_rate", 300_000, Ghost(4_320_000));
        let w8: u64 = apply_tag(w7, &behavior.tags, "low_skip_rate", 1_200_000, Ghost(4_320_000));
        if w8 < MIN_WEIGHT {
            MIN_WEIGHT
        } else if w8 > MAX_WEIGHT {
            MAX_WEIGHT
        } else {
            w8
        }
    }
}

/// Multiplies `weight` by `factor` when `tags` lists `name`. `bound` is a
/// known upper bound of `weight`.
fn apply_tag(weight: u64, tags: &Vec<String>, name: &str, factor: u64, bound: Ghost<int>) -> (r: u64)
    requires
        weight <= bound@ <= 1_000_000_000,
        factor <= 2_000_000,
    ensures
        r == tagged(weight as int, crate::behavior::tag_names(tags@), name@, factor as int),
        r <= scaled(bound@, if factor > UNIT {
            factor as int
        } else {
            UNIT as int
        }),
{
    if has_tag(tags, name) {
        proof {
            lemma_scaled_monotonic(weight as int, factor as int, bound@, if factor > UNIT {
                factor as int
            } else {
                UNIT as int
            });
        }
        scale(weight, factor)
    } else {
        proof {
            lemma_scaled_monotonic(weight as int, UNIT as int, bound@, if factor > UNIT {
                factor as int
            } else {
                UNIT as int
            });
            assert(scaled(weight as int, UNIT as int) == weight);
        }
        weight
    }
}

} // verus!
