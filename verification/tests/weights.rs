use panpipe::behavior::weighting::{
    days_since, recency_factor_of, WeightCalculator, MAX_WEIGHT, MIN_WEIGHT,
};
use panpipe::behavior::TrackBehavior;
use panpipe::fixed::{percent_capped, percent_rounded, scale, UNIT};

const DAY: i64 = 86_400_000;
const NOW: i64 = 1_700_000_000_000;

fn behavior(rate_percent: u64, plays: u64, skips: u64, days_ago: Option<i64>, tags: &[&str]) -> TrackBehavior {
    let mut b = TrackBehavior::new(7);
    b.completion_rate = rate_percent * UNIT;
    b.total_plays = plays;
    b.total_skips = skips;
    b.last_played = days_ago.map(|d| NOW - d * DAY);
    b.tags = tags.iter().map(|t| t.to_string()).collect();
    b
}

#[test]
fn favorite_played_two_days_ago_follows_the_multiplicative_chain() {
    let calc = WeightCalculator::new(30);
    let b = behavior(95, 20, 1, Some(2), &["favorite"]);
    // 1.0 (no recency factor) x 1.5 x 0.97 x 1.8
    assert_eq!(calc.calculate_weight(&b, NOW), 2_619_000);
}

#[test]
fn frequently_played_favorite_is_slightly_lowered() {
    let calc = WeightCalculator::new(30);
    let b = behavior(95, 20, 1, Some(2), &["favorite", "frequently_played"]);
    // 1.5 x 0.97 x 1.8 x 0.9 = 2.3571
    assert_eq!(calc.calculate_weight(&b, NOW), 2_357_100);
}

#[test]
fn a_tag_listed_twice_counts_once() {
    let calc = WeightCalculator::new(30);
    let b = behavior(95, 20, 1, Some(2), &["favorite", "favorite"]);
    assert_eq!(calc.calculate_weight(&b, NOW), 2_619_000);
}

#[test]
fn unknown_tags_change_nothing() {
    let calc = WeightCalculator::new(30);
    let b = behavior(50, 4, 1, Some(2), &["skip_late", "mystery"]);
    // 1.0 x (1 - 0.25 x 0.6) = 0.85
    assert_eq!(calc.calculate_weight(&b, NOW), 850_000);
}

#[test]
fn never_played_track_gets_the_discovery_boost() {
    let calc = WeightCalculator::new(30);
    let b = TrackBehavior::new(1);
    // 1.3 x 0.3 (completion below 30 %)
    assert_eq!(calc.calculate_weight(&b, NOW), 390_000);
}

#[test]
fn long_unplayed_track_is_boosted_by_days_over_window() {
    let calc = WeightCalculator::new(30);
    let b = behavior(50, 1, 0, Some(45), &[]);
    // 1 + (45 / 30) x 0.2 = 1.3
    assert_eq!(calc.calculate_weight(&b, NOW), 1_300_000);
}

#[test]
fn recency_boost_is_capped_at_three_windows() {
    let calc = WeightCalculator::new(30);
    let b = behavior(50, 1, 0, Some(200), &[]);
    assert_eq!(calc.calculate_weight(&b, NOW), 1_600_000);
    let exactly_three = behavior(50, 1, 0, Some(90), &[]);
    assert_eq!(calc.calculate_weight(&exactly_three, NOW), 1_600_000);
    let just_below = behavior(50, 1, 0, Some(89), &[]);
    // 1 + 89 x 0.2 / 30 = 1.593333
    assert_eq!(calc.calculate_weight(&just_below, NOW), 1_593_333);
}

#[test]
fn track_played_within_the_last_day_is_suppressed() {
    let calc = WeightCalculator::new(30);
    let b = behavior(50, 1, 0, Some(0), &[]);
    assert_eq!(calc.calculate_weight(&b, NOW), 800_000);
}

#[test]
fn zero_decay_window_boosts_fully_after_one_day() {
    let calc = WeightCalculator::new(0);
    let b = behavior(50, 1, 0, Some(1), &[]);
    assert_eq!(calc.calculate_weight(&b, NOW), 1_600_000);
    let today = behavior(50, 1, 0, Some(0), &[]);
    assert_eq!(calc.calculate_weight(&today, NOW), 800_000);
}

#[test]
fn skip_ratio_factor_has_a_floor() {
    let calc = WeightCalculator::new(30);
    let all_skipped = behavior(50, 10, 10, Some(2), &[]);
    // 1 - 1.0 x 0.6 = 0.4
    assert_eq!(calc.calculate_weight(&all_skipped, NOW), 400_000);
    let more_skips_than_plays = behavior(50, 2, 9, Some(2), &[]);
    assert_eq!(calc.calculate_weight(&more_skips_than_plays, NOW), 200_000);
}

#[test]
fn weight_never_falls_below_the_minimum() {
    let calc = WeightCalculator::new(30);
    let b = behavior(
        10,
        10,
        10,
        Some(0),
        &["often_skipped", "skip_early", "high_skip_rate"],
    );
    // 0.8 x 0.3 x 0.4 x 0.2 x 0.4 x 0.3 = 0.002304
    assert_eq!(calc.calculate_weight(&b, NOW), MIN_WEIGHT);
    assert_eq!(MIN_WEIGHT, 50_000);
}

#[test]
fn weight_never_rises_above_the_maximum() {
    let calc = WeightCalculator::new(30);
    let b = behavior(95, 10, 0, Some(365), &["favorite", "low_skip_rate"]);
    // 1.6 x 1.5 x 1.8 x 1.2 = 5.184
    assert_eq!(calc.calculate_weight(&b, NOW), MAX_WEIGHT);
    assert_eq!(MAX_WEIGHT, 5_000_000);
}

#[test]
fn pathological_aggregates_stay_within_bounds() {
    let calc = WeightCalculator::new(30);
    let mut cases = Vec::new();
    cases.push(TrackBehavior::new(1));
    let mut all_skips = behavior(0, 1000, 1000, Some(0), &["often_skipped", "high_skip_rate", "skip_early"]);
    all_skips.skip_positions = vec![1; 1000];
    cases.push(all_skips);
    let mut huge = behavior(100, u64::MAX, u64::MAX, Some(100_000), &["favorite", "low_skip_rate"]);
    huge.completion_rate = u64::MAX;
    cases.push(huge);
    let mut future = behavior(50, 0, 5, Some(-400), &["frequently_played"]);
    future.total_play_time = u64::MAX;
    cases.push(future);
    for b in cases.iter() {
        for decay in [0u64, 1, 30, u64::MAX] {
            for now in [i64::MIN, 0, NOW, i64::MAX] {
                let w = calc_with(decay).calculate_weight(b, now);
                assert!(w >= MIN_WEIGHT && w <= MAX_WEIGHT);
            }
        }
    }
    assert_eq!(calc.window(), 30);
}

fn calc_with(decay: u64) -> WeightCalculator {
    WeightCalculator::new(decay)
}

#[test]
fn whole_days_are_counted_from_milliseconds() {
    assert_eq!(days_since(NOW, NOW), 0);
    assert_eq!(days_since(NOW, NOW - DAY + 1), 0);
    assert_eq!(days_since(NOW, NOW - DAY), 1);
    assert_eq!(days_since(NOW, NOW - 45 * DAY - 5), 45);
    assert_eq!(days_since(i64::MAX, i64::MIN), (u64::MAX / 86_400_000));
}

#[test]
fn last_play_in_the_future_counts_as_long_past() {
    assert_eq!(days_since(NOW, NOW + DAY - 1), 0);
    assert_eq!(days_since(NOW, NOW + DAY), u64::MAX);
    assert_eq!(days_since(NOW, NOW + 2 * DAY), u64::MAX - 1);
    assert_eq!(recency_factor_of(Some(NOW + 2 * DAY), NOW, 30), 1_600_000);
    assert_eq!(recency_factor_of(Some(NOW + 10), NOW, 30), 800_000);
    assert_eq!(recency_factor_of(None, NOW, 30), 1_300_000);
    assert_eq!(recency_factor_of(Some(NOW - 5 * DAY), NOW, 30), 1_000_000);
}

#[test]
fn fixed_point_helpers_round_as_documented() {
    assert_eq!(scale(1_500_000, 970_000), 1_455_000);
    assert_eq!(scale(1, 999_999), 0);
    assert_eq!(percent_capped(50, 200), 25_000_000);
    assert_eq!(percent_capped(1, 3), 33_333_333);
    assert_eq!(percent_capped(300, 200), 100_000_000);
    assert_eq!(percent_capped(0, 0), 100_000_000);
    assert_eq!(percent_capped(5, 0), 100_000_000);
    assert_eq!(percent_rounded(1, 3), 33);
    assert_eq!(percent_rounded(2, 3), 67);
    assert_eq!(percent_rounded(1, 8), 13);
    assert_eq!(percent_rounded(30, 200), 15);
    assert_eq!(percent_rounded(0, 0), 0);
    assert_eq!(percent_rounded(4, 0), u64::MAX);
    assert_eq!(percent_rounded(u64::MAX, 1), u64::MAX);
}

#[test]
fn aggregate_weight_uses_its_own_formula() {
    let fresh = TrackBehavior::new(3);
    assert_eq!(fresh.calculate_shuffle_weight(None), 1_000_000);
    let favorite = behavior(95, 10, 0, None, &["favorite"]);
    assert_eq!(favorite.calculate_shuffle_weight(Some(7)), 1_500_000);
    // 1.5 x (1 + 10 x 0.1)
    assert_eq!(favorite.calculate_shuffle_weight(Some(10)), 3_000_000);
    // 1.5 x (1 + 2.0) = 4.5
    assert_eq!(favorite.calculate_shuffle_weight(Some(30)), 4_500_000);
    let skipped = behavior(10, 4, 4, None, &["often_skipped"]);
    // 0.3 x (1 - 0.5)
    assert_eq!(skipped.calculate_shuffle_weight(None), 150_000);
    let hopeless = behavior(10, 1, 5, None, &["often_skipped"]);
    // 0.3 x 0.1 = 0.03, raised to the floor
    assert_eq!(hopeless.calculate_shuffle_weight(None), 100_000);
    let loved = behavior(95, 10, 0, None, &["favorite"]);
    assert!(loved.calculate_shuffle_weight(Some(1_000_000)) <= 5_000_000);
}
