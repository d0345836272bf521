use panpipe::behavior::shuffle::{
    contains_id, pick_weighted, recent_capacity, total_weight, tracked_ids, without_ids,
    ShuffleWeighting,
};
use panpipe::behavior::TrackBehavior;
use panpipe::fixed::UNIT;
use std::collections::HashMap;

const DAY: i64 = 86_400_000;
const NOW: i64 = 1_700_000_000_000;

fn behaviors() -> HashMap<u128, TrackBehavior> {
    let mut map = HashMap::new();
    let mut loved = TrackBehavior::new(1);
    loved.completion_rate = 95 * UNIT;
    loved.total_plays = 20;
    loved.total_skips = 1;
    loved.last_played = Some(NOW - 2 * DAY);
    loved.tags = vec!["favorite".to_string()];
    map.insert(1, loved);
    let mut disliked = TrackBehavior::new(2);
    disliked.completion_rate = 50 * UNIT;
    disliked.total_plays = 10;
    disliked.total_skips = 10;
    disliked.last_played = Some(NOW - 2 * DAY);
    map.insert(2, disliked);
    map
}

#[test]
fn roll_selects_first_candidate_whose_cumulative_weight_exceeds_it() {
    let pool = vec![(1u128, 10u64), (2, 20), (3, 30)];
    assert_eq!(pick_weighted(&pool, 0), Some(1));
    assert_eq!(pick_weighted(&pool, 9), Some(1));
    assert_eq!(pick_weighted(&pool, 10), Some(2));
    assert_eq!(pick_weighted(&pool, 29), Some(2));
    assert_eq!(pick_weighted(&pool, 30), Some(3));
    assert_eq!(pick_weighted(&pool, 59), Some(3));
}

#[test]
fn each_candidate_is_selected_by_as_many_rolls_as_its_weight() {
    let pool = vec![(1u128, 3u64), (2, 0), (3, 5), (4, 2)];
    let mut hits = HashMap::new();
    for roll in 0..10u128 {
        *hits.entry(pick_weighted(&pool, roll).unwrap()).or_insert(0u64) += 1;
    }
    assert_eq!(hits.get(&1), Some(&3));
    assert_eq!(hits.get(&2), None);
    assert_eq!(hits.get(&3), Some(&5));
    assert_eq!(hits.get(&4), Some(&2));
}

#[test]
fn roll_beyond_the_total_falls_back_to_the_last_candidate() {
    let pool = vec![(1u128, 10u64), (2, 20), (3, 30)];
    assert_eq!(pick_weighted(&pool, 60), Some(3));
    assert_eq!(pick_weighted(&pool, u128::MAX), Some(3));
}

#[test]
fn empty_pool_yields_nothing() {
    assert_eq!(pick_weighted(&Vec::new(), 0), None);
}

#[test]
fn single_candidate_is_always_picked() {
    for weight in [0u64, 50_000, 1, u64::MAX] {
        let pool = vec![(9u128, weight)];
        for roll in [0u128, 1, 49_999, 50_000, u128::MAX] {
            assert_eq!(pick_weighted(&pool, roll), Some(9));
        }
    }
}

#[test]
fn total_weight_adds_up_without_overflow() {
    assert_eq!(total_weight(&Vec::new()), 0);
    assert_eq!(total_weight(&vec![(1, 10), (2, 20)]), 30);
    assert_eq!(
        total_weight(&vec![(1, u64::MAX), (2, u64::MAX)]),
        2 * (u64::MAX as u128)
    );
}

#[test]
fn id_helpers_filter_in_order() {
    assert!(contains_id(&[1, 2, 3], 2));
    assert!(!contains_id(&[1, 2, 3], 4));
    assert!(!contains_id(&[], 4));
    assert_eq!(without_ids(&[1, 2, 3, 2, 4], &[2]), vec![1, 3, 4]);
    assert_eq!(without_ids(&[1, 2, 3], &[]), vec![1, 2, 3]);
    assert_eq!(without_ids(&[1, 2], &[2, 1, 7]), Vec::<u128>::new());
}

#[test]
fn candidates_are_weighed_by_their_aggregates() {
    let shuffle = ShuffleWeighting::new(30);
    let map = behaviors();
    let pool = shuffle.weigh_candidates(&[1, 2, 3, 4], &map, &[4], NOW);
    assert_eq!(pool, vec![(1, 2_619_000), (2, 400_000), (3, 1_200_000)]);
    assert_eq!(shuffle.weigh(3, &map, NOW), 1_200_000);
}

#[test]
fn selection_from_nothing_is_nothing() {
    let mut shuffle = ShuffleWeighting::new(30);
    assert_eq!(shuffle.select_next_track(&[], &behaviors(), &[]), None);
    assert_eq!(shuffle.select_next_track(&[], &behaviors(), &[1, 2]), None);
}

#[test]
fn selection_with_one_candidate_returns_it() {
    let mut shuffle = ShuffleWeighting::new(30);
    let map = behaviors();
    for _ in 0..50 {
        assert_eq!(shuffle.select_next_track(&[2], &map, &[]), Some(2));
        assert_eq!(shuffle.select_next_track(&[5], &map, &[]), Some(5));
        assert_eq!(shuffle.select_next_track_at(&[2], &map, &[1], NOW), Some(2));
    }
}

#[test]
fn recently_played_tracks_are_left_out() {
    let mut shuffle = ShuffleWeighting::new(30);
    let map = behaviors();
    for _ in 0..100 {
        assert_eq!(shuffle.select_next_track(&[1, 2, 3], &map, &[1, 2]), Some(3));
        let next = shuffle.select_next_track(&[1, 2, 3], &map, &[2, 8, 9]).unwrap();
        assert!(next == 1 || next == 3);
    }
}

#[test]
fn exclusion_is_ignored_when_it_would_leave_nothing() {
    let mut shuffle = ShuffleWeighting::new(30);
    let map = behaviors();
    let mut seen = std::collections::HashSet::new();
    for _ in 0..200 {
        let next = shuffle.select_next_track(&[1, 2], &map, &[2, 1]).unwrap();
        assert!(next == 1 || next == 2);
        seen.insert(next);
    }
    assert_eq!(seen.len(), 2);
}

#[test]
fn heavier_tracks_come_up_more_often() {
    let mut shuffle = ShuffleWeighting::new(30);
    let map = behaviors();
    let mut loved = 0;
    let mut disliked = 0;
    for _ in 0..2000 {
        match shuffle.select_next_track_at(&[1, 2], &map, &[], NOW) {
            Some(1) => loved += 1,
            Some(2) => disliked += 1,
            other => panic!("{:?}", other),
        }
    }
    // weights 2.619 against 0.4
    assert!(loved > 3 * disliked);
    assert!(disliked > 0);
}

#[test]
fn playlist_of_all_tracks_repeats_none() {
    let mut shuffle = ShuffleWeighting::new(30);
    let tracks: Vec<u128> = (1..=8).collect();
    for _ in 0..20 {
        let playlist = shuffle.generate_shuffled_playlist(&tracks, &behaviors(), 8);
        assert_eq!(playlist.len(), 8);
        let mut sorted = playlist.clone();
        sorted.sort();
        assert_eq!(sorted, tracks);
    }
}

#[test]
fn shorter_playlist_is_a_selection_without_repeats() {
    let mut shuffle = ShuffleWeighting::new(30);
    let tracks: Vec<u128> = (1..=8).collect();
    let playlist = shuffle.generate_shuffled_playlist(&tracks, &behaviors(), 3);
    assert_eq!(playlist.len(), 3);
    let distinct: std::collections::HashSet<_> = playlist.iter().collect();
    assert_eq!(distinct.len(), 3);
    assert!(playlist.iter().all(|id| tracks.contains(id)));
}

#[test]
fn longer_playlist_refills_the_pool_and_defers_repeats() {
    let mut shuffle = ShuffleWeighting::new(30);
    let tracks: Vec<u128> = (1..=8).collect();
    let playlist = shuffle.generate_shuffled_playlist(&tracks, &behaviors(), 20);
    assert_eq!(playlist.len(), 20);
    assert!(playlist.iter().all(|id| tracks.contains(id)));
    let first_round: std::collections::HashSet<_> = playlist[..8].iter().collect();
    assert_eq!(first_round.len(), 8);
    // the five tracks played last before the refill do not open the second round
    assert!(!playlist[3..8].contains(&playlist[8]));
}

#[test]
fn no_track_returns_within_the_remembered_entries() {
    let mut shuffle = ShuffleWeighting::new(30);
    for (count, size) in [(8u128, 12usize), (8, 60), (30, 100), (6, 40)] {
        let tracks: Vec<u128> = (1..=count).collect();
        let limit = recent_capacity(tracks.len());
        for _ in 0..10 {
            let playlist = shuffle.generate_shuffled_playlist(&tracks, &behaviors(), size);
            assert_eq!(playlist.len(), size);
            let mut first_round = playlist[..tracks.len()].to_vec();
            first_round.sort();
            assert_eq!(first_round, tracks);
            for j in 0..playlist.len() {
                for i in j.saturating_sub(limit)..j {
                    assert_ne!(playlist[i], playlist[j]);
                }
            }
        }
    }
}

#[test]
fn few_tracks_end_the_playlist_when_all_were_played_recently() {
    let mut shuffle = ShuffleWeighting::new(30);
    let playlist = shuffle.generate_shuffled_playlist(&[1, 2, 3], &behaviors(), 10);
    assert_eq!(playlist.len(), 3);
    let mut sorted = playlist.clone();
    sorted.sort();
    assert_eq!(sorted, vec![1, 2, 3]);
}

#[test]
fn playlist_from_no_tracks_or_of_no_length_is_empty() {
    let mut shuffle = ShuffleWeighting::new(30);
    assert!(shuffle.generate_shuffled_playlist(&[], &behaviors(), 10).is_empty());
    assert!(shuffle.generate_shuffled_playlist(&[1, 2], &behaviors(), 0).is_empty());
}

#[test]
fn recent_buffer_holds_a_quarter_and_at_least_five() {
    assert_eq!(recent_capacity(0), 5);
    assert_eq!(recent_capacity(23), 5);
    assert_eq!(recent_capacity(24), 6);
    assert_eq!(recent_capacity(400), 100);
}

#[test]
fn all_weights_are_recalculated_in_place() {
    let shuffle = ShuffleWeighting::new(30);
    let mut map = behaviors();
    shuffle.recalculate_all_weights_at(&mut map, NOW);
    assert_eq!(map.len(), 2);
    assert_eq!(map[&1].weight, 2_619_000);
    assert_eq!(map[&2].weight, 400_000);
    assert_eq!(map[&1].total_plays, 20);
    assert_eq!(map[&1].tags, vec!["favorite".to_string()]);
    shuffle.recalculate_all_weights(&mut map);
    assert!(map[&1].weight >= 50_000 && map[&1].weight <= 5_000_000);
    assert_eq!(map[&2].total_skips, 10);
}

#[test]
fn ranking_lists_every_aggregate_heaviest_first() {
    let shuffle = ShuffleWeighting::new(30);
    let mut map = behaviors();
    map.insert(3, TrackBehavior::new(3));
    assert_eq!(
        shuffle.get_tracks_by_weight_at(&map, NOW),
        vec![(1, 2_619_000), (2, 400_000), (3, 390_000)]
    );
    let now = shuffle.get_tracks_by_weight(&map);
    assert_eq!(now.len(), 3);
    assert!(now[0].1 >= now[1].1 && now[1].1 >= now[2].1);
    assert!(shuffle.get_tracks_by_weight_at(&HashMap::new(), NOW).is_empty());
}

#[test]
fn tracked_ids_lists_each_key_once() {
    let mut ids = tracked_ids(&behaviors());
    ids.sort();
    assert_eq!(ids, vec![1, 2]);
}
