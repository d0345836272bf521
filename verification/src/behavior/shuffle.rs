//! Weighted random selection of the next track, and whole shuffled playlists.

use crate::behavior::weighting::{
    track_weight, WeightCalculator, MAX_WEIGHT, MIN_WEIGHT, UNKNOWN_TRACK_WEIGHT,
};
use crate::behavior::{TrackBehavior, TrackBehaviorView};
use crate::trusted::{choose_id, draw_below, now_millis};
use std::collections::HashMap;
use vstd::prelude::*;
use vstd::slice::slice_to_vec;
use vstd::std_specs::iter::IteratorSpec;

verus! {

broadcast use vstd::std_specs::hash::group_hash_axioms;

/// The entries of `ids` that `banned` does not list, in their order.
pub open spec fn unlisted(ids: Seq<u128>, banned: Seq<u128>) -> Seq<u128> {
    ids.filter(|id: u128| !banned.contains(id))
}

/// The weight of a candidate: that of its aggregate, or 1.2 when the track
/// has none.
pub open spec fn candidate_weight(
    behaviors: Map<u128, TrackBehavior>,
    id: u128,
    now: i64,
    decay_days: u64,
) -> int {
    if behaviors.contains_key(id) {
        track_weight(behaviors[id]@, now, decay_days)
    } else {
        UNKNOWN_TRACK_WEIGHT as int
    }
}

/// Each of `ids` paired with its weight.
pub open spec fn weighted(
    ids: Seq<u128>,
    behaviors: Map<u128, TrackBehavior>,
    now: i64,
    decay_days: u64,
) -> Seq<(u128, u64)> {
    Seq::new(
        ids.len(),
        |i: int| (ids[i], candidate_weight(behaviors, ids[i], now, decay_days) as u64),
    )
}

/// The identifiers of a weighted pool.
pub open spec fn pool_ids(pool: Seq<(u128, u64)>) -> Seq<u128> {
    Seq::new(pool.len(), |i: int| pool[i].0)
}

/// Sum of the first `n` weights of `pool`.
pub open spec fn weight_sum(pool: Seq<(u128, u64)>, n: int) -> int
    decreases n,
{
    if n <= 0 {
        0
    } else {
        weight_sum(pool, n - 1) + pool[n - 1].1 as int
    }
}

/// The position that a roll selects, looking from `from` on: the first
/// whose cumulative weight exceeds `roll`, and the last position when none
/// does.
pub open spec fn picked_index(pool: Seq<(u128, u64)>, roll: int, from: int) -> int
    decreases pool.len() - from,
{
    if from + 1 >= pool.len() {
        pool.len() - 1
    } else if roll < weight_sum(pool, from + 1) {
        from
    } else {
        picked_index(pool, roll, from + 1)
    }
}

/// Whether `ids` lists `id`.
pub fn contains_id(ids: &[u128], id: u128) -> (found: bool)
    ensures
        found == ids@.contains(id),
{
    let mut i: usize = 0;
    while i < ids.len()
        invariant
            i <= ids.len(),
            forall|j: int| 0 <= j < i ==> ids@[j] != id,
        decreases ids.len() - i,
    {
        if ids[i] == id {
            return true;
        }
        i = i + 1;
    }
    false
}

/// The entries of `ids` that `banned` does not list.
pub fn without_ids(ids: &[u128], banned: &[u128]) -> (kept: Vec<u128>)
    ensures
        kept@ == unlisted(ids@, banned@),
{
    let mut kept: Vec<u128> = Vec::new();
    let mut i: usize = 0;
    let ghost unbanned = |id: u128| !banned@.contains(id);
    assert(ids@.take(0).filter(unbanned) =~= Seq::<u128>::empty());
    while i < ids.len()
        invariant
            i <= ids.len(),
            unbanned == (|id: u128| !banned@.contains(id)),
            kept@ == ids@.take(i as int).filter(unbanned),
        decreases ids.len() - i,
    {
        let id: u128 = ids[i];
        proof {
            assert(ids@.take(i + 1) =~= ids@.take(i as int).push(id));
            ids@.take(i as int).lemma_filter_push(id, unbanned);
        }
        if !contains_id(banned, id) {
            kept.push(id);
        }
        i = i + 1;
    }
    assert(ids@.take(ids@.len() as int) =~= ids@);
    kept
}

/// Adds up the weights of `pool`.
pub fn total_weight(pool: &Vec<(u128, u64)>) -> (total: u128)
    ensures
        total == weight_sum(pool@, pool@.len() as int),
{
    let mut total: u128 = 0;
    let mut i: usize = 0;
    while i < pool.len()
        invariant
            i <= pool.len(),
            total == weight_sum(pool@, i as int),
            total <= i * u64::MAX,
        decreases pool.len() - i,
    {
        assert((i + 1) * u64::MAX == i * u64::MAX + u64::MAX) by (nonlinear_arith);
        assert(i * u64::MAX <= 0xffff_ffff_ffff_ffff * 0xffff_ffff_ffff_ffff) by (nonlinear_arith)
            requires
                i <= 0xffff_ffff_ffff_ffff,
                u64::MAX == 0xffff_ffff_ffff_ffff,
        ;
        total = total + pool[i].1 as u128;
        i = i + 1;
    }
    total
}

/// The candidate that `roll` selects from `pool`: walking the pool in
/// order, the first whose cumulative weight exceeds the roll. The roll is a
/// whole number of millionths and stands for every draw from `roll` up to,
/// but not including, `roll + 1`; taking the weights off such a draw in
/// turn, that candidate is the first to leave nothing of it. So a candidate
/// is selected by as many of the rolls below the total as its weight counts.
/// A roll that no cumulative weight exceeds selects the last candidate. An
/// empty pool gives nothing.
pub fn pick_weighted(pool: &Vec<(u128, u64)>, roll: u128) -> (picked: Option<u128>)
    ensures
        pool@.len() == 0 <==> picked is None,
        pool@.len() > 0 ==> picked == Some(pool@[picked_index(pool@, roll as int, 0)].0),
{
    if pool.len() == 0 {
        return None;
    }
    let mut reached: u128 = 0;
    let mut i: usize = 0;
    while i + 1 < pool.len()
        invariant
            i < pool.len(),
            reached == weight_sum(pool@, i as int),
            reached <= i * u64::MAX,
            picked_index(pool@, roll as int, 0) == picked_index(pool@, roll as int, i as int),
        decreases pool.len() - i,
    {
        assert((i + 1) * u64::MAX == i * u64::MAX + u64::MAX) by (nonlinear_arith);
        assert(i * u64::MAX <= 0xffff_ffff_ffff_ffff * 0xffff_ffff_ffff_ffff) by (nonlinear_arith)
            requires
                i <= 0xffff_ffff_ffff_ffff,
                u64::MAX == 0xffff_ffff_ffff_ffff,
        ;
        reached = reached + pool[i].1 as u128;
        if roll < reached {
            return Some(pool[i].0);
        }
        i = i + 1;
    }
    Some(pool[i].0)
}

/// What is left after unlisting holds exactly the entries that were listed
/// and are not banned.
pub proof fn lemma_unlisted_contains(ids: Seq<u128>, banned: Seq<u128>, id: u128)
    ensures
        unlisted(ids, banned).contains(id) <==> ids.contains(id) && !banned.contains(id),
{
    let unbanned = |x: u128| !banned.contains(x);
    if unlisted(ids, banned).contains(id) {
        ids.lemma_filter_contains_rev(unbanned, id);
        let k = choose|k: int| 0 <= k < ids.filter(unbanned).len() && ids.filter(unbanned)[k] == id;
        ids.lemma_filter_pred(unbanned, k);
    }
    if ids.contains(id) && !banned.contains(id) {
        let k = choose|k: int| 0 <= k < ids.len() && ids[k] == id;
        ids.lemma_filter_contains(unbanned, k);
    }
}

/// Unlisting brings no entry in twice.
pub proof fn lemma_unlisted_no_duplicates(ids: Seq<u128>, banned: Seq<u128>)
    requires
        ids.no_duplicates(),
    ensures
        unlisted(ids, banned).no_duplicates(),
    decreases ids.len(),
{
    let unbanned = |x: u128| !banned.contains(x);
    if ids.len() > 0 {
        let init = ids.drop_last();
        let last = ids.last();
        lemma_unlisted_no_duplicates(init, banned);
        assert(ids =~= init.push(last));
        init.lemma_filter_push(last, unbanned);
        if !banned.contains(last) {
            let kept = unlisted(init, banned);
            assert forall|j: int| 0 <= j < kept.len() implies kept[j] != last by {
                assert(kept.contains(kept[j]));
                lemma_unlisted_contains(init, banned, kept[j]);
                let k = choose|k: int| 0 <= k < init.len() && init[k] == kept[j];
                assert(ids[k] == init[k]);
            }
        }
    } else {
        assert(unlisted(ids, banned) =~= Seq::<u128>::empty()) by {
            ids.lemma_filter_len(unbanned);
        }
    }
}

/// Unlisting takes no more entries off a list without repeats than are
/// banned.
pub proof fn lemma_unlisted_length(ids: Seq<u128>, banned: Seq<u128>)
    requires
        ids.no_duplicates(),
    ensures
        unlisted(ids, banned).len() + banned.len() >= ids.len(),
{
    broadcast use vstd::seq_lib::seq_to_set_is_finite;

    let kept = unlisted(ids, banned);
    lemma_unlisted_no_duplicates(ids, banned);
    kept.unique_seq_to_set();
    ids.unique_seq_to_set();
    banned.lemma_cardinality_of_set();
    assert(kept.to_set() =~= ids.to_set().difference(banned.to_set())) by {
        assert forall|id: u128|
            kept.to_set().contains(id) <==> ids.to_set().difference(banned.to_set()).contains(
                id,
            ) by {
            lemma_unlisted_contains(ids, banned, id);
        }
    }
    vstd::set_lib::lemma_set_difference_len(ids.to_set(), banned.to_set());
    vstd::set_lib::lemma_len_intersect(banned.to_set(), ids.to_set());
    assert(ids.to_set().intersect(banned.to_set()) =~= banned.to_set().intersect(ids.to_set()));
}

/// Unlisting one entry of a list without repeats leaves a list without
/// repeats that is shorter by one.
pub proof fn lemma_unlisted_without_one(ids: Seq<u128>, id: u128)
    requires
        ids.no_duplicates(),
        ids.contains(id),
    ensures
        unlisted(ids, seq![id]).no_duplicates(),
        unlisted(ids, seq![id]).len() == ids.len() - 1,
{
    broadcast use vstd::seq_lib::seq_to_set_is_finite;

    let banned = seq![id];
    let kept = unlisted(ids, banned);
    lemma_unlisted_no_duplicates(ids, banned);
    kept.unique_seq_to_set();
    ids.unique_seq_to_set();
    assert(kept.to_set() =~= ids.to_set().remove(id)) by {
        assert forall|x: u128| kept.to_set().contains(x) <==> ids.to_set().remove(id).contains(
            x,
        ) by {
            lemma_unlisted_contains(ids, banned, x);
            assert(banned[0] == id);
        }
    }
    assert(ids.to_set().contains(id));
}

/// A pool of one candidate yields that candidate on every roll, whatever
/// its weight.
pub proof fn lemma_single_candidate_always_picked(pool: Seq<(u128, u64)>, roll: int)
    requires
        pool.len() == 1,
    ensures
        picked_index(pool, roll, 0) == 0,
{
}

/// The position a roll selects lies in the pool, and a roll below the total
/// weight selects a candidate whose cumulative weight exceeds it while none
/// before does.
pub proof fn lemma_pick_follows_cumulative_weight(pool: Seq<(u128, u64)>, roll: int, from: int)
    requires
        pool.len() > 0,
        0 <= from < pool.len(),
        forall|n: int| 1 <= n <= from ==> weight_sum(pool, n) <= roll,
    ensures
        from <= picked_index(pool, roll, from) < pool.len(),
        forall|n: int| 1 <= n <= picked_index(pool, roll, from) ==> weight_sum(pool, n) <= roll,
        roll < weight_sum(pool, pool.len() as int) ==> roll < weight_sum(
            pool,
            picked_index(pool, roll, from) + 1,
        ),
    decreases pool.len() - from,
{
    if from + 1 >= pool.len() {
    } else if roll < weight_sum(pool, from + 1) {
    } else {
        lemma_pick_follows_cumulative_weight(pool, roll, from + 1);
    }
}

/// The identifiers that `behaviors` has an aggregate for, each once, in the
/// order the map yields them.
pub fn tracked_ids(behaviors: &HashMap<u128, TrackBehavior>) -> (ids: Vec<u128>)
    ensures
        ids@.no_duplicates(),
        ids@.to_set() == behaviors@.dom(),
        ids@.len() == behaviors@.dom().len(),
{
    let mut ids: Vec<u128> = Vec::new();
    let ghost keys = behaviors.keys().remaining();
    for id in iter: behaviors.keys()
        invariant
            iter.seq() == keys,
            ids@.len() == iter.index(),
            forall|j: int| 0 <= j < ids@.len() ==> ids@[j] == *keys[j],
    {
        ids.push(*id);
    }
    proof {
        assert(ids@ =~= keys.unref());
        assert forall|i: int, j: int| 0 <= i < j < ids@.len() implies ids@[i] != ids@[j] by {
            assert(keys[i] != keys[j]);
        }
    }
    ids
}

/// The aggregate `b` with its cached weight computed anew for `now`.
pub open spec fn reweighed(b: TrackBehaviorView, now: i64, decay_days: u64) -> TrackBehaviorView {
    TrackBehaviorView { weight: track_weight(b, now, decay_days) as nat, ..b }
}

/// Whether `after` holds the aggregates of `before`, each with its weight
/// computed anew for `now` and otherwise unchanged.
pub open spec fn all_reweighed(
    before: Map<u128, TrackBehavior>,
    after: Map<u128, TrackBehavior>,
    now: i64,
    decay_days: u64,
) -> bool {
    &&& after.dom() == before.dom()
    &&& forall|id: u128| #[trigger]
        after.contains_key(id) ==> after[id]@ == reweighed(before[id]@, now, decay_days)
}

/// Whether no entry of `ranking` is heavier than one before it.
pub open spec fn heaviest_first(ranking: Seq<(u128, u64)>) -> bool {
    forall|a: int, b: int| 0 <= a < b < ranking.len() ==> ranking[a].1 >= ranking[b].1
}

/// Whether `ranking` lists exactly the tracks that have an aggregate, each
/// once and with its weight at `now`, the heaviest first.
pub open spec fn is_ranking(
    ranking: Seq<(u128, u64)>,
    behaviors: Map<u128, TrackBehavior>,
    now: i64,
    decay_days: u64,
) -> bool {
    &&& heaviest_first(ranking)
    &&& ranking.len() == behaviors.dom().len()
    &&& forall|id: u128| pool_ids(ranking).contains(id) <==> behaviors.contains_key(id)
    &&& forall|k: int|
        0 <= k < ranking.len() ==> (#[trigger] ranking[k]).1 == candidate_weight(
            behaviors,
            ranking[k].0,
            now,
            decay_days,
        )
}

/// The candidates a selection draws from: those not played recently, or
/// all of them when every one was.
pub open spec fn selectable(available: Seq<u128>, recently_played: Seq<u128>) -> Seq<u128> {
    if unlisted(available, recently_played).len() > 0 {
        unlisted(available, recently_played)
    } else {
        available
    }
}

/// Picks tracks at random, favouring those with a higher weight.
pub struct ShuffleWeighting {
    calculator: WeightCalculator,
    rng: rand::rngs::ThreadRng,
}

impl ShuffleWeighting {
    /// The decay window, in days, of the weights used.
    pub closed spec fn decay_days(&self) -> u64 {
        self.calculator.decay_days()
    }

    /// A selector whose weights use the given decay window in days.
    pub fn new(decay_days: u64) -> (s: Self)
        ensures
            s.decay_days() == decay_days,
    {
        Self { calculator: WeightCalculator::new(decay_days), rng: rand::thread_rng() }
    }

    /// The weight of one candidate at the instant `now`.
    pub fn weigh(&self, id: u128, behaviors: &HashMap<u128, TrackBehavior>, now: i64) -> (w: u64)
        ensures
            w == candidate_weight(behaviors@, id, now, self.decay_days()),
            MIN_WEIGHT <= w <= MAX_WEIGHT,
    {
        match behaviors.get(&id) {
            Some(behavior) => self.calculator.calculate_weight(behavior, now),
            None => UNKNOWN_TRACK_WEIGHT,
        }
    }

    /// The candidates that were not played recently, each with its weight at
    /// the instant `now`.
    pub fn weigh_candidates(
        &self,
        available_tracks: &[u128],
        behaviors: &HashMap<u128, TrackBehavior>,
        recently_played: &[u128],
        now: i64,
    ) -> (pool: Vec<(u128, u64)>)
        ensures
            pool@ == weighted(
                unlisted(available_tracks@, recently_played@),
                behaviors@,
                now,
                self.decay_days(),
            ),
    {
        let fresh: Vec<u128> = without_ids(available_tracks, recently_played);
        let mut pool: Vec<(u128, u64)> = Vec::new();
        let mut i: usize = 0;
        while i < fresh.len()
            invariant
                i <= fresh.len(),
                pool@.len() == i,
                forall|j: int|
                    0 <= j < i ==> pool@[j] == (
                        fresh@[j],
                        candidate_weight(behaviors@, fresh@[j], now, self.decay_days()) as u64,
                    ),
            decreases fresh.len() - i,
        {
            let id: u128 = fresh[i];
            let w: u64 = self.weigh(id, behaviors, now);
            pool.push((id, w));
            i = i + 1;
        }
        assert(pool@ =~= weighted(fresh@, behaviors@, now, self.decay_days()));
        pool
    }

    /// Draws one candidate of `pool` with a chance proportional to its
    /// weight; with no weight at all in the pool, any of them.
    fn weighted_random_select(&mut self, pool: &Vec<(u128, u64)>) -> (picked: Option<u128>)
        ensures
            final(self).decay_days() == old(self).decay_days(),
            pool@.len() == 0 <==> picked is None,
            picked is Some ==> pool_ids(pool@).contains(picked->0),
    {
        let total: u128 = total_weight(pool);
        if total == 0 {
            let mut ids: Vec<u128> = Vec::new();
            let mut i: usize = 0;
            while i < pool.len()
                invariant
                    i <= pool.len(),
                    ids@ == pool_ids(pool@).take(i as int),
                decreases pool.len() - i,
            {
                ids.push(pool[i].0);
                assert(ids@ =~= pool_ids(pool@).take(i + 1));
                i = i + 1;
            }
            assert(ids@ =~= pool_ids(pool@));
            return choose_id(&mut self.rng, ids.as_slice());
        }
        let roll: u128 = draw_below(&mut self.rng, total);
        let picked = pick_weighted(pool, roll);
        proof {
            lemma_pick_follows_cumulative_weight(pool@, roll as int, 0);
            let k = picked_index(pool@, roll as int, 0);
            assert(pool_ids(pool@)[k] == pool@[k].0);
        }
        picked
    }

    /// Chooses the next track among `available_tracks` at the instant `now`.
    /// Tracks in `recently_played` are left out and the rest drawn by
    /// weight; when that leaves none, any available track is drawn, each with
    /// the same chance. Nothing is returned only when nothing is available.
    pub fn select_next_track_at(
        &mut self,
        available_tracks: &[u128],
        behaviors: &HashMap<u128, TrackBehavior>,
        recently_played: &[u128],
        now: i64,
    ) -> (next: Option<u128>)
        ensures
            final(self).decay_days() == old(self).decay_days(),
            available_tracks@.len() == 0 <==> next is None,
            next is Some ==> selectable(available_tracks@, recently_played@).contains(next->0),
            selectable(available_tracks@, recently_played@).len() == 1 ==> next == Some(
                selectable(available_tracks@, recently_played@)[0],
            ),
    {
        if available_tracks.len() == 0 {
            return None;
        }
        let pool: Vec<(u128, u64)> = self.weigh_candidates(
            available_tracks,
            behaviors,
            recently_played,
            now,
        );
        if pool.len() == 0 {
            return choose_id(&mut self.rng, available_tracks);
        }
        let next = self.weighted_random_select(&pool);
        assert(pool_ids(pool@) =~= unlisted(available_tracks@, recently_played@));
        next
    }

    /// Chooses the next track among `available_tracks` as
    /// [`ShuffleWeighting::select_next_track_at`] does, at the present
    /// instant.
    pub fn select_next_track(
        &mut self,
        available_tracks: &[u128],
        behaviors: &HashMap<u128, TrackBehavior>,
        recently_played: &[u128],
    ) -> (next: Option<u128>)
        ensures
            final(self).decay_days() == old(self).decay_days(),
            available_tracks@.len() == 0 <==> next is None,
            next is Some ==> selectable(available_tracks@, recently_played@).contains(next->0),
            selectable(available_tracks@, recently_played@).len() == 1 ==> next == Some(
                selectable(available_tracks@, recently_played@)[0],
            ),
    {
        let now: i64 = now_millis();
        self.select_next_track_at(available_tracks, behaviors, recently_played, now)
    }

    /// Computes the weight of every aggregate anew for the instant `now` and
    /// stores it in the aggregate. Nothing else changes.
    pub fn recalculate_all_weights_at(&self, behaviors: &mut HashMap<u128, TrackBehavior>, now: i64)
        ensures
            all_reweighed(old(behaviors)@, final(behaviors)@, now, self.decay_days()),
    {
        let ids: Vec<u128> = tracked_ids(behaviors);
        let ghost before = behaviors@;
        let mut i: usize = 0;
        while i < ids.len()
            invariant
                i <= ids.len(),
                ids@.no_duplicates(),
                ids@.to_set() == before.dom(),
                behaviors@.dom() == before.dom(),
                forall|j: int|
                    0 <= j < i ==> (#[trigger] behaviors@[ids@[j]])@ == reweighed(
                        before[ids@[j]]@,
                        now,
                        self.decay_days(),
                    ),
                forall|j: int| i <= j < ids@.len() ==> #[trigger] behaviors@[ids@[j]] == before[ids@[j]],
            decreases ids.len() - i,
        {
            let id: u128 = ids[i];
            assert(ids@.to_set().contains(ids@[i as int]));
            let ghost previous = behaviors@;
            match behaviors.remove(&id) {
                Some(b) => {
                    let mut behavior = b;
                    let weight: u64 = self.calculator.calculate_weight(&behavior, now);
                    behavior.weight = weight;
                    behaviors.insert(id, behavior);
                    assert(behaviors@.dom() =~= before.dom());
                },
                None => {},
            }
            i = i + 1;
        }
        assert forall|id: u128| #[trigger] behaviors@.contains_key(id) implies behaviors@[id]@
            == reweighed(before[id]@, now, self.decay_days()) by {
            assert(ids@.to_set().contains(id));
            let j = choose|j: int| 0 <= j < ids@.len() && ids@[j] == id;
            assert(behaviors@[ids@[j]]@ == reweighed(before[ids@[j]]@, now, self.decay_days()));
        }
    }

    /// Computes the weight of every aggregate anew, as
    /// [`ShuffleWeighting::recalculate_all_weights_at`] does, for the present
    /// instant.
    pub fn recalculate_all_weights(&self, behaviors: &mut HashMap<u128, TrackBehavior>)
        ensures
            final(behaviors)@.dom() == old(behaviors)@.dom(),
            exists|now: i64|
                all_reweighed(old(behaviors)@, final(behaviors)@, now, self.decay_days()),
    {
        let now: i64 = now_millis();
        self.recalculate_all_weights_at(behaviors, now);
    }

    /// Every track that has an aggregate, with its weight at the instant
    /// `now`, the heaviest first.
    pub fn get_tracks_by_weight_at(&self, behaviors: &HashMap<u128, TrackBehavior>, now: i64) -> (ranking:
        Vec<(u128, u64)>)
        ensures
            is_ranking(ranking@, behaviors@, now, self.decay_days()),
    {
        let ids: Vec<u128> = tracked_ids(behaviors);
        let mut ranking: Vec<(u128, u64)> = Vec::new();
        let mut i: usize = 0;
        while i < ids.len()
            invariant
                i <= ids.len(),
                ids@.no_duplicates(),
                ids@.to_set() == behaviors@.dom(),
                ids@.len() == behaviors@.dom().len(),
                ranking@.len() == i,
                heaviest_first(ranking@),
                forall|k: int|
                    0 <= k < ranking@.len() ==> (#[trigger] ranking@[k]).1 == candidate_weight(
                        behaviors@,
                        ranking@[k].0,
                        now,
                        self.decay_days(),
                    ),
                forall|k: int|
                    0 <= k < ranking@.len() ==> ids@.take(i as int).contains(
                        (#[trigger] ranking@[k]).0,
                    ),
                forall|j: int|
                    0 <= j < i ==> pool_ids(ranking@).contains(#[trigger] ids@[j]),
            decreases ids.len() - i,
        {
            let id: u128 = ids[i];
            let w: u64 = self.weigh(id, behaviors, now);
            let mut at: usize = 0;
            while at < ranking.len() && ranking[at].1 >= w
                invariant
                    at <= ranking@.len(),
                    forall|k: int| 0 <= k < at ==> (#[trigger] ranking@[k]).1 >= w,
                decreases ranking@.len() - at,
            {
                at = at + 1;
            }
            let ghost earlier = ranking@;
            ranking.insert(at, (id, w));
            proof {
                let later = ranking@;
                assert(later == earlier.insert(at as int, (id, w)));
                assert forall|a: int, b: int| 0 <= a < b < later.len() implies later[a].1
                    >= later[b].1 by {
                    let a0 = if a < at { a } else { a - 1 };
                    let b0 = if b < at { b } else { b - 1 };
                    if a != at && b != at {
                        assert(earlier[a0].1 >= earlier[b0].1);
                    } else if a == at {
                        assert(earlier[b0].1 <= earlier[at as int].1);
                    }
                }
                assert(ids@.take(i + 1) =~= ids@.take(i as int).push(id));
                assert forall|k: int| 0 <= k < later.len() implies ids@.take(i + 1).contains(
                    (#[trigger] later[k]).0,
                ) by {
                    if k == at {
                        assert(ids@.take(i + 1)[i as int] == id);
                    } else {
                        let k0 = if k < at { k } else { k - 1 };
                        assert(ids@.take(i as int).contains(earlier[k0].0));
                        let j = choose|j: int|
                            0 <= j < ids@.take(i as int).len() && ids@.take(i as int)[j]
                                == earlier[k0].0;
                        assert(ids@.take(i + 1)[j] == earlier[k0].0);
                    }
                }
                assert forall|j: int| 0 <= j < i + 1 implies pool_ids(later).contains(
                    #[trigger] ids@[j],
                ) by {
                    if j == i {
                        assert(pool_ids(later)[at as int] == id);
                    } else {
                        assert(pool_ids(earlier).contains(ids@[j]));
                        let k0 = choose|k0: int|
                            0 <= k0 < pool_ids(earlier).len() && pool_ids(earlier)[k0] == ids@[j];
                        let k = if k0 < at { k0 } else { k0 + 1 };
                        assert(pool_ids(later)[k] == ids@[j]);
                    }
                }
            }
            i = i + 1;
        }
        proof {
            assert(ids@.take(ids@.len() as int) =~= ids@);
            assert forall|id: u128| pool_ids(ranking@).contains(id) <==> behaviors@.contains_key(
                id,
            ) by {
                if pool_ids(ranking@).contains(id) {
                    let k = choose|k: int|
                        0 <= k < pool_ids(ranking@).len() && pool_ids(ranking@)[k] == id;
                    assert(ids@.contains(ranking@[k].0));
                    assert(ids@.to_set().contains(id));
                }
                if behaviors@.contains_key(id) {
                    assert(ids@.to_set().contains(id));
                    let j = choose|j: int| 0 <= j < ids@.len() && ids@[j] == id;
                    assert(pool_ids(ranking@).contains(ids@[j]));
                }
            }
        }
        ranking
    }

    /// Every track that has an aggregate, as
    /// [`ShuffleWeighting::get_tracks_by_weight_at`] ranks them, at the
    /// present instant.
    pub fn get_tracks_by_weight(&self, behaviors: &HashMap<u128, TrackBehavior>) -> (ranking: Vec<
        (u128, u64),
    >)
        ensures
            exists|now: i64| is_ranking(ranking@, behaviors@, now, self.decay_days()),
    {
        let now: i64 = now_millis();
        self.get_tracks_by_weight_at(behaviors, now)
    }

    /// Builds a playlist of up to `playlist_size` tracks by repeated
    /// selection. A selected track leaves the pool and joins the recently
    /// played, of which the latest `max(n / 4, 5)` are remembered, `n` being
    /// the number of tracks. When the pool runs out it is filled again with
    /// all tracks but the remembered ones. The playlist ends early only when
    /// that leaves the pool empty.
    ///
    /// Whatever is drawn, the playlist holds tracks of `all_tracks` only,
    /// and no entry is the same track as one of the `max(n / 4, 5)` entries
    /// before it: the remembered tracks are the latest, the oldest of them
    /// being forgotten first. Where `all_tracks` lists no track twice, no track comes a second time
    /// before every track has come once, and the playlist has the full
    /// length asked for unless there are five tracks or fewer, which give a
    /// playlist of each of them once at most.
    pub fn generate_shuffled_playlist(
        &mut self,
        all_tracks: &[u128],
        behaviors: &HashMap<u128, TrackBehavior>,
        playlist_size: usize,
    ) -> (playlist: Vec<u128>)
        ensures
            final(self).decay_days() == old(self).decay_days(),
            playlist@.len() <= playlist_size,
            forall|i: int| 0 <= i < playlist@.len() ==> all_tracks@.contains(playlist@[i]),
            all_tracks@.len() > 0 && playlist_size > 0 ==> playlist@.len() > 0,
            no_recent_repeats(playlist@, recent_limit(all_tracks@.len() as int)),
            all_tracks@.no_duplicates() ==> {
                &&& playlist@.len() == playlist_length(
                    all_tracks@.len() as int,
                    playlist_size as int,
                )
                &&& repeats_deferred(playlist@, all_tracks@.len() as int)
            },
    {
        let count: usize = all_tracks.len();
        let remembered: usize = recent_capacity(count);
        let mut playlist: Vec<u128> = Vec::new();
        let mut available: Vec<u128> = slice_to_vec(all_tracks);
        let mut recently_played: Vec<u128> = Vec::new();
        let ghost distinct = all_tracks@.no_duplicates();
        let ghost mut first_round = true;
        while playlist.len() < playlist_size
            invariant
                self.decay_days() == old(self).decay_days(),
                count == all_tracks@.len(),
                distinct == all_tracks@.no_duplicates(),
                remembered == recent_limit(count as int),
                playlist@.len() <= playlist_size,
                recently_played@.len() <= remembered,
                recently_played@ == latest(playlist@, remembered as int),
                no_recent_repeats(playlist@, remembered as int),
                forall|i: int|
                    0 <= i < available@.len() ==> !recently_played@.contains(
                        #[trigger] available@[i],
                    ),
                forall|i: int| 0 <= i < playlist@.len() ==> all_tracks@.contains(playlist@[i]),
                forall|i: int| 0 <= i < available@.len() ==> all_tracks@.contains(available@[i]),
                playlist@.len() == 0 ==> available@ == all_tracks@,
                count == 0 ==> playlist@.len() == 0,
                distinct ==> repeats_deferred(playlist@, count as int),
                distinct && first_round ==> {
                    &&& available@.no_duplicates()
                    &&& playlist@.no_duplicates()
                    &&& available@.len() + playlist@.len() == count
                    &&& forall|id: u128|
                        all_tracks@.contains(id) ==> (available@.contains(id)
                            <==> !playlist@.contains(id))
                },
                distinct && !first_round ==> playlist@.len() >= count,
                distinct && count > 5 ==> available@.len() > 0 || playlist@.len() >= playlist_size,
                distinct && 0 < count <= 5 ==> {
                    ||| first_round && recently_played@ == playlist@
                    ||| !first_round && available@.len() == 0 && playlist@.len() == count
                },
            decreases playlist_size - playlist.len(),
        {
            let next = self.select_next_track(
                available.as_slice(),
                behaviors,
                recently_played.as_slice(),
            );
            match next {
                None => {
                    return playlist;
                },
                Some(selected) => {
                    let ghost pool = available@;
                    let ghost before = playlist@;
                    let ghost remembered_before = recently_played@;
                    proof {
                        lemma_unlisted_is_part(pool, recently_played@);
                        assert(pool.contains(selected));
                        let k = choose|k: int| 0 <= k < pool.len() && pool[k] == selected;
                        assert(!remembered_before.contains(pool[k]));
                        lemma_pick_keeps_recent_apart(
                            before,
                            remembered_before,
                            selected,
                            remembered as int,
                        );
                    }
                    playlist.push(selected);
                    let mut chosen: Vec<u128> = Vec::new();
                    chosen.push(selected);
                    let rest: Vec<u128> = without_ids(available.as_slice(), chosen.as_slice());
                    proof {
                        lemma_unlisted_is_part(pool, chosen@);
                        assert(chosen@ =~= seq![selected]);
                        if distinct && first_round {
                            lemma_unlisted_without_one(pool, selected);
                            assert(!before.contains(selected));
                            assert(playlist@.no_duplicates()) by {
                                assert forall|i: int, j: int|
                                    0 <= i < j < playlist@.len() implies playlist@[i]
                                    != playlist@[j] by {
                                    if j == before.len() {
                                        assert(before.contains(before[i]));
                                    }
                                }
                            }
                            assert forall|id: u128| all_tracks@.contains(id) implies (
                            rest@.contains(id) <==> !playlist@.contains(id)) by {
                                lemma_unlisted_contains(pool, chosen@, id);
                                assert(chosen@[0] == selected);
                                assert(chosen@.contains(id) <==> id == selected);
                                assert(playlist@ == before.push(selected));
                                if id == selected {
                                    assert(playlist@[before.len() as int] == selected);
                                    assert(playlist@.contains(id));
                                } else {
                                    if before.contains(id) {
                                        let k = choose|k: int|
                                            0 <= k < before.len() && before[k] == id;
                                        assert(playlist@[k] == id);
                                    }
                                    if playlist@.contains(id) {
                                        let k = choose|k: int|
                                            0 <= k < playlist@.len() && playlist@[k] == id;
                                        assert(k < before.len());
                                        assert(before[k] == id);
                                    }
                                    assert(playlist@.contains(id) <==> before.contains(id));
                                    assert(pool.contains(id) <==> !before.contains(id));
                                }
                            }
                        }
                        if distinct && !first_round {
                            assert(repeats_deferred(playlist@, count as int));
                        }
                    }
                    available = rest;
                    recently_played.push(selected);
                    if recently_played.len() > remembered {
                        recently_played.remove(0);
                    }
                    proof {
                        assert(recently_played@ =~= latest(playlist@, remembered as int));
                        assert forall|i: int| 0 <= i < available@.len() implies
                            !recently_played@.contains(#[trigger] available@[i]) by {
                            let id = available@[i];
                            assert(pool.contains(id) && !chosen@.contains(id));
                            assert(chosen@[0] == selected);
                            let at = choose|at: int| 0 <= at < pool.len() && pool[at] == id;
                            assert(!remembered_before.contains(pool[at]));
                            if recently_played@.contains(id) {
                                let r = choose|r: int|
                                    0 <= r < recently_played@.len() && recently_played@[r] == id;
                                let whole = remembered_before.push(selected);
                                let shift = whole.len() - recently_played@.len();
                                assert(whole[r + shift] == id);
                                if r + shift < remembered_before.len() {
                                    assert(remembered_before[r + shift] == id);
                                }
                            }
                        }
                    }
                    if available.len() == 0 && playlist.len() < playlist_size {
                        available = without_ids(all_tracks, recently_played.as_slice());
                        proof {
                            lemma_unlisted_is_part(all_tracks@, recently_played@);
                            if distinct {
                                lemma_unlisted_length(all_tracks@, recently_played@);
                                if first_round && 0 < count <= 5 {
                                    assert(recently_played@ =~= playlist@);
                                    if available@.len() > 0 {
                                        let id = available@[0];
                                        assert(available@.contains(id));
                                        lemma_unlisted_contains(
                                            all_tracks@,
                                            recently_played@,
                                            id,
                                        );
                                        assert(playlist@.contains(id));
                                        assert(recently_played@.contains(id));
                                    }
                                }
                            }
                            first_round = false;
                        }
                    }
                },
            }
        }
        playlist
    }
}

/// The latest `limit` entries of `playlist`, or all of it when it has
/// fewer, in their order.
pub open spec fn latest(playlist: Seq<u128>, limit: int) -> Seq<u128> {
    if playlist.len() <= limit {
        playlist
    } else {
        playlist.subrange(playlist.len() - limit, playlist.len() as int)
    }
}

/// Whether no entry of `playlist` is the same track as one of the `limit`
/// entries before it.
pub open spec fn no_recent_repeats(playlist: Seq<u128>, limit: int) -> bool {
    forall|i: int, j: int|
        0 <= i < j < playlist.len() && j - i <= limit ==> playlist[i] != playlist[j]
}

/// A track that is not among the latest entries of a playlist can follow
/// them without coming again too soon.
pub proof fn lemma_pick_keeps_recent_apart(
    playlist: Seq<u128>,
    recently_played: Seq<u128>,
    selected: u128,
    limit: int,
)
    requires
        recently_played == latest(playlist, limit),
        !recently_played.contains(selected),
        no_recent_repeats(playlist, limit),
    ensures
        no_recent_repeats(playlist.push(selected), limit),
{
    let longer = playlist.push(selected);
    assert forall|i: int, j: int|
        0 <= i < j < longer.len() && j - i <= limit implies longer[i] != longer[j] by {
        if j == playlist.len() {
            let first = playlist.len() - recently_played.len();
            assert(recently_played[i - first] == playlist[i]);
            assert(recently_played.contains(playlist[i]));
        }
    }
}

/// How long a playlist of `playlist_size` tracks out of `track_count`
/// distinct ones comes out: as long as asked for where there are more than
/// five tracks; with five or fewer, no longer than there are tracks.
pub open spec fn playlist_length(track_count: int, playlist_size: int) -> int {
    if track_count > 5 || playlist_size < track_count {
        playlist_size
    } else {
        track_count
    }
}

/// Whether no track comes twice among the first `track_count` entries of
/// `playlist`.
pub open spec fn repeats_deferred(playlist: Seq<u128>, track_count: int) -> bool {
    forall|i: int, j: int|
        0 <= i < j < playlist.len() && j < track_count ==> playlist[i] != playlist[j]
}

/// How many recently played tracks a playlist of `track_count` tracks
/// remembers: a quarter of them, and at least five.
pub open spec fn recent_limit(track_count: int) -> int {
    if track_count / 4 > 5 {
        track_count / 4
    } else {
        5
    }
}

/// Computes [`recent_limit`].
pub fn recent_capacity(track_count: usize) -> (limit: usize)
    ensures
        limit == recent_limit(track_count as int),
{
    if track_count / 4 > 5 {
        track_count / 4
    } else {
        5
    }
}

/// Every entry that is left after unlisting was an entry before.
pub proof fn lemma_unlisted_is_part(ids: Seq<u128>, banned: Seq<u128>)
    ensures
        forall|i: int|
            0 <= i < unlisted(ids, banned).len() ==> ids.contains(
                #[trigger] unlisted(ids, banned)[i],
            ) && !banned.contains(unlisted(ids, banned)[i]),
        unlisted(ids, banned).len() <= ids.len(),
{
    let unbanned = |id: u128| !banned.contains(id);
    let kept = ids.filter(unbanned);
    ids.lemma_filter_len(unbanned);
    assert forall|i: int| 0 <= i < kept.len() implies ids.contains(#[trigger] kept[i])
        && !banned.contains(kept[i]) by {
        ids.lemma_filter_pred(unbanned, i);
        assert(kept.contains(kept[i]));
        ids.lemma_filter_contains_rev(unbanned, kept[i]);
    }
}

} // verus!
