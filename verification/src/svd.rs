//! The recommendation engine: item vectors, taste profiles, scores and
//! rankings.

use crate::genres::{genre_label, is_label, label, DIMENSIONS};
use crate::order::{
    is_stable_descending, keys_view, lemma_sorted_keys_keep_order, positions_view,
    stable_descending, stable_descending_order,
};
use crate::profile::{weights_view, Profile, ProfileView, MAX_TOTAL_WEIGHT};
use crate::text::matches_ignoring_case;
use crate::video::{strings_view, videos_view, Video, VideoView};
use vstd::prelude::*;

verus! {

/// Weight base of an item whose rating is unknown: 5.0 points, in tenths.
pub const DEFAULT_RATING: u32 = 50;

/// One of the tags equals the label at position `i`, up to ASCII case.
pub open spec fn has_genre(tags: Seq<Seq<char>>, i: int) -> bool {
    exists|t: int| 0 <= t < tags.len() && matches_ignoring_case(#[trigger] tags[t], genre_label(i))
}

/// The multi-hot vector of an item with the given tags: entry `i` is 1 when
/// the item carries genre `i` and 0 when it does not.
pub open spec fn item_vector(tags: Seq<Seq<char>>) -> Seq<nat> {
    Seq::new(DIMENSIONS as nat, |i: int| if has_genre(tags, i) { 1nat } else { 0nat })
}

/// Feature vectors as natural numbers.
pub open spec fn vector_view(vector: Seq<u8>) -> Seq<nat> {
    vector.map_values(|x: u8| x as nat)
}

/// The rating an item is weighted by: its own when it has one, the default
/// otherwise.
pub open spec fn base_weight(rating: nat) -> nat {
    if rating > 0 {
        rating
    } else {
        DEFAULT_RATING as nat
    }
}

/// Boost of the item at position `p` of the history, newest first: the three
/// newest count five, three and two times, all others once.
pub open spec fn recency_multiplier(p: int) -> nat {
    if p == 0 {
        5
    } else if p == 1 {
        3
    } else if p == 2 {
        2
    } else {
        1
    }
}

/// The instants at which the items of a history were saved, as ordering
/// keys.
pub open spec fn recency_keys(history: Seq<VideoView>) -> Seq<int> {
    history.map_values(|v: VideoView| v.saved_at.order_key())
}

/// The positions of a history from the most recently saved item to the
/// oldest; items saved at the same instant keep their order.
pub open spec fn recency_order(history: Seq<VideoView>) -> Seq<int> {
    stable_descending(recency_keys(history))
}

/// Weight of the item that stands at position `p` of `order`.
pub open spec fn item_weight(history: Seq<VideoView>, order: Seq<int>, p: int) -> nat {
    base_weight(history[order[p]].rating) * recency_multiplier(p)
}

/// Sum of the weights of the first `upto` items of `order`.
pub open spec fn total_weight(history: Seq<VideoView>, order: Seq<int>, upto: int) -> nat
    decreases upto,
{
    if upto <= 0 {
        0
    } else {
        total_weight(history, order, upto - 1) + item_weight(history, order, upto - 1)
    }
}

/// Entry `k` of the weighted sum of the vectors of the first `upto` items
/// of `order`.
pub open spec fn weighted_sum(history: Seq<VideoView>, order: Seq<int>, k: int, upto: int) -> nat
    decreases upto,
{
    if upto <= 0 {
        0
    } else {
        weighted_sum(history, order, k, upto - 1) + item_weight(history, order, upto - 1)
            * item_vector(history[order[upto - 1]].genres)[k]
    }
}

/// The taste profile of a history: the weighted average of the vectors of
/// its items, each weighted by its rating and its recency.
pub open spec fn profile_of(history: Seq<VideoView>) -> ProfileView {
    let order = recency_order(history);
    ProfileView {
        weighted: Seq::new(
            DIMENSIONS as nat,
            |k: int| weighted_sum(history, order, k, history.len() as int),
        ),
        total: total_weight(history, order, history.len() as int),
    }
}

/// Sum of the products of the first `upto` entries of two vectors.
pub open spec fn dot(a: Seq<nat>, b: Seq<nat>, upto: int) -> nat
    decreases upto,
{
    if upto <= 0 {
        0
    } else {
        dot(a, b, upto - 1) + a[upto - 1] * b[upto - 1]
    }
}

/// How well an item with the given tags matches a profile: the dot product
/// of the profile's numerators with the item's vector. Divided by the
/// profile's denominator it is the dot product of the two vectors proper.
pub open spec fn match_score(profile: ProfileView, tags: Seq<Seq<char>>) -> nat {
    dot(profile.weighted, item_vector(tags), DIMENSIONS as int)
}

/// Entry `i` is the largest of the vector, and the first that large.
pub open spec fn is_top(weighted: Seq<nat>, i: int) -> bool {
    &&& 0 <= i < weighted.len()
    &&& forall|j: int| 0 <= j < weighted.len() ==> #[trigger] weighted[j] <= weighted[i]
    &&& forall|j: int| 0 <= j < i ==> #[trigger] weighted[j] < weighted[i]
}

/// The label shown for a profile without a dominant genre.
pub open spec fn fallback_genre() -> Seq<char> {
    "Trending"@
}

/// At most one entry is the first largest of a vector.
pub proof fn lemma_top_unique(weighted: Seq<nat>, i: int, j: int)
    requires
        is_top(weighted, i),
        is_top(weighted, j),
    ensures
        i == j,
{
    if i < j {
        assert(weighted[i] < weighted[j]);
    } else if j < i {
        assert(weighted[j] < weighted[i]);
    }
}

/// The label of the dominant genre of a profile: that of its first largest
/// entry, or the fallback when no entry is above zero.
pub open spec fn top_genre(profile: ProfileView) -> Seq<char> {
    if profile.is_zero() {
        fallback_genre()
    } else {
        genre_label(choose|i: int| is_top(profile.weighted, i))
    }
}

/// The positions of the candidates whose id is not excluded, in input
/// order.
pub open spec fn kept_positions(candidates: Seq<VideoView>, exclude: Seq<Seq<char>>) -> Seq<int> {
    Seq::new(candidates.len(), |i: int| i).filter(
        |i: int| !exclude.contains(candidates[i].video_id),
    )
}

/// The scores of the candidates at the given positions.
pub open spec fn candidate_scores(
    candidates: Seq<VideoView>,
    kept: Seq<int>,
    profile: ProfileView,
) -> Seq<int> {
    kept.map_values(|i: int| match_score(profile, candidates[i].genres) as int)
}

/// The positions of the candidates that are not excluded, best match first;
/// candidates with equal scores keep their input order.
pub open spec fn ranking_positions(
    candidates: Seq<VideoView>,
    profile: ProfileView,
    exclude: Seq<Seq<char>>,
) -> Seq<int> {
    let kept = kept_positions(candidates, exclude);
    stable_descending(candidate_scores(candidates, kept, profile)).map_values(|p: int| kept[p])
}

/// The candidates that are not excluded, best match first.
pub open spec fn ranking(
    candidates: Seq<VideoView>,
    profile: ProfileView,
    exclude: Seq<Seq<char>>,
) -> Seq<VideoView> {
    ranking_positions(candidates, profile, exclude).map_values(|i: int| candidates[i])
}

/// `positions` ranks `candidates`: it lists exactly the positions whose id
/// is not excluded, higher scores first and equal scores in input order.
pub open spec fn is_ranking(
    candidates: Seq<VideoView>,
    profile: ProfileView,
    exclude: Seq<Seq<char>>,
    positions: Seq<int>,
) -> bool {
    &&& forall|k: int|
        0 <= k < positions.len() ==> 0 <= #[trigger] positions[k] < candidates.len()
            && !exclude.contains(candidates[positions[k]].video_id)
    &&& forall|i: int|
        0 <= i < candidates.len() && !exclude.contains(candidates[i].video_id)
            ==> #[trigger] positions.contains(i)
    &&& forall|k: int, l: int|
        0 <= k < l < positions.len() ==> {
            let first = match_score(profile, candidates[#[trigger] positions[k]].genres);
            let second = match_score(profile, candidates[#[trigger] positions[l]].genres);
            first > second || (first == second && positions[k] < positions[l])
        }
}

/// A history that already runs from newest to oldest is taken as it
/// stands: position `p` of the recency order is position `p` of the
/// history.
pub proof fn lemma_newest_first_history(history: Seq<VideoView>)
    requires
        forall|i: int, j: int|
            0 <= i < j < history.len() ==> history[i].saved_at.order_key()
                >= history[j].saved_at.order_key(),
    ensures
        recency_order(history) == Seq::new(history.len(), |p: int| p),
{
    lemma_sorted_keys_keep_order(recency_keys(history));
}

/// The profile of a single item is that item's own vector: every entry of
/// the profile, as a fraction over the total weight, is exactly the entry of
/// the item's multi-hot vector.
pub proof fn lemma_single_item_profile(item: VideoView)
    ensures
        profile_of(seq![item]).total == 5 * base_weight(item.rating),
        profile_of(seq![item]).total > 0,
        forall|k: int|
            0 <= k < DIMENSIONS ==> #[trigger] profile_of(seq![item]).weighted[k] == profile_of(
                seq![item],
            ).total * item_vector(item.genres)[k],
{
    let history = seq![item];
    lemma_newest_first_history(history);
    let order = recency_order(history);
    assert(total_weight(history, order, 0) == 0);
    assert(item_weight(history, order, 0) == base_weight(item.rating) * 5);
    assert(total_weight(history, order, 1) == 5 * base_weight(item.rating));
    assert forall|k: int| 0 <= k < DIMENSIONS implies #[trigger] profile_of(history).weighted[k]
        == profile_of(history).total * item_vector(item.genres)[k] by {
        assert(weighted_sum(history, order, k, 0) == 0);
        assert(weighted_sum(history, order, k, 1) == item_weight(history, order, 0) * item_vector(
            item.genres,
        )[k]);
    }
}

/// A weighted sum of multi-hot vectors stays within the sum of the weights.
proof fn lemma_sum_within_total(history: Seq<VideoView>, order: Seq<int>, k: int, upto: int)
    requires
        0 <= k < DIMENSIONS,
    ensures
        weighted_sum(history, order, k, upto) <= total_weight(history, order, upto),
    decreases upto,
{
    if upto > 0 {
        lemma_sum_within_total(history, order, k, upto - 1);
        let weight = item_weight(history, order, upto - 1);
        let entry = item_vector(history[order[upto - 1]].genres)[k];
        assert(weight * entry <= weight) by (nonlinear_arith)
            requires
                entry <= 1,
        ;
    }
}

/// No entry of a profile exceeds the total weight: as fractions, the
/// entries lie between 0 and 1, and all of them are zero when the total is.
pub proof fn lemma_profile_entries_bounded(history: Seq<VideoView>)
    ensures
        profile_of(history).weighted.len() == DIMENSIONS,
        forall|k: int|
            0 <= k < DIMENSIONS ==> #[trigger] profile_of(history).weighted[k] <= profile_of(
                history,
            ).total,
        profile_of(history).total == 0 ==> profile_of(history).is_zero(),
{
    assert forall|k: int| 0 <= k < DIMENSIONS implies #[trigger] profile_of(history).weighted[k]
        <= profile_of(history).total by {
        lemma_sum_within_total(history, recency_order(history), k, history.len() as int);
    }
}

/// The engine. It has no state: every function works from its arguments
/// alone.
pub struct SVD;

impl SVD {
    /// The multi-hot genre vector of an item.
    pub fn vectorise(video: &Video) -> (vector: Vec<u8>)
        ensures
            vector_view(vector@) == item_vector(video@.genres),
            vector@.len() == DIMENSIONS,
            forall|i: int|
                0 <= i < DIMENSIONS ==> #[trigger] vector@[i] == (if has_genre(video@.genres, i) {
                    1u8
                } else {
                    0u8
                }),
    {
        let mut vector: Vec<u8> = Vec::new();
        let mut i: usize = 0;
        while i < DIMENSIONS
            invariant
                i <= DIMENSIONS,
                vector@.len() == i,
                forall|j: int|
                    0 <= j < i ==> #[trigger] vector@[j] == (if has_genre(video@.genres, j) {
                        1u8
                    } else {
                        0u8
                    }),
            decreases DIMENSIONS - i,
        {
            let found = carries_genre(&video.genres, i);
            vector.push(if found { 1 } else { 0 });
            i += 1;
        }
        vector
    }

    /// The taste profile of a viewer, from the items they saved. The items
    /// may come in any order: they are put newest first before the recency
    /// boosts are handed out.
    pub fn user_vector(history: &[Video]) -> (profile: Profile)
        ensures
            profile@ == profile_of(videos_view(history@)),
            profile@.well_formed(),
            history@.len() == 0 ==> profile@ == ProfileView::zero(),
            history@.len() > 0 ==> profile@.total > 0,
    {
        let ghost h = videos_view(history@);
        let n = history.len();
        let mut keys: Vec<i128> = Vec::new();
        let mut i: usize = 0;
        while i < n
            invariant
                i <= n,
                n == history@.len(),
                h == videos_view(history@),
                keys@.len() == i,
                forall|j: int| 0 <= j < i ==> keys@[j] == #[trigger] recency_keys(h)[j],
            decreases n - i,
        {
            keys.push(history[i].saved_at.key());
            i += 1;
        }
        assert(keys_view(keys@) =~= recency_keys(h));
        let order = stable_descending_order(&keys);
        let ghost newest_first = positions_view(order@);

        let mut weighted: Vec<u128> = zero_weights();
        let mut total: u128 = 0;
        let mut p: usize = 0;
        while p < n
            invariant
                p <= n,
                n == history@.len(),
                h == videos_view(history@),
                newest_first == positions_view(order@),
                is_stable_descending(recency_keys(h), newest_first),
                weighted@.len() == DIMENSIONS,
                total == total_weight(h, newest_first, p as int),
                total <= p * MAX_ITEM_WEIGHT,
                p > 0 ==> total > 0,
                forall|k: int|
                    0 <= k < DIMENSIONS ==> #[trigger] weighted@[k] == weighted_sum(
                        h,
                        newest_first,
                        k,
                        p as int,
                    ),
                forall|k: int| 0 <= k < DIMENSIONS ==> #[trigger] weighted@[k] <= total,
            decreases n - p,
        {
            assert(newest_first[p as int] == order@[p as int]);
            let video = &history[order[p]];
            let weight = boosted(rating_weight(video.rating), p);
            let vector = Self::vectorise(video);
            let ghost before = weighted@;
            let ghost total_before = total;
            total = total + weight;
            let mut k: usize = 0;
            while k < DIMENSIONS
                invariant
                    k <= DIMENSIONS,
                    p < n,
                    weighted@.len() == DIMENSIONS,
                    before.len() == DIMENSIONS,
                    vector@.len() == DIMENSIONS,
                    total == total_before + weight,
                    total_before <= p * MAX_ITEM_WEIGHT,
                    weight <= MAX_ITEM_WEIGHT,
                    forall|j: int| 0 <= j < DIMENSIONS ==> #[trigger] before[j] <= total_before,
                    forall|j: int| k <= j < DIMENSIONS ==> #[trigger] weighted@[j] == before[j],
                    forall|j: int|
                        0 <= j < k ==> #[trigger] weighted@[j] == before[j] + (if vector@[j] == 1 {
                            weight
                        } else {
                            0
                        }),
                decreases DIMENSIONS - k,
            {
                if vector[k] == 1 {
                    let raised = weighted[k] + weight;
                    weighted.set(k, raised);
                }
                k += 1;
            }
            assert forall|j: int| 0 <= j < DIMENSIONS implies #[trigger] weighted@[j]
                == weighted_sum(h, newest_first, j, p + 1) by {
                assert(weight * 0 == 0);
            }
            p += 1;
        }
        let profile = Profile::assemble(weighted, total);
        assert(profile@.weighted =~= profile_of(h).weighted);
        if n == 0 {
            assert(profile@.weighted =~= ProfileView::zero().weighted);
        }
        profile
    }

    /// The match score of an item against a profile, as the numerator of a
    /// fraction over `profile.total()`.
    pub fn predict_match(profile: &Profile, video: &Video) -> (score: u128)
        ensures
            score == match_score(profile@, video@.genres),
            score <= DIMENSIONS * profile@.total,
            score <= DIMENSIONS * MAX_TOTAL_WEIGHT,
    {
        let weighted = profile.numerators();
        let vector = Self::vectorise(video);
        let ghost a = profile@.weighted;
        let ghost b = item_vector(video@.genres);
        let mut score: u128 = 0;
        let mut i: usize = 0;
        while i < DIMENSIONS
            invariant
                i <= DIMENSIONS,
                a == weights_view(weighted@),
                a == profile@.weighted,
                b == vector_view(vector@),
                b == item_vector(video@.genres),
                profile@.well_formed(),
                vector@.len() == DIMENSIONS,
                score == dot(a, b, i as int),
                score <= i * profile@.total,
            decreases DIMENSIONS - i,
        {
            assert(a[i as int] * 1 == a[i as int]);
            assert(a[i as int] * 0 == 0);
            assert((i + 1) * profile@.total == i * profile@.total + profile@.total)
                by (nonlinear_arith);
            assert(i * profile@.total <= 18 * MAX_TOTAL_WEIGHT) by (nonlinear_arith)
                requires
                    i <= 18,
                    profile@.total <= MAX_TOTAL_WEIGHT,
            ;
            if vector[i] == 1 {
                score = score + weighted[i];
            }
            i += 1;
        }
        score
    }

    /// Position of the viewer's dominant genre: the first largest entry of
    /// the profile, or `None` when every entry is zero.
    pub fn top_index(profile: &Profile) -> (top: Option<usize>)
        ensures
            profile@.well_formed(),
            match top {
                Some(i) => is_top(profile@.weighted, i as int) && profile@.weighted[i as int] > 0,
                None => profile@.is_zero(),
            },
    {
        let weighted = profile.numerators();
        let ghost a = profile@.weighted;
        let mut best: usize = 0;
        let mut i: usize = 1;
        while i < DIMENSIONS
            invariant
                1 <= i <= DIMENSIONS,
                best < i,
                a == weights_view(weighted@),
                a.len() == DIMENSIONS,
                forall|j: int| 0 <= j < i ==> #[trigger] a[j] <= a[best as int],
                forall|j: int| 0 <= j < best ==> #[trigger] a[j] < a[best as int],
            decreases DIMENSIONS - i,
        {
            if weighted[i] > weighted[best] {
                best = i;
            }
            i += 1;
        }
        if weighted[best] > 0 {
            Some(best)
        } else {
            None
        }
    }

    /// The label of the viewer's dominant genre, or `"Trending"` when the
    /// profile has no entry above zero.
    pub fn get_top_genre(profile: &Profile) -> (genre: String)
        ensures
            genre@ == top_genre(profile@),
            profile@.is_zero() ==> genre@ == fallback_genre(),
            !profile@.is_zero() ==> exists|i: int|
                is_top(profile@.weighted, i) && genre@ == genre_label(i),
    {
        match Self::top_index(profile) {
            Some(i) => {
                assert(!profile@.is_zero());
                match label(i) {
                    Some(name) => {
                        let genre = name.to_owned();
                        assert(is_top(profile@.weighted, i as int) && genre@ == genre_label(
                            i as int,
                        ));
                        proof {
                            let chosen = choose|j: int| is_top(profile@.weighted, j);
                            lemma_top_unique(profile@.weighted, i as int, chosen);
                        }
                        genre
                    },
                    None => unreached(),
                }
            },
            None => "Trending".to_owned(),
        }
    }

    /// The order in which to show `candidates` to the viewer, as positions
    /// into the list: candidates whose id is in `exclude_ids` are left out,
    /// the rest come best match first, and candidates that match equally
    /// well keep their input order.
    pub fn rank_positions(candidates: &[Video], profile: &Profile, exclude_ids: &[String]) -> (positions: Vec<usize>)
        ensures
            positions_view(positions@) == ranking_positions(
                videos_view(candidates@),
                profile@,
                strings_view(exclude_ids@),
            ),
            is_ranking(
                videos_view(candidates@),
                profile@,
                strings_view(exclude_ids@),
                positions_view(positions@),
            ),
    {
        let ghost c = videos_view(candidates@);
        let ghost exclude = strings_view(exclude_ids@);
        let ghost all = Seq::new(c.len(), |i: int| i);
        let ghost wanted = |i: int| !exclude.contains(c[i].video_id);
        let n = candidates.len();
        let mut kept: Vec<usize> = Vec::new();
        let mut keys: Vec<i128> = Vec::new();
        let mut i: usize = 0;
        proof {
            reveal(Seq::filter);
        }
        while i < n
            invariant
                i <= n,
                n == candidates@.len(),
                c == videos_view(candidates@),
                exclude == strings_view(exclude_ids@),
                all == Seq::new(c.len(), |i: int| i),
                wanted == |i: int| !exclude.contains(c[i].video_id),
                positions_view(kept@) == all.take(i as int).filter(wanted),
                keys@.len() == kept@.len(),
                forall|k: int| 0 <= k < kept@.len() ==> #[trigger] kept@[k] < i && wanted(kept@[k] as int),
                forall|k: int, l: int| 0 <= k < l < kept@.len() ==> #[trigger] kept@[k] < #[trigger] kept@[l],
                forall|j: int| 0 <= j < i && wanted(j) ==> #[trigger] positions_view(kept@).contains(j),
                forall|k: int|
                    0 <= k < kept@.len() ==> #[trigger] keys@[k] == match_score(
                        profile@,
                        c[kept@[k] as int].genres,
                    ),
            decreases n - i,
        {
            let ghost before = positions_view(kept@);
            proof {
                assert(all.take(i as int + 1).drop_last() =~= all.take(i as int));
                reveal(Seq::filter);
            }
            if !is_excluded(&candidates[i].video_id, exclude_ids) {
                let score = Self::predict_match(profile, &candidates[i]);
                kept.push(i);
                keys.push(score as i128);
                proof {
                    assert forall|j: int| 0 <= j < i + 1 && wanted(j) implies #[trigger] positions_view(
                        kept@,
                    ).contains(j) by {
                        if j < i {
                            assert(before.contains(j));
                            let k = choose|k: int| 0 <= k < before.len() && before[k] == j;
                            assert(positions_view(kept@)[k] == j);
                        } else {
                            assert(positions_view(kept@)[kept@.len() - 1] == j);
                        }
                    }
                }
            }
            i += 1;
        }
        let order = stable_descending_order(&keys);
        let ghost kept_view = positions_view(kept@);
        let ghost scores = candidate_scores(c, kept_view, profile@);
        let ghost sorted = positions_view(order@);
        proof {
            assert(all.take(n as int) =~= all);
            assert(keys_view(keys@) =~= scores);
        }
        let mut positions: Vec<usize> = Vec::new();
        let mut p: usize = 0;
        while p < order.len()
            invariant
                p <= order@.len(),
                order@.len() == kept@.len(),
                sorted == positions_view(order@),
                is_stable_descending(scores, sorted),
                scores.len() == kept@.len(),
                positions@.len() == p,
                forall|q: int| 0 <= q < p ==> #[trigger] positions@[q] == kept@[order@[q] as int],
            decreases order@.len() - p,
        {
            assert(sorted[p as int] == order@[p as int]);
            positions.push(kept[order[p]]);
            p += 1;
        }
        proof {
            let result = positions_view(positions@);
            assert forall|q: int| 0 <= q < result.len() implies #[trigger] result[q]
                == kept_view[sorted[q]] by {
                assert(sorted[q] == order@[q]);
            }
            assert forall|j: int| 0 <= j < c.len() && !exclude.contains(c[j].video_id) implies #[trigger] result.contains(j) by {
                assert(kept_view.contains(j));
                let k = choose|k: int| 0 <= k < kept_view.len() && kept_view[k] == j;
                assert(sorted.contains(k));
                let q = choose|q: int| 0 <= q < sorted.len() && sorted[q] == k;
                assert(result[q] == j);
            }
            assert forall|k: int, l: int| 0 <= k < l < result.len() implies {
                let first = match_score(profile@, c[#[trigger] result[k]].genres);
                let second = match_score(profile@, c[#[trigger] result[l]].genres);
                first > second || (first == second && result[k] < result[l])
            } by {
                assert(crate::order::precedes(scores, sorted[k], sorted[l]));
            }
            assert forall|k: int| 0 <= k < result.len() implies 0 <= #[trigger] result[k] < c.len()
                && !exclude.contains(c[result[k]].video_id) by {
                assert(wanted(kept@[sorted[k]] as int));
            }
        }
        positions
    }

    /// The candidates to show to the viewer: those whose id is not in
    /// `exclude_ids`, best match first, candidates that match equally well
    /// in their input order. The input is left as it is; the result holds
    /// copies. Scores are whole numbers, so any two of them compare and the
    /// ranking is defined for every input.
    pub fn rank(candidates: &[Video], profile: &Profile, exclude_ids: &[String]) -> (ranked: Vec<Video>)
        ensures
            videos_view(ranked@) == ranking(
                videos_view(candidates@),
                profile@,
                strings_view(exclude_ids@),
            ),
            forall|k: int|
                0 <= k < ranked@.len() ==> !strings_view(exclude_ids@).contains(
                    (#[trigger] ranked@[k])@.video_id,
                ),
            exists|positions: Seq<int>|
                #[trigger] is_ranking(
                    videos_view(candidates@),
                    profile@,
                    strings_view(exclude_ids@),
                    positions,
                ) && videos_view(ranked@) == positions.map_values(
                    |i: int| videos_view(candidates@)[i],
                ),
    {
        let positions = Self::rank_positions(candidates, profile, exclude_ids);
        let ghost c = videos_view(candidates@);
        let ghost chosen = positions_view(positions@);
        let mut ranked: Vec<Video> = Vec::new();
        let mut k: usize = 0;
        while k < positions.len()
            invariant
                k <= positions@.len(),
                c == videos_view(candidates@),
                chosen == positions_view(positions@),
                is_ranking(c, profile@, strings_view(exclude_ids@), chosen),
                ranked@.len() == k,
                forall|j: int| 0 <= j < k ==> (#[trigger] ranked@[j])@ == c[chosen[j]],
            decreases positions@.len() - k,
        {
            assert(chosen[k as int] == positions@[k as int]);
            ranked.push(candidates[positions[k]].clone());
            k += 1;
        }
        ranked
    }
}

/// Largest weight a single item can have: the largest rating, boosted five
/// times.
pub const MAX_ITEM_WEIGHT: u128 = 21474836475;

/// Whether one of `tags` is the label at position `i`, up to ASCII case.
pub fn carries_genre(tags: &Vec<String>, i: usize) -> (found: bool)
    ensures
        found == (i < DIMENSIONS && has_genre(strings_view(tags@), i as int)),
{
    let ghost all = strings_view(tags@);
    let mut t: usize = 0;
    while t < tags.len()
        invariant
            t <= tags@.len(),
            all == strings_view(tags@),
            forall|u: int|
                0 <= u < t ==> !(i < DIMENSIONS && matches_ignoring_case(
                    #[trigger] all[u],
                    genre_label(i as int),
                )),
        decreases tags@.len() - t,
    {
        assert(all[t as int] == tags@[t as int]@);
        if is_label(tags[t].as_str(), i) {
            return true;
        }
        t += 1;
    }
    false
}

/// Whether `id` is one of `exclude_ids`.
pub fn is_excluded(id: &String, exclude_ids: &[String]) -> (excluded: bool)
    ensures
        excluded == strings_view(exclude_ids@).contains(id@),
{
    let ghost exclude = strings_view(exclude_ids@);
    let mut j: usize = 0;
    while j < exclude_ids.len()
        invariant
            j <= exclude_ids@.len(),
            exclude == strings_view(exclude_ids@),
            forall|k: int| 0 <= k < j ==> #[trigger] exclude[k] != id@,
        decreases exclude_ids@.len() - j,
    {
        assert(exclude[j as int] == exclude_ids@[j as int]@);
        if exclude_ids[j] == *id {
            return true;
        }
        j += 1;
    }
    false
}

/// One zero numerator per genre.
fn zero_weights() -> (weighted: Vec<u128>)
    ensures
        weighted@.len() == DIMENSIONS,
        forall|k: int| 0 <= k < DIMENSIONS ==> #[trigger] weighted@[k] == 0,
{
    let mut weighted: Vec<u128> = Vec::new();
    let mut k: usize = 0;
    while k < DIMENSIONS
        invariant
            k <= DIMENSIONS,
            weighted@.len() == k,
            forall|j: int| 0 <= j < k ==> #[trigger] weighted@[j] == 0,
        decreases DIMENSIONS - k,
    {
        weighted.push(0);
        k += 1;
    }
    weighted
}

/// The weight base of a rating, as a machine integer.
fn rating_weight(rating: u32) -> (weight: u128)
    ensures
        weight == base_weight(rating as nat),
        0 < weight <= u32::MAX,
{
    if rating > 0 {
        rating as u128
    } else {
        DEFAULT_RATING as u128
    }
}

/// A weight base boosted for position `p` of the history, newest first.
fn boosted(base: u128, p: usize) -> (weight: u128)
    requires
        0 < base <= u32::MAX,
    ensures
        weight == base * recency_multiplier(p as int),
        0 < weight <= MAX_ITEM_WEIGHT,
{
    if p == 0 {
        base * 5
    } else if p == 1 {
        base * 3
    } else if p == 2 {
        base * 2
    } else {
        base
    }
}

} // verus!
