use glassbox::genres::{index_of, label, DIMENSIONS};
use glassbox::order::stable_descending_order;
use glassbox::profile::{Profile, MAX_TOTAL_WEIGHT};
use glassbox::svd::{is_excluded, DEFAULT_RATING, SVD};
use glassbox::video::{Timestamp, Video, RATING_SCALE};

fn item(id: &str, rating: u32, genres: &[&str], secs: i64) -> Video {
    Video {
        video_id: id.to_string(),
        title: format!("Title {}", id),
        description: String::new(),
        thumbnail_url: String::new(),
        rating,
        genres: genres.iter().map(|g| g.to_string()).collect(),
        channel_name: String::new(),
        related_ids: Vec::new(),
        saved_at: Timestamp { secs, nanos: 0 },
    }
}

fn numerators(profile: &Profile) -> Vec<u128> {
    (0..DIMENSIONS).map(|i| profile.weighted(i).unwrap()).collect()
}

fn hot(positions: &[usize]) -> Vec<u8> {
    (0..DIMENSIONS).map(|i| if positions.contains(&i) { 1 } else { 0 }).collect()
}

#[test]
fn taxonomy_has_nineteen_labels_in_order() {
    assert_eq!(DIMENSIONS, 19);
    assert_eq!(label(0), Some("Action"));
    assert_eq!(label(5), Some("Drama"));
    assert_eq!(label(14), Some("Science-Fiction"));
    assert_eq!(label(18), Some("Western"));
    assert_eq!(label(19), None);
}

#[test]
fn index_of_ignores_ascii_case() {
    assert_eq!(index_of("Drama"), Some(5));
    assert_eq!(index_of("drama"), Some(5));
    assert_eq!(index_of("DRAMA"), Some(5));
    assert_eq!(index_of("science-fiction"), Some(14));
    assert_eq!(index_of("wEsTeRn"), Some(18));
}

#[test]
fn index_of_wants_the_whole_label() {
    assert_eq!(index_of("Dram"), None);
    assert_eq!(index_of("Drama "), None);
    assert_eq!(index_of("Sci-Fi"), None);
    assert_eq!(index_of(""), None);
    assert_eq!(index_of("Dräma"), None);
}

#[test]
fn every_label_is_found_at_its_own_position() {
    for i in 0..DIMENSIONS {
        let name = label(i).unwrap();
        assert_eq!(index_of(name), Some(i));
        assert_eq!(index_of(&name.to_lowercase()), Some(i));
        assert_eq!(index_of(&name.to_uppercase()), Some(i));
    }
}

#[test]
fn vectorise_marks_exactly_the_genres_present() {
    let video = item("1", 80, &["drama", "SCIENCE-FICTION", "Sci-Fi", "Cooking"], 0);
    assert_eq!(SVD::vectorise(&video), hot(&[5, 14]));
}

#[test]
fn vectorise_of_an_item_without_tags_is_zero() {
    let video = item("1", 80, &[], 0);
    assert_eq!(SVD::vectorise(&video), vec![0u8; 19]);
}

#[test]
fn vectorise_counts_a_repeated_genre_once() {
    let video = item("1", 80, &["Comedy", "comedy", "COMEDY"], 0);
    assert_eq!(SVD::vectorise(&video), hot(&[3]));
}

#[test]
fn vectorise_of_every_label_is_all_ones() {
    let all: Vec<&str> = (0..DIMENSIONS).map(|i| label(i).unwrap()).collect();
    let video = item("1", 0, &all, 0);
    assert_eq!(SVD::vectorise(&video), vec![1u8; 19]);
}

#[test]
fn profile_of_an_empty_history_is_zero() {
    let profile = SVD::user_vector(&[]);
    assert_eq!(numerators(&profile), vec![0u128; 19]);
    assert_eq!(profile.total(), 0);
    assert_eq!(profile, Profile::zero());
}

#[test]
fn profile_weights_follow_rating_and_recency() {
    // Newest first: A rated 8, B rated 4, C rated 2, D rated 6.
    let a = item("a", 8 * RATING_SCALE, &["Action", "Drama"], 400);
    let b = item("b", 4 * RATING_SCALE, &["Drama", "Comedy"], 300);
    let c = item("c", 2 * RATING_SCALE, &["Action"], 200);
    let d = item("d", 6 * RATING_SCALE, &["Western", "Comedy"], 100);
    let vectors = [
        SVD::vectorise(&a),
        SVD::vectorise(&b),
        SVD::vectorise(&c),
        SVD::vectorise(&d),
    ];
    let profile = SVD::user_vector(&[a, b, c, d]);
    // Weights 40, 12, 4 and 6 points, 62 in all, held in tenths.
    assert_eq!(profile.total(), 620);
    for i in 0..DIMENSIONS {
        let expected = 40 * vectors[0][i] as u128
            + 12 * vectors[1][i] as u128
            + 4 * vectors[2][i] as u128
            + 6 * vectors[3][i] as u128;
        let numerator = profile.weighted(i).unwrap();
        assert_eq!(numerator, 10 * expected);
        assert_eq!(numerator * 62, expected * profile.total());
        let entry = numerator as f64 / profile.total() as f64;
        assert!((entry - expected as f64 / 62.0).abs() < 1e-12);
    }
    assert_eq!(profile.weighted(0), Some(440));
    assert_eq!(profile.weighted(3), Some(180));
    assert_eq!(profile.weighted(5), Some(520));
    assert_eq!(profile.weighted(18), Some(60));
    assert_eq!(profile.weighted(1), Some(0));
}

#[test]
fn profile_sorts_the_history_itself() {
    let a = item("a", 80, &["Action", "Drama"], 400);
    let b = item("b", 40, &["Drama", "Comedy"], 300);
    let c = item("c", 20, &["Action"], 200);
    let d = item("d", 60, &["Western", "Comedy"], 100);
    let sorted = SVD::user_vector(&[a.clone(), b.clone(), c.clone(), d.clone()]);
    let shuffled = SVD::user_vector(&[c, a, d, b]);
    assert_eq!(sorted, shuffled);
}

#[test]
fn profile_keeps_the_order_of_items_saved_at_the_same_instant() {
    let first = item("first", 80, &["Action"], 100);
    let second = item("second", 80, &["Drama"], 100);
    let profile = SVD::user_vector(&[first.clone(), second.clone()]);
    assert_eq!(profile.weighted(0), Some(400));
    assert_eq!(profile.weighted(5), Some(240));
    let swapped = SVD::user_vector(&[second, first]);
    assert_eq!(swapped.weighted(5), Some(400));
    assert_eq!(swapped.weighted(0), Some(240));
}

#[test]
fn profile_orders_by_nanoseconds_within_a_second() {
    let mut early = item("early", 10, &["Action"], 100);
    early.saved_at = Timestamp { secs: 100, nanos: 5 };
    let mut late = item("late", 10, &["Drama"], 100);
    late.saved_at = Timestamp { secs: 100, nanos: 6 };
    let profile = SVD::user_vector(&[early, late]);
    assert_eq!(profile.weighted(5), Some(50));
    assert_eq!(profile.weighted(0), Some(30));
}

#[test]
fn profile_of_a_single_item_is_its_own_vector() {
    let video = item("1", 73, &["Horror", "thriller"], 5);
    let vector = SVD::vectorise(&video);
    let profile = SVD::user_vector(&[video]);
    assert_eq!(profile.total(), 5 * 73);
    for i in 0..DIMENSIONS {
        assert_eq!(profile.weighted(i), Some(profile.total() * vector[i] as u128));
        let entry = profile.weighted(i).unwrap() as f64 / profile.total() as f64;
        assert_eq!(entry, vector[i] as f64);
    }
}

#[test]
fn unrated_items_weigh_five_points() {
    assert_eq!(DEFAULT_RATING, 5 * RATING_SCALE);
    let a = item("a", 0, &["Action"], 40);
    let b = item("b", 0, &["Drama"], 30);
    let c = item("c", 0, &["Comedy"], 20);
    let d = item("d", 0, &["Western"], 10);
    let e = item("e", 0, &["Western"], 5);
    let profile = SVD::user_vector(&[a, b, c, d, e]);
    assert_eq!(profile.total(), 50 * (5 + 3 + 2 + 1 + 1));
    assert_eq!(profile.weighted(0), Some(250));
    assert_eq!(profile.weighted(5), Some(150));
    assert_eq!(profile.weighted(3), Some(100));
    assert_eq!(profile.weighted(18), Some(100));
}

#[test]
fn profile_entries_never_exceed_the_total() {
    let history: Vec<Video> = (0..40)
        .map(|i| item(&i.to_string(), (i * 7 % 101) as u32, &["Drama", "War"], i as i64 * 3 % 17))
        .collect();
    let profile = SVD::user_vector(&history);
    assert!(profile.total() > 0);
    for i in 0..DIMENSIONS {
        assert!(profile.weighted(i).unwrap() <= profile.total());
    }
    assert_eq!(profile.weighted(5), Some(profile.total()));
    assert_eq!(profile.weighted(17), Some(profile.total()));
    assert_eq!(profile.weighted(0), Some(0));
}

#[test]
fn profile_takes_the_largest_ratings() {
    let history = vec![item("a", u32::MAX, &["Drama"], 2), item("b", u32::MAX, &["War"], 1)];
    let profile = SVD::user_vector(&history);
    assert_eq!(profile.total(), 8 * u32::MAX as u128);
    assert_eq!(profile.weighted(5), Some(5 * u32::MAX as u128));
    assert_eq!(profile.weighted(17), Some(3 * u32::MAX as u128));
}

#[test]
fn profile_from_parts_checks_its_parts() {
    let mut weighted = vec![0u128; 19];
    weighted[4] = 7;
    let profile = Profile::from_parts(weighted.clone(), 10).unwrap();
    assert_eq!(profile.weighted(4), Some(7));
    assert_eq!(profile.weighted(19), None);
    assert_eq!(profile.total(), 10);
    assert_eq!(profile.numerators(), &weighted);
    assert_eq!(Profile::from_parts(weighted.clone(), 6), None);
    assert_eq!(Profile::from_parts(vec![0u128; 18], 10), None);
    assert_eq!(Profile::from_parts(vec![0u128; 20], 10), None);
    assert_eq!(Profile::from_parts(vec![0u128; 19], MAX_TOTAL_WEIGHT + 1), None);
    assert!(Profile::from_parts(vec![MAX_TOTAL_WEIGHT; 19], MAX_TOTAL_WEIGHT).is_some());
    assert_eq!(profile.clone(), profile);
}

#[test]
fn score_is_the_dot_product() {
    let mut weighted = vec![0u128; 19];
    weighted[0] = 440;
    weighted[3] = 180;
    weighted[5] = 520;
    let profile = Profile::from_parts(weighted, 620).unwrap();
    assert_eq!(SVD::predict_match(&profile, &item("x", 0, &["Action", "Drama"], 0)), 960);
    assert_eq!(SVD::predict_match(&profile, &item("x", 0, &["comedy"], 0)), 180);
    assert_eq!(SVD::predict_match(&profile, &item("x", 0, &["Western"], 0)), 0);
    assert_eq!(SVD::predict_match(&profile, &item("x", 0, &[], 0)), 0);
}

#[test]
fn score_of_the_largest_profile_does_not_overflow() {
    let profile = Profile::from_parts(vec![MAX_TOTAL_WEIGHT; 19], MAX_TOTAL_WEIGHT).unwrap();
    let all: Vec<&str> = (0..DIMENSIONS).map(|i| label(i).unwrap()).collect();
    assert_eq!(SVD::predict_match(&profile, &item("x", 0, &all, 0)), 19 * MAX_TOTAL_WEIGHT);
}

#[test]
fn top_genre_of_a_zero_profile_is_the_fallback() {
    assert_eq!(SVD::get_top_genre(&Profile::zero()), "Trending");
    assert_eq!(SVD::get_top_genre(&SVD::user_vector(&[])), "Trending");
    assert_eq!(SVD::top_index(&Profile::zero()), None);
    let zero_over_ten = Profile::from_parts(vec![0u128; 19], 10).unwrap();
    assert_eq!(SVD::get_top_genre(&zero_over_ten), "Trending");
}

#[test]
fn top_genre_of_untagged_history_is_the_fallback() {
    let profile = SVD::user_vector(&[item("a", 90, &["Cooking"], 1)]);
    assert!(profile.total() > 0);
    assert_eq!(SVD::get_top_genre(&profile), "Trending");
}

#[test]
fn top_genre_is_the_largest_entry() {
    let mut weighted = vec![1u128; 19];
    weighted[12] = 9;
    let profile = Profile::from_parts(weighted, 10).unwrap();
    assert_eq!(SVD::get_top_genre(&profile), "Mystery");
    assert_eq!(SVD::top_index(&profile), Some(12));
}

#[test]
fn top_genre_breaks_ties_by_lowest_position() {
    let mut weighted = vec![0u128; 19];
    weighted[7] = 4;
    weighted[2] = 4;
    weighted[16] = 4;
    let profile = Profile::from_parts(weighted, 10).unwrap();
    assert_eq!(SVD::get_top_genre(&profile), "Anime");
    let last_only = {
        let mut weighted = vec![0u128; 19];
        weighted[18] = 1;
        Profile::from_parts(weighted, 1).unwrap()
    };
    assert_eq!(SVD::get_top_genre(&last_only), "Western");
}

#[test]
fn stable_order_puts_larger_keys_first() {
    assert_eq!(stable_descending_order(&vec![]), Vec::<usize>::new());
    assert_eq!(stable_descending_order(&vec![7]), vec![0]);
    assert_eq!(stable_descending_order(&vec![1, 3, 2]), vec![1, 2, 0]);
    assert_eq!(stable_descending_order(&vec![-5, i128::MAX, i128::MIN, 0]), vec![1, 3, 0, 2]);
    assert_eq!(stable_descending_order(&vec![9, 8, 7, 6]), vec![0, 1, 2, 3]);
    assert_eq!(stable_descending_order(&vec![6, 7, 8, 9]), vec![3, 2, 1, 0]);
}

#[test]
fn stable_order_keeps_equal_keys_in_input_order() {
    assert_eq!(stable_descending_order(&vec![5, 5, 5]), vec![0, 1, 2]);
    assert_eq!(stable_descending_order(&vec![1, 2, 1, 2, 1]), vec![1, 3, 0, 2, 4]);
}

#[test]
fn timestamps_order_by_seconds_then_nanoseconds() {
    let a = Timestamp { secs: 10, nanos: 999_999_999 };
    let b = Timestamp { secs: 11, nanos: 0 };
    let c = Timestamp { secs: 11, nanos: 1 };
    let d = Timestamp { secs: -1, nanos: u32::MAX };
    assert!(b.is_after(&a));
    assert!(c.is_after(&b));
    assert!(a.is_after(&d));
    assert!(!a.is_after(&a));
    assert!(!a.is_after(&b));
    assert!(a.key() < b.key() && b.key() < c.key() && d.key() < a.key());
    assert_eq!(b.key(), 11 * (1i128 << 32));
    assert_eq!(d.key(), -(1i128 << 32) + u32::MAX as i128);
    let least = Timestamp { secs: i64::MIN, nanos: 0 };
    let most = Timestamp { secs: i64::MAX, nanos: u32::MAX };
    assert!(most.is_after(&least) && least.key() < most.key());
}

#[test]
fn rank_leaves_out_excluded_ids() {
    let profile = SVD::user_vector(&[item("seen", 80, &["Drama"], 1)]);
    let candidates = vec![
        item("1", 0, &["Drama"], 0),
        item("seen", 0, &["Drama"], 0),
        item("2", 0, &["Comedy"], 0),
        item("also-seen", 0, &[], 0),
    ];
    let exclude = vec!["seen".to_string(), "also-seen".to_string(), "absent".to_string()];
    let ranked = SVD::rank(&candidates, &profile, &exclude);
    let ids: Vec<&str> = ranked.iter().map(|v| v.video_id.as_str()).collect();
    assert_eq!(ids, vec!["1", "2"]);
    assert_eq!(SVD::rank_positions(&candidates, &profile, &exclude), vec![0, 2]);
    assert!(is_excluded(&"seen".to_string(), &exclude));
    assert!(!is_excluded(&"Seen".to_string(), &exclude));
    assert!(!is_excluded(&"seen".to_string(), &[]));
}

#[test]
fn rank_puts_the_best_match_first() {
    let history = vec![
        item("a", 80, &["Action", "Drama"], 400),
        item("b", 40, &["Drama", "Comedy"], 300),
        item("c", 20, &["Action"], 200),
        item("d", 60, &["Western", "Comedy"], 100),
    ];
    let profile = SVD::user_vector(&history);
    let candidates = vec![
        item("western", 0, &["Western"], 0),
        item("comedy", 0, &["Comedy"], 0),
        item("both", 0, &["Action", "Drama"], 0),
        item("none", 0, &["Cooking"], 0),
        item("drama", 0, &["Drama"], 0),
        item("action", 0, &["Action"], 0),
    ];
    let ranked = SVD::rank(&candidates, &profile, &[]);
    let ids: Vec<&str> = ranked.iter().map(|v| v.video_id.as_str()).collect();
    assert_eq!(ids, vec!["both", "drama", "action", "comedy", "western", "none"]);
    let scores: Vec<u128> = ranked.iter().map(|v| SVD::predict_match(&profile, v)).collect();
    assert_eq!(scores, vec![960, 520, 440, 180, 60, 0]);
}

#[test]
fn rank_keeps_equal_scores_in_input_order() {
    let profile = SVD::user_vector(&[item("a", 80, &["Drama"], 1)]);
    let candidates = vec![
        item("z", 0, &["Comedy"], 0),
        item("m", 0, &["Drama"], 0),
        item("y", 0, &["Western"], 0),
        item("k", 0, &["drama", "War"], 0),
        item("x", 0, &[], 0),
        item("a", 0, &["DRAMA"], 0),
    ];
    let ranked = SVD::rank(&candidates, &profile, &[]);
    let ids: Vec<&str> = ranked.iter().map(|v| v.video_id.as_str()).collect();
    assert_eq!(ids, vec!["m", "k", "a", "z", "y", "x"]);
}

#[test]
fn rank_with_a_zero_profile_keeps_the_input_order() {
    let candidates = vec![
        item("3", 0, &["Drama"], 0),
        item("1", 0, &["Comedy"], 0),
        item("2", 0, &[], 0),
    ];
    let ranked = SVD::rank(&candidates, &Profile::zero(), &[]);
    assert_eq!(ranked, candidates);
}

#[test]
fn rank_returns_copies_and_leaves_the_input_alone() {
    let profile = SVD::user_vector(&[item("a", 80, &["Drama"], 1)]);
    let candidates = vec![item("1", 30, &["Comedy"], 7), item("2", 90, &["Drama"], 8)];
    let before = candidates.clone();
    let ranked = SVD::rank(&candidates, &profile, &[]);
    assert_eq!(candidates, before);
    assert_eq!(ranked, vec![before[1].clone(), before[0].clone()]);
}

#[test]
fn rank_of_nothing_is_nothing() {
    let profile = SVD::user_vector(&[item("a", 80, &["Drama"], 1)]);
    assert_eq!(SVD::rank(&[], &profile, &[]), Vec::<Video>::new());
    let all_seen = vec![item("a", 0, &["Drama"], 0)];
    assert_eq!(SVD::rank(&all_seen, &profile, &["a".to_string()]), Vec::<Video>::new());
}

#[test]
fn rank_keeps_candidates_that_share_an_id() {
    let profile = SVD::user_vector(&[item("a", 80, &["Drama"], 1)]);
    let candidates = vec![item("dup", 0, &[], 0), item("dup", 0, &["Drama"], 0)];
    let ranked = SVD::rank(&candidates, &profile, &[]);
    assert_eq!(ranked, vec![candidates[1].clone(), candidates[0].clone()]);
}

/// The profile computed in floating point: weights by rating and recency,
/// summed per genre and divided by the total weight.
fn float_profile(history: &[Video]) -> Vec<f64> {
    let mut profile = vec![0.0; DIMENSIONS];
    let mut newest_first: Vec<&Video> = history.iter().collect();
    newest_first.sort_by(|a, b| {
        (b.saved_at.secs, b.saved_at.nanos).cmp(&(a.saved_at.secs, a.saved_at.nanos))
    });
    let mut total = 0.0;
    for (position, video) in newest_first.iter().enumerate() {
        let rating = video.rating as f64 / RATING_SCALE as f64;
        let base = if rating > 0.0 { rating } else { 5.0 };
        let boost = match position {
            0 => 5.0,
            1 => 3.0,
            2 => 2.0,
            _ => 1.0,
        };
        let weight = base * boost;
        total += weight;
        for (i, entry) in SVD::vectorise(video).iter().enumerate() {
            profile[i] += *entry as f64 * weight;
        }
    }
    if total > 0.0 {
        for entry in profile.iter_mut() {
            *entry /= total;
        }
    }
    profile
}

fn sample(seed: &mut u64, below: u64) -> u64 {
    *seed = seed.wrapping_mul(6364136223846793005).wrapping_add(1442695040888963407);
    (*seed >> 33) % below
}

fn sample_video(seed: &mut u64, id: usize) -> Video {
    let tags: Vec<&str> = (0..sample(seed, 4))
        .map(|_| label(sample(seed, DIMENSIONS as u64) as usize).unwrap())
        .collect();
    let mut video = item(&id.to_string(), sample(seed, 101) as u32, &tags, sample(seed, 6) as i64);
    video.saved_at.nanos = sample(seed, 3) as u32;
    video
}

#[test]
fn profile_agrees_with_the_floating_point_formula() {
    let mut seed = 2024;
    for round in 0..50 {
        let history: Vec<Video> =
            (0..sample(&mut seed, 12) as usize).map(|id| sample_video(&mut seed, id)).collect();
        let profile = SVD::user_vector(&history);
        let expected = float_profile(&history);
        for i in 0..DIMENSIONS {
            let entry = if profile.total() == 0 {
                0.0
            } else {
                profile.weighted(i).unwrap() as f64 / profile.total() as f64
            };
            assert!((entry - expected[i]).abs() < 1e-9, "round {}, entry {}", round, i);
        }
    }
}

#[test]
fn rank_agrees_with_a_stable_sort_by_score() {
    let mut seed = 7;
    for round in 0..50 {
        let history: Vec<Video> =
            (0..sample(&mut seed, 8) as usize).map(|id| sample_video(&mut seed, id)).collect();
        let candidates: Vec<Video> =
            (0..sample(&mut seed, 15) as usize).map(|id| sample_video(&mut seed, id % 9)).collect();
        let exclude: Vec<String> = history.iter().map(|v| v.video_id.clone()).collect();
        let profile = SVD::user_vector(&history);

        let mut expected: Vec<Video> =
            candidates.iter().filter(|c| !exclude.contains(&c.video_id)).cloned().collect();
        expected.sort_by(|a, b| {
            SVD::predict_match(&profile, b).cmp(&SVD::predict_match(&profile, a))
        });

        assert_eq!(SVD::rank(&candidates, &profile, &exclude), expected, "round {}", round);
        for video in SVD::rank(&candidates, &profile, &exclude) {
            assert!(!exclude.contains(&video.video_id));
        }
    }
}

#[test]
fn stable_order_agrees_with_a_stable_sort() {
    let mut seed = 99;
    for _ in 0..100 {
        let keys: Vec<i128> =
            (0..sample(&mut seed, 20)).map(|_| sample(&mut seed, 5) as i128 - 2).collect();
        let mut expected: Vec<usize> = (0..keys.len()).collect();
        expected.sort_by(|a, b| keys[*b].cmp(&keys[*a]));
        assert_eq!(stable_descending_order(&keys), expected);
    }
}

#[test]
fn stable_order_of_many_keys() {
    let mut seed = 5;
    let keys: Vec<i128> = (0..50_000).map(|_| sample(&mut seed, 1000) as i128).collect();
    let mut expected: Vec<usize> = (0..keys.len()).collect();
    expected.sort_by(|a, b| keys[*b].cmp(&keys[*a]));
    assert_eq!(stable_descending_order(&keys), expected);
    let ascending: Vec<i128> = (0..50_000).collect();
    let reversed: Vec<usize> = (0..50_000).rev().collect();
    assert_eq!(stable_descending_order(&ascending), reversed);
}

#[test]
fn profile_of_a_long_history() {
    let history: Vec<Video> =
        (0..5_000).map(|i| item(&i.to_string(), 70, &["Drama"], i as i64)).collect();
    let profile = SVD::user_vector(&history);
    assert_eq!(profile.total(), 70 * (5 + 3 + 2 + 4_997));
    assert_eq!(profile.weighted(5), Some(profile.total()));
}
