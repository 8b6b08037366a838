//! The ranking reduction: descending order, stable ties, and the ten-entry
//! cap.

use jornet::ranking::{reduce, Score, LEADERBOARD_CAP};

/// An order-preserving key for the non-negative float scores these tests
/// use: for such values the IEEE bit pattern orders exactly as the value.
fn key_of(score: f32) -> u64 {
    score.to_bits() as u64
}

fn entry(score: f32, player: &str) -> Score {
    Score {
        score_key: key_of(score),
        player: player.to_string(),
        meta: None,
        timestamp: String::new(),
    }
}

#[test]
fn five_scores_sort_descending_with_stable_ties() {
    let batch = vec![
        entry(5.0, "a"),
        entry(9.0, "first-nine"),
        entry(9.0, "second-nine"),
        entry(1.0, "b"),
        entry(7.0, "c"),
    ];
    let view = reduce(batch);
    let got: Vec<(u64, &str)> = view.iter().map(|s| (s.score_key, s.player.as_str())).collect();
    assert_eq!(
        got,
        vec![
            (key_of(9.0), "first-nine"),
            (key_of(9.0), "second-nine"),
            (key_of(7.0), "c"),
            (key_of(5.0), "a"),
            (key_of(1.0), "b"),
        ]
    );
}

#[test]
fn fifteen_scores_truncate_to_ten_highest() {
    let mut batch: Vec<Score> = Vec::new();
    // values 0.0 .. 14.0 arriving in an interleaved order
    let values = [
        3.0, 12.0, 7.0, 0.0, 14.0, 9.0, 1.0, 11.0, 5.0, 13.0, 2.0, 8.0, 4.0, 10.0, 6.0,
    ];
    for (i, v) in values.iter().enumerate() {
        batch.push(entry(*v, &format!("p{}", i)));
    }
    let view = reduce(batch);
    assert_eq!(view.len(), LEADERBOARD_CAP);
    let got: Vec<u64> = view.iter().map(|s| s.score_key).collect();
    let expected: Vec<u64> = [
        14.0f32, 13.0, 12.0, 11.0, 10.0, 9.0, 8.0, 7.0, 6.0, 5.0,
    ]
    .iter()
    .map(|v| key_of(*v))
    .collect();
    assert_eq!(got, expected);
}

#[test]
fn equal_values_keep_arrival_order_after_truncation() {
    let mut batch: Vec<Score> = Vec::new();
    for i in 0..12 {
        batch.push(entry(2.0, &format!("tied{}", i)));
    }
    let view = reduce(batch);
    assert_eq!(view.len(), 10);
    for (i, s) in view.iter().enumerate() {
        assert_eq!(s.player, format!("tied{}", i));
    }
}

#[test]
fn repeated_reduction_is_identical() {
    let batch = vec![entry(1.0, "x"), entry(3.0, "y"), entry(3.0, "z")];
    let batch_again = vec![entry(1.0, "x"), entry(3.0, "y"), entry(3.0, "z")];
    let a: Vec<(u64, String)> =
        reduce(batch).into_iter().map(|s| (s.score_key, s.player)).collect();
    let b: Vec<(u64, String)> =
        reduce(batch_again).into_iter().map(|s| (s.score_key, s.player)).collect();
    assert_eq!(a, b);
}

#[test]
fn empty_batch_reduces_to_empty_view() {
    let view = reduce(Vec::new());
    assert!(view.is_empty());
}

#[test]
fn unorderable_values_rank_as_mutually_equal() {
    // the caller maps every not-a-number to one fixed key; here zero
    let mut batch = vec![entry(1.0, "real")];
    batch.push(Score {
        score_key: 0,
        player: "nan-one".to_string(),
        meta: None,
        timestamp: String::new(),
    });
    batch.push(Score {
        score_key: 0,
        player: "nan-two".to_string(),
        meta: None,
        timestamp: String::new(),
    });
    let view = reduce(batch);
    let got: Vec<&str> = view.iter().map(|s| s.player.as_str()).collect();
    assert_eq!(got, vec!["real", "nan-one", "nan-two"]);
}
