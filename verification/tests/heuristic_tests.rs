use sloppy::heuristic::msats_to_sats;
use sloppy::heuristic::should_post;

#[test]
fn repost_needs_previous_balance() {
    assert!(!should_post(None, 0));
    assert!(!should_post(None, 100));
    assert!(!should_post(None, 5000));
    assert!(!should_post(None, u64::MAX));
}

#[test]
fn repost_example_small_increase() {
    assert!(should_post(Some(1000), 1101));
}

#[test]
fn repost_matches_threshold_formula() {
    for &(p, c) in &[
        (0u64, 0u64),
        (0, 100),
        (0, 101),
        (1000, 1100),
        (1000, 1101),
        (1000, 1150),
        (50, 49),
        (u64::MAX - 1, u64::MAX),
        (0, u64::MAX),
    ] {
        assert_eq!(should_post(Some(p), c), p < c.saturating_sub(100));
    }
}

#[test]
fn repost_boundary_is_strict() {
    // An increase of exactly the threshold does not trigger a post.
    assert!(!should_post(Some(1000), 1100));
    assert!(should_post(Some(1000), 1101));
}

#[test]
fn repost_subtraction_saturates() {
    // With the current balance at or below the threshold the cut-off is
    // zero, and no previous balance lies strictly below zero.
    assert!(!should_post(Some(0), 100));
    assert!(!should_post(Some(5), 50));
    assert!(should_post(Some(0), 101));
}

#[test]
fn msats_truncate_to_sats() {
    assert_eq!(msats_to_sats(0), 0);
    assert_eq!(msats_to_sats(999), 0);
    assert_eq!(msats_to_sats(1000), 1);
    assert_eq!(msats_to_sats(2500999), 2500);
    assert_eq!(msats_to_sats(u64::MAX), u64::MAX / 1000);
}
