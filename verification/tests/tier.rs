use staking_escrow::{get_tier, FREE, STAKER, TIER_STAKER, TIER_WHALE, WHALE};

#[test]
fn tier_thresholds_are_a_hundred_and_a_thousand_units() {
    assert_eq!(TIER_STAKER, 100_000_000);
    assert_eq!(TIER_WHALE, 1_000_000_000);
}

#[test]
fn tier_codes_are_zero_one_and_two() {
    assert_eq!(FREE, 0);
    assert_eq!(STAKER, 1);
    assert_eq!(WHALE, 2);
}

#[test]
fn tier_boundaries() {
    assert_eq!(get_tier(99_999_999), FREE);
    assert_eq!(get_tier(100_000_000), STAKER);
    assert_eq!(get_tier(999_999_999), STAKER);
    assert_eq!(get_tier(1_000_000_000), WHALE);
}

#[test]
fn tier_is_free_below_the_staker_threshold() {
    assert_eq!(get_tier(0), 0);
    assert_eq!(get_tier(1), 0);
    assert_eq!(get_tier(99_999_999), 0);
}

#[test]
fn tier_is_staker_from_its_threshold_up_to_the_whale_threshold() {
    assert_eq!(get_tier(100_000_000), 1);
    assert_eq!(get_tier(100_000_001), 1);
    assert_eq!(get_tier(999_999_999), 1);
}

#[test]
fn tier_is_whale_from_its_threshold_on() {
    assert_eq!(get_tier(1_000_000_000), 2);
    assert_eq!(get_tier(1_000_000_001), 2);
    assert_eq!(get_tier(u64::MAX), 2);
}
