use staking_escrow::{
    claim_fomo_bonus, initialize, stake, unstake, FomoBonusEvent, Identity, Moment, StakingError,
    StakingState, TransferOutcome, UserStake, BONUS_DIVISOR, FOMO_WINDOW,
};

const RATE: u64 = 1_000_000_000_000_000_000;

fn key(tag: u8) -> Identity {
    Identity::new([tag; 32])
}

fn at(slot: u64, unix_timestamp: i64) -> Moment {
    Moment { slot, unix_timestamp }
}

fn new_ledger() -> StakingState {
    initialize(key(1), key(2), key(3), RATE, 255)
}

fn window_is_consistent(state: &StakingState) -> bool {
    (state.last_stake_time == 0) == state.last_staker.is_none()
}

#[test]
fn window_lasts_a_day_and_the_bonus_is_a_tenth() {
    assert_eq!(FOMO_WINDOW, 86_400);
    assert_eq!(BONUS_DIVISOR, 10);
}

#[test]
fn claim_fails_for_first_depositor_once_another_has_deposited() {
    let mut state = new_ledger();
    let mut entry_a = UserStake::new(key(10));
    let mut entry_b = UserStake::new(key(11));
    stake(&mut state, &mut entry_a, key(10), 500, &at(100, 1_000), TransferOutcome::Completed).unwrap();
    stake(&mut state, &mut entry_b, key(11), 1, &at(200, 1_000 + 86_399), TransferOutcome::Completed)
        .unwrap();
    let state_before = state;
    let entry_before = entry_a;
    assert_eq!(
        claim_fomo_bonus(&mut state, &mut entry_a, key(10), &at(300, 1_000 + 86_401)),
        Err(StakingError::NotLastStaker)
    );
    assert_eq!(
        claim_fomo_bonus(&mut state, &mut entry_a, key(10), &at(400, 1_000_000_000)),
        Err(StakingError::NotLastStaker)
    );
    assert_eq!(state, state_before);
    assert_eq!(entry_a, entry_before);
    assert_eq!(state.last_staker, Some(key(11)));
}

#[test]
fn claim_after_the_window_pays_a_tenth_and_closes_the_window() {
    let mut state = new_ledger();
    let mut entry = UserStake::new(key(10));
    stake(&mut state, &mut entry, key(10), 5, &at(100, 1_000), TransferOutcome::Completed).unwrap();
    let claimed_at = at(100 + 207, 1_000 + 86_401);
    let event = claim_fomo_bonus(&mut state, &mut entry, key(10), &claimed_at);
    assert_eq!(event, Ok(FomoBonusEvent { user: key(10), bonus: 103 }));
    assert_eq!(
        entry,
        UserStake {
            user: key(10),
            amount: 5,
            staked_at: 100,
            last_credit_slot: 307,
            credits: 1_035 + 103,
        }
    );
    assert_eq!(state.last_staker, None);
    assert_eq!(state.last_stake_time, 0);
    assert_eq!(state.total_staked, 5);

    let state_before = state;
    let entry_before = entry;
    assert_eq!(
        claim_fomo_bonus(&mut state, &mut entry, key(10), &claimed_at),
        Err(StakingError::NotLastStaker)
    );
    assert_eq!(
        claim_fomo_bonus(&mut state, &mut entry, key(10), &at(9_000, 9_000_000)),
        Err(StakingError::NotLastStaker)
    );
    assert_eq!(state, state_before);
    assert_eq!(entry, entry_before);
}

#[test]
fn claim_before_the_window_has_run_out_is_rejected() {
    let mut state = new_ledger();
    let mut entry = UserStake::new(key(10));
    stake(&mut state, &mut entry, key(10), 5, &at(100, 1_000), TransferOutcome::Completed).unwrap();
    let state_before = state;
    let entry_before = entry;
    for unix_timestamp in [i64::MIN, -1, 0, 999, 1_000, 1_001, 1_000 + 86_399, 1_000 + 86_400] {
        assert_eq!(
            claim_fomo_bonus(&mut state, &mut entry, key(10), &at(5_000, unix_timestamp)),
            Err(StakingError::FomoWindowOpen)
        );
    }
    assert_eq!(state, state_before);
    assert_eq!(entry, entry_before);
    assert!(claim_fomo_bonus(&mut state, &mut entry, key(10), &at(5_000, 1_000 + 86_401)).is_ok());
}

#[test]
fn claim_is_never_due_when_the_deadline_lies_beyond_the_clock() {
    let mut state = new_ledger();
    let mut entry = UserStake::new(key(10));
    stake(&mut state, &mut entry, key(10), 5, &at(100, i64::MAX - 86_400), TransferOutcome::Completed)
        .unwrap();
    assert_eq!(
        claim_fomo_bonus(&mut state, &mut entry, key(10), &at(5_000, i64::MAX)),
        Err(StakingError::FomoWindowOpen)
    );
    stake(&mut state, &mut entry, key(10), 5, &at(100, i64::MAX), TransferOutcome::Completed).unwrap();
    assert_eq!(
        claim_fomo_bonus(&mut state, &mut entry, key(10), &at(5_000, i64::MAX)),
        Err(StakingError::FomoWindowOpen)
    );
}

#[test]
fn claim_counts_from_a_deposit_made_before_the_epoch() {
    let mut state = new_ledger();
    let mut entry = UserStake::new(key(10));
    stake(&mut state, &mut entry, key(10), 5, &at(100, i64::MIN), TransferOutcome::Completed).unwrap();
    assert_eq!(
        claim_fomo_bonus(&mut state, &mut entry, key(10), &at(100, i64::MIN + 86_400)),
        Err(StakingError::FomoWindowOpen)
    );
    assert_eq!(
        claim_fomo_bonus(&mut state, &mut entry, key(10), &at(100, i64::MIN + 86_401)),
        Ok(FomoBonusEvent { user: key(10), bonus: 0 })
    );
}

#[test]
fn claim_by_a_stranger_is_rejected_before_the_window_is_looked_at() {
    let mut state = new_ledger();
    let mut entry = UserStake::new(key(10));
    stake(&mut state, &mut entry, key(10), 5, &at(100, 1_000), TransferOutcome::Completed).unwrap();
    let mut stranger = UserStake::new(key(12));
    assert_eq!(
        claim_fomo_bonus(&mut state, &mut stranger, key(12), &at(101, 1_001)),
        Err(StakingError::NotLastStaker)
    );
    assert_eq!(
        claim_fomo_bonus(&mut state, &mut stranger, key(12), &at(101, 1_000_000)),
        Err(StakingError::NotLastStaker)
    );
}

#[test]
fn claim_on_a_ledger_without_deposits_is_rejected() {
    let mut state = new_ledger();
    for tag in [0u8, 1, 10, 255] {
        let mut entry = UserStake::new(key(tag));
        assert_eq!(
            claim_fomo_bonus(&mut state, &mut entry, key(tag), &at(101, 1_000_000)),
            Err(StakingError::NotLastStaker)
        );
        assert_eq!(entry, UserStake::new(key(tag)));
    }
    assert_eq!(state, new_ledger());
}

#[test]
fn the_all_zero_identity_may_deposit_and_claim_like_any_other() {
    let mut state = new_ledger();
    let mut entry = UserStake::new(key(0));
    stake(&mut state, &mut entry, key(0), 5, &at(100, 1_000), TransferOutcome::Completed).unwrap();
    assert_eq!(state.last_staker, Some(key(0)));
    assert!(window_is_consistent(&state));
    assert_eq!(
        claim_fomo_bonus(&mut state, &mut entry, key(0), &at(110, 1_000 + 86_401)),
        Ok(FomoBonusEvent { user: key(0), bonus: 5 })
    );
    assert_eq!(state.last_staker, None);
    assert_eq!(
        claim_fomo_bonus(&mut state, &mut entry, key(0), &at(120, 1_000_000)),
        Err(StakingError::NotLastStaker)
    );
}

#[test]
fn every_deposit_restarts_the_window() {
    let mut state = new_ledger();
    let mut entry = UserStake::new(key(10));
    stake(&mut state, &mut entry, key(10), 5, &at(100, 1_000), TransferOutcome::Completed).unwrap();
    stake(&mut state, &mut entry, key(10), 5, &at(200, 80_000), TransferOutcome::Completed).unwrap();
    assert_eq!(
        claim_fomo_bonus(&mut state, &mut entry, key(10), &at(300, 1_000 + 86_401)),
        Err(StakingError::FomoWindowOpen)
    );
    assert!(claim_fomo_bonus(&mut state, &mut entry, key(10), &at(300, 80_000 + 86_401)).is_ok());
}

#[test]
fn unstake_leaves_the_window_with_its_depositor() {
    let mut state = new_ledger();
    let mut entry = UserStake::new(key(10));
    stake(&mut state, &mut entry, key(10), 5, &at(100, 1_000), TransferOutcome::Completed).unwrap();
    unstake(&mut state, &mut entry, key(10), &at(110, 1_010), TransferOutcome::Completed).unwrap();
    assert_eq!(
        claim_fomo_bonus(&mut state, &mut entry, key(10), &at(120, 1_000 + 86_401)),
        Ok(FomoBonusEvent { user: key(10), bonus: 5 })
    );
    assert_eq!(entry.credits, 55);
    assert_eq!(entry.last_credit_slot, 110);
}

#[test]
fn window_record_stays_consistent_over_a_run_of_operations() {
    let mut state = new_ledger();
    assert!(window_is_consistent(&state));
    let mut entry_a = UserStake::new(key(10));
    let mut entry_b = UserStake::new(key(11));
    stake(&mut state, &mut entry_a, key(10), 5, &at(100, 1_000), TransferOutcome::Completed).unwrap();
    assert!(window_is_consistent(&state));
    let _ = stake(&mut state, &mut entry_b, key(11), 0, &at(101, 1_001), TransferOutcome::Completed);
    assert!(window_is_consistent(&state));
    let _ = claim_fomo_bonus(&mut state, &mut entry_b, key(11), &at(102, 90_000));
    assert!(window_is_consistent(&state));
    stake(&mut state, &mut entry_b, key(11), 7, &at(103, 2_000), TransferOutcome::Completed).unwrap();
    assert!(window_is_consistent(&state));
    unstake(&mut state, &mut entry_a, key(10), &at(104, 2_001), TransferOutcome::Completed).unwrap();
    assert!(window_is_consistent(&state));
    claim_fomo_bonus(&mut state, &mut entry_b, key(11), &at(105, 2_000 + 86_401)).unwrap();
    assert!(window_is_consistent(&state));
    assert_eq!(state.last_stake_time, 0);
    stake(&mut state, &mut entry_a, key(10), 5, &at(106, 100_000), TransferOutcome::Completed).unwrap();
    assert!(window_is_consistent(&state));
    assert_eq!(state.last_staker, Some(key(10)));
}

#[test]
fn deposit_at_time_zero_leaves_a_depositor_without_a_time() {
    let mut state = new_ledger();
    let mut entry = UserStake::new(key(10));
    stake(&mut state, &mut entry, key(10), 5, &at(100, 0), TransferOutcome::Completed).unwrap();
    assert_eq!(state.last_staker, Some(key(10)));
    assert_eq!(state.last_stake_time, 0);
    assert!(!window_is_consistent(&state));
}
