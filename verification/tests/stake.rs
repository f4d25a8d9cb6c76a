use stake_split::error::SplitError;
use stake_split::split::{divide_stake, StakeDivision};
use stake_split::state::{Delegation, Stake, StakeActivationStatus};
use stake_split::validate::ValidatedSplitInfo;

const RESERVE: u64 = 2_282_880;

fn stake(amount: u64) -> Stake {
    Stake {
        delegation: Delegation {
            voter_pubkey: [5u8; 32],
            stake: amount,
            activation_epoch: 11,
            deactivation_epoch: u64::MAX,
            warmup_cooldown_rate: 0x3fd0_0000_0000_0000,
        },
        credits_observed: 77,
    }
}

fn validated(source_remaining_balance: u64, destination_rent_exempt_reserve: u64) -> ValidatedSplitInfo {
    ValidatedSplitInfo { source_remaining_balance, destination_rent_exempt_reserve }
}

#[test]
fn stake_split_takes_the_delta_and_grants_the_amount() {
    let mut source = stake(1_000_000);
    let granted = source.split(400_000, 300_000);
    assert_eq!(granted, Ok(stake(300_000)));
    assert_eq!(source, stake(600_000));
}

#[test]
fn stake_split_may_take_everything() {
    let mut source = stake(1_000_000);
    assert_eq!(source.split(1_000_000, 1_000_000), Ok(stake(1_000_000)));
    assert_eq!(source, stake(0));
}

#[test]
fn stake_split_refuses_more_than_is_delegated() {
    let mut source = stake(1_000_000);
    assert_eq!(source.split(1_000_001, 5), Err(SplitError::InvalidDelegationAmount));
    assert_eq!(source, stake(1_000_000));
}

#[test]
fn a_position_is_active_when_some_stake_is_effective() {
    let status = |effective| StakeActivationStatus { effective, activating: 9, deactivating: 9 };
    assert!(!status(0).is_active());
    assert!(status(1).is_active());
    assert!(status(u64::MAX).is_active());
}

#[test]
fn a_full_split_moves_the_amount_less_the_source_reserve() {
    assert_eq!(
        divide_stake(1_000_000, 3_282_880, &validated(0, RESERVE), RESERVE, 0, 1),
        Ok(StakeDivision { remaining_stake_delta: 1_000_000, split_stake_amount: 1_000_000 })
    );
}

#[test]
fn a_full_split_grants_the_same_whatever_the_destination_holds() {
    for prefunded in [0, 1, RESERVE, 50 * RESERVE, u64::MAX] {
        assert_eq!(
            divide_stake(1_000_000, 3_282_880, &validated(0, RESERVE), RESERVE, prefunded, 1),
            Ok(StakeDivision { remaining_stake_delta: 1_000_000, split_stake_amount: 1_000_000 })
        );
    }
}

#[test]
fn a_full_split_ignores_a_larger_destination_reserve() {
    assert_eq!(
        divide_stake(1_000_000, 3_282_880, &validated(0, 9 * RESERVE), RESERVE, 0, 1),
        Ok(StakeDivision { remaining_stake_delta: 1_000_000, split_stake_amount: 1_000_000 })
    );
}

#[test]
fn a_full_split_below_the_source_reserve_moves_no_stake() {
    assert_eq!(
        divide_stake(0, RESERVE - 1, &validated(0, 0), RESERVE, 0, 0),
        Ok(StakeDivision { remaining_stake_delta: 0, split_stake_amount: 0 })
    );
    assert_eq!(
        divide_stake(0, RESERVE - 1, &validated(0, 0), RESERVE, 0, 1),
        Err(SplitError::InsufficientDelegation)
    );
}

#[test]
fn a_partial_split_pays_the_top_up_out_of_the_amount() {
    assert_eq!(
        divide_stake(10_000_000, 3_000_000, &validated(9_282_880, RESERVE), RESERVE, 0, 1),
        Ok(StakeDivision {
            remaining_stake_delta: 3_000_000,
            split_stake_amount: 3_000_000 - RESERVE,
        })
    );
    assert_eq!(
        divide_stake(10_000_000, 3_000_000, &validated(9_282_880, RESERVE), RESERVE, 282_880, 1),
        Ok(StakeDivision { remaining_stake_delta: 3_000_000, split_stake_amount: 1_000_000 })
    );
}

#[test]
fn a_partial_split_into_a_funded_destination_grants_the_whole_amount() {
    for prefunded in [RESERVE, RESERVE + 1, u64::MAX] {
        assert_eq!(
            divide_stake(10_000_000, 3_000_000, &validated(9_282_880, RESERVE), RESERVE, prefunded, 1),
            Ok(StakeDivision { remaining_stake_delta: 3_000_000, split_stake_amount: 3_000_000 })
        );
    }
}

#[test]
fn a_partial_split_may_not_leave_less_than_the_minimum() {
    assert_eq!(
        divide_stake(10_000_000, 9_000_001, &validated(5, RESERVE), RESERVE, RESERVE, 1_000_000),
        Err(SplitError::InsufficientDelegation)
    );
    assert_eq!(
        divide_stake(10_000_000, 9_000_000, &validated(5, RESERVE), RESERVE, RESERVE, 1_000_000),
        Ok(StakeDivision { remaining_stake_delta: 9_000_000, split_stake_amount: 9_000_000 })
    );
}

#[test]
fn a_partial_split_may_not_grant_less_than_the_minimum() {
    assert_eq!(
        divide_stake(10_000_000, 999_999, &validated(5, RESERVE), RESERVE, RESERVE, 1_000_000),
        Err(SplitError::InsufficientDelegation)
    );
    assert_eq!(
        divide_stake(10_000_000, RESERVE, &validated(5, RESERVE), RESERVE, 0, 1),
        Err(SplitError::InsufficientDelegation)
    );
    assert_eq!(
        divide_stake(10_000_000, RESERVE + 1, &validated(5, RESERVE), RESERVE, 0, 1),
        Ok(StakeDivision { remaining_stake_delta: RESERVE + 1, split_stake_amount: 1 })
    );
}

#[test]
fn a_partial_split_of_more_than_is_delegated_passes_a_minimum_of_zero() {
    assert_eq!(
        divide_stake(1_000, 5_000, &validated(5, RESERVE), RESERVE, RESERVE, 0),
        Ok(StakeDivision { remaining_stake_delta: 5_000, split_stake_amount: 5_000 })
    );
    assert_eq!(
        divide_stake(1_000, 5_000, &validated(5, RESERVE), RESERVE, RESERVE, 1),
        Err(SplitError::InsufficientDelegation)
    );
}
