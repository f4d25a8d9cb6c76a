//! The split itself: which requests are refused, and what the two accounts
//! hold after one that is accepted.

use crate::account::{collect_signers, relocate_lamports, signer_keys, StakeAccount};
use crate::error::SplitError;
use crate::state::{StakeActivationStatus, StakeAuthorize, StakeStateV2, STAKE_STATE_LEN};
use crate::validate::{split_amount_solvent, validate_split_amount, ValidatedSplitInfo};
use pinocchio::pubkey::{pubkey_eq, Pubkey};
use vstd::prelude::*;

verus! {

/// What the runtime says at the time of a split.
#[derive(Clone, Copy, Debug, PartialEq, Eq)]
pub struct SplitEnvironment {
    /// The least amount that a delegation may hold.
    pub minimum_delegation: u64,
    /// The balance that the rent policy in force asks of an account of the
    /// destination's size.
    pub destination_rent_exempt_reserve: u64,
    /// How much of the source's delegation is effective, activating and
    /// deactivating in the current epoch. It is read only where the source
    /// holds a delegation.
    pub source_activation: StakeActivationStatus,
}

/// The source and the destination after a split.
#[derive(Clone, Copy, Debug, PartialEq, Eq)]
pub struct SplitOutcome {
    pub source: StakeAccount,
    pub destination: StakeAccount,
}

/// How a split divides stake: what leaves the delegation of the source, and
/// what the destination delegates.
#[derive(Clone, Copy, Debug, PartialEq, Eq)]
pub struct StakeDivision {
    pub remaining_stake_delta: u64,
    pub split_stake_amount: u64,
}

/// The division of stake for a split of `split_lamports`.
///
/// Where nothing stays in the source, the amount less the source's own
/// reserve both leaves the source and arrives at the destination, whatever
/// the destination held before. Otherwise the whole amount leaves the
/// source's delegation, and the destination delegates it less what it lacks
/// of its reserve. Both subtractions stop at zero.
pub open spec fn stake_division(
    split_lamports: u64,
    source_remaining_balance: u64,
    source_rent_exempt_reserve: u64,
    destination_lamports: u64,
    destination_rent_exempt_reserve: u64,
) -> StakeDivision {
    if source_remaining_balance == 0 {
        let moved = split_lamports.saturating_sub(source_rent_exempt_reserve);
        StakeDivision { remaining_stake_delta: moved, split_stake_amount: moved }
    } else {
        StakeDivision {
            remaining_stake_delta: split_lamports,
            split_stake_amount: split_lamports.saturating_sub(
                destination_rent_exempt_reserve.saturating_sub(destination_lamports),
            ),
        }
    }
}

/// Whether both delegations stay at or above `minimum_delegation`: the
/// destination's always, the source's where anything stays in the source.
pub open spec fn keeps_minimum_delegation(
    source_stake: u64,
    split_lamports: u64,
    source_remaining_balance: u64,
    source_rent_exempt_reserve: u64,
    destination_lamports: u64,
    destination_rent_exempt_reserve: u64,
    minimum_delegation: u64,
) -> bool {
    &&& source_remaining_balance != 0 ==> source_stake.saturating_sub(split_lamports)
        >= minimum_delegation
    &&& stake_division(
        split_lamports,
        source_remaining_balance,
        source_rent_exempt_reserve,
        destination_lamports,
        destination_rent_exempt_reserve,
    ).split_stake_amount >= minimum_delegation
}

/// Divides the stake of a source that delegates `source_stake`, after
/// `validated` has found the amount solvent. Refuses with
/// `InsufficientDelegation` exactly when a delegation would fall below
/// `minimum_delegation`.
pub fn divide_stake(
    source_stake: u64,
    split_lamports: u64,
    validated: &ValidatedSplitInfo,
    source_rent_exempt_reserve: u64,
    destination_lamports: u64,
    minimum_delegation: u64,
) -> (result: Result<StakeDivision, SplitError>)
    ensures
        result == (if keeps_minimum_delegation(
            source_stake,
            split_lamports,
            validated.source_remaining_balance,
            source_rent_exempt_reserve,
            destination_lamports,
            validated.destination_rent_exempt_reserve,
            minimum_delegation,
        ) {
            Ok::<StakeDivision, SplitError>(
                stake_division(
                    split_lamports,
                    validated.source_remaining_balance,
                    source_rent_exempt_reserve,
                    destination_lamports,
                    validated.destination_rent_exempt_reserve,
                ),
            )
        } else {
            Err(SplitError::InsufficientDelegation)
        }),
{
    let division = if validated.source_remaining_balance == 0 {
        let moved: u64 = split_lamports.saturating_sub(source_rent_exempt_reserve);
        StakeDivision { remaining_stake_delta: moved, split_stake_amount: moved }
    } else {
        if source_stake.saturating_sub(split_lamports) < minimum_delegation {
            return Err(SplitError::InsufficientDelegation);
        }
        StakeDivision {
            remaining_stake_delta: split_lamports,
            split_stake_amount: split_lamports.saturating_sub(
                validated.destination_rent_exempt_reserve.saturating_sub(destination_lamports),
            ),
        }
    };
    if division.split_stake_amount < minimum_delegation {
        return Err(SplitError::InsufficientDelegation);
    }
    Ok(division)
}

/// Why the state of `source` forbids the split, if it does. A delegation
/// and an initialized account ask for the signature of their staker, an
/// empty account for its own; any other account cannot be split. The checks
/// run in the order written.
pub open spec fn source_refusal(
    source: StakeAccount,
    destination_lamports: u64,
    signers: Seq<Pubkey>,
    split_lamports: u64,
    environment: SplitEnvironment,
) -> Option<SplitError> {
    match source.state {
        Some(StakeStateV2::Stake(meta, stake, _)) => {
            if !signers.contains(meta.authorized.staker) {
                Some(SplitError::MissingRequiredSignature)
            } else if !split_amount_solvent(
                source.lamports,
                destination_lamports,
                split_lamports,
                meta.rent_exempt_reserve,
                environment.destination_rent_exempt_reserve,
            ) {
                Some(SplitError::InsufficientFunds)
            } else if !keeps_minimum_delegation(
                stake.delegation.stake,
                split_lamports,
                (source.lamports - split_lamports) as u64,
                meta.rent_exempt_reserve,
                destination_lamports,
                environment.destination_rent_exempt_reserve,
                environment.minimum_delegation,
            ) {
                Some(SplitError::InsufficientDelegation)
            } else if stake_division(
                split_lamports,
                (source.lamports - split_lamports) as u64,
                meta.rent_exempt_reserve,
                destination_lamports,
                environment.destination_rent_exempt_reserve,
            ).remaining_stake_delta > stake.delegation.stake {
                Some(SplitError::InvalidDelegationAmount)
            } else {
                None
            }
        },
        Some(StakeStateV2::Initialized(meta)) => {
            if !signers.contains(meta.authorized.staker) {
                Some(SplitError::MissingRequiredSignature)
            } else if !split_amount_solvent(
                source.lamports,
                destination_lamports,
                split_lamports,
                meta.rent_exempt_reserve,
                environment.destination_rent_exempt_reserve,
            ) {
                Some(SplitError::InsufficientFunds)
            } else {
                None
            }
        },
        Some(StakeStateV2::Uninitialized) => {
            if !source.is_signer {
                Some(SplitError::MissingRequiredSignature)
            } else {
                None
            }
        },
        Some(StakeStateV2::RewardsPool) => Some(SplitError::InvalidAccountData),
        None => Some(SplitError::InvalidAccountData),
    }
}

/// Why a split of `split_lamports` from `accounts[0]` to `accounts[1]` is
/// refused, if it is: the first check that fails, in the order written.
pub open spec fn split_refusal(
    accounts: Seq<StakeAccount>,
    split_lamports: u64,
    environment: SplitEnvironment,
) -> Option<SplitError> {
    if accounts.len() < 2 {
        Some(SplitError::NotEnoughAccountKeys)
    } else if accounts[1].data_len != STAKE_STATE_LEN {
        Some(SplitError::InvalidAccountData)
    } else if accounts[1].state != Some(StakeStateV2::Uninitialized) {
        Some(SplitError::InvalidAccountData)
    } else if split_lamports > accounts[0].lamports {
        Some(SplitError::InsufficientFunds)
    } else if accounts[0].key == accounts[1].key {
        Some(SplitError::AccountBorrowFailed)
    } else {
        match source_refusal(
            accounts[0],
            accounts[1].lamports,
            signer_keys(accounts),
            split_lamports,
            environment,
        ) {
            Some(error) => Some(error),
            None => if accounts[1].lamports + split_lamports > u64::MAX {
                Some(SplitError::ArithmeticOverflow)
            } else {
                None
            },
        }
    }
}

/// The state of the source after an accepted split that leaves something
/// in it: a delegation gives up the stake that the division takes, any other
/// state stays.
pub open spec fn source_state_after(
    source: StakeAccount,
    destination_lamports: u64,
    split_lamports: u64,
    environment: SplitEnvironment,
) -> Option<StakeStateV2> {
    match source.state {
        Some(StakeStateV2::Stake(meta, stake, flags)) => Some(
            StakeStateV2::Stake(
                meta,
                stake.reduced_by(
                    stake_division(
                        split_lamports,
                        (source.lamports - split_lamports) as u64,
                        meta.rent_exempt_reserve,
                        destination_lamports,
                        environment.destination_rent_exempt_reserve,
                    ).remaining_stake_delta,
                ),
                flags,
            ),
        ),
        state => state,
    }
}

/// The state of the destination after an accepted split: that of the
/// source, with the destination's own reserve and, for a delegation, the
/// stake that the division grants. Authorities, lockup, validator, epochs,
/// rate, observed credits and flags are those of the source. The
/// destination of an empty source stays empty.
pub open spec fn destination_state_after(
    source: StakeAccount,
    destination_lamports: u64,
    split_lamports: u64,
    environment: SplitEnvironment,
) -> StakeStateV2 {
    match source.state {
        Some(StakeStateV2::Stake(meta, stake, flags)) => StakeStateV2::Stake(
            meta.with_reserve(environment.destination_rent_exempt_reserve),
            stake.split_off(
                stake_division(
                    split_lamports,
                    (source.lamports - split_lamports) as u64,
                    meta.rent_exempt_reserve,
                    destination_lamports,
                    environment.destination_rent_exempt_reserve,
                ).split_stake_amount,
            ),
            flags,
        ),
        Some(StakeStateV2::Initialized(meta)) => StakeStateV2::Initialized(
            meta.with_reserve(environment.destination_rent_exempt_reserve),
        ),
        Some(StakeStateV2::Uninitialized) => StakeStateV2::Uninitialized,
        Some(StakeStateV2::RewardsPool) => StakeStateV2::Uninitialized,
        None => StakeStateV2::Uninitialized,
    }
}

/// What `accounts[0]` and `accounts[1]` hold after an accepted split of
/// `split_lamports`. The amount has moved; the destination has taken on the
/// state of the source; a source that gave everything is empty.
pub open spec fn split_outcome(
    accounts: Seq<StakeAccount>,
    split_lamports: u64,
    environment: SplitEnvironment,
) -> SplitOutcome {
    let source = accounts[0];
    let destination = accounts[1];
    SplitOutcome {
        source: StakeAccount {
            lamports: (source.lamports - split_lamports) as u64,
            state: if split_lamports == source.lamports {
                Some(StakeStateV2::Uninitialized)
            } else {
                source_state_after(source, destination.lamports, split_lamports, environment)
            },
            ..source
        },
        destination: StakeAccount {
            lamports: (destination.lamports + split_lamports) as u64,
            state: Some(
                destination_state_after(source, destination.lamports, split_lamports, environment),
            ),
            ..destination
        },
    }
}

/// Splits `split_lamports` off the stake account `accounts[0]` into the
/// empty account `accounts[1]`.
///
/// `accounts` are the accounts of the transaction in their order. Every one
/// of them that signed counts as a signer, whatever it is there for. Source
/// and destination have to be two accounts: one account cannot be split into
/// itself. The split is refused exactly on the requests for which
/// `split_refusal` names an error, and with that error; on all others the
/// result is `split_outcome`. The accounts handed in are not changed: the
/// caller stores the outcome.
pub fn process_split(
    accounts: &[StakeAccount],
    split_lamports: u64,
    environment: &SplitEnvironment,
) -> (result: Result<SplitOutcome, SplitError>)
    ensures
        (match result {
            Ok(outcome) => {
                &&& split_refusal(accounts@, split_lamports, *environment) is None
                &&& outcome == split_outcome(accounts@, split_lamports, *environment)
            },
            Err(error) => split_refusal(accounts@, split_lamports, *environment) == Some(error),
        }),
{
    let signers = collect_signers(accounts);
    if accounts.len() < 2 {
        return Err(SplitError::NotEnoughAccountKeys);
    }
    let mut source: StakeAccount = accounts[0];
    let mut destination: StakeAccount = accounts[1];

    if destination.data_len != StakeStateV2::size_of() {
        return Err(SplitError::InvalidAccountData);
    }
    match destination.state {
        Some(StakeStateV2::Uninitialized) => {},
        _ => {
            return Err(SplitError::InvalidAccountData);
        },
    }
    if split_lamports > source.lamports {
        return Err(SplitError::InsufficientFunds);
    }
    if pubkey_eq(&source.key, &destination.key) {
        return Err(SplitError::AccountBorrowFailed);
    }
    match source.state {
        Some(StakeStateV2::Stake(source_meta, stake, stake_flags)) => {
            if let Err(error) = source_meta.authorized.check(
                signers.as_slice(),
                StakeAuthorize::Staker,
            ) {
                return Err(error);
            }
            let is_active = environment.source_activation.is_active();
            let validated = match validate_split_amount(
                source.lamports,
                destination.lamports,
                split_lamports,
                &source_meta,
                environment.destination_rent_exempt_reserve,
                environment.minimum_delegation,
                is_active,
            ) {
                Ok(validated) => validated,
                Err(error) => {
                    return Err(error);
                },
            };
            let division = match divide_stake(
                stake.delegation.stake,
                split_lamports,
                &validated,
                source_meta.rent_exempt_reserve,
                destination.lamports,
                environment.minimum_delegation,
            ) {
                Ok(division) => division,
                Err(error) => {
                    return Err(error);
                },
            };
            let mut source_stake = stake;
            let destination_stake = match source_stake.split(
                division.remaining_stake_delta,
                division.split_stake_amount,
            ) {
                Ok(destination_stake) => destination_stake,
                Err(error) => {
                    return Err(error);
                },
            };
            let mut destination_meta = source_meta;
            destination_meta.rent_exempt_reserve = validated.destination_rent_exempt_reserve;

            source.state = Some(StakeStateV2::Stake(source_meta, source_stake, stake_flags));
            destination.state = Some(
                StakeStateV2::Stake(destination_meta, destination_stake, stake_flags),
            );
        },
        Some(StakeStateV2::Initialized(source_meta)) => {
            if let Err(error) = source_meta.authorized.check(
                signers.as_slice(),
                StakeAuthorize::Staker,
            ) {
                return Err(error);
            }
            let validated = match validate_split_amount(
                source.lamports,
                destination.lamports,
                split_lamports,
                &source_meta,
                environment.destination_rent_exempt_reserve,
                0,
                false,
            ) {
                Ok(validated) => validated,
                Err(error) => {
                    return Err(error);
                },
            };
            let mut destination_meta = source_meta;
            destination_meta.rent_exempt_reserve = validated.destination_rent_exempt_reserve;

            destination.state = Some(StakeStateV2::Initialized(destination_meta));
        },
        Some(StakeStateV2::Uninitialized) => {
            if !source.is_signer {
                return Err(SplitError::MissingRequiredSignature);
            }
        },
        Some(StakeStateV2::RewardsPool) => {
            return Err(SplitError::InvalidAccountData);
        },
        None => {
            return Err(SplitError::InvalidAccountData);
        },
    }
    if split_lamports == source.lamports {
        source.state = Some(StakeStateV2::Uninitialized);
    }
    match relocate_lamports(&mut source, &mut destination, split_lamports) {
        Ok(()) => Ok(SplitOutcome { source, destination }),
        Err(error) => Err(error),
    }
}

} // verus!
