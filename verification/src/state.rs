//! What a stake account holds.

use crate::error::SplitError;
use crate::pubkey::contains_key;
use pinocchio::pubkey::Pubkey;
use vstd::prelude::*;

verus! {

/// The size in bytes of the record in which a stake account keeps its state.
/// An account of any other size cannot receive a split.
pub const STAKE_STATE_LEN: usize = 200;

/// The two authorities of a stake account.
#[derive(Clone, Copy, Debug, PartialEq, Eq)]
pub struct Authorized {
    /// Who may delegate, deactivate and split.
    pub staker: Pubkey,
    /// Who may withdraw.
    pub withdrawer: Pubkey,
}

/// The role in which an authority acts.
#[derive(Clone, Copy, Debug, PartialEq, Eq)]
pub enum StakeAuthorize {
    Staker,
    Withdrawer,
}

/// Until when withdrawals are locked, and who may lift the lock. A split
/// carries it over unchanged.
#[derive(Clone, Copy, Debug, PartialEq, Eq)]
pub struct Lockup {
    pub unix_timestamp: i64,
    pub epoch: u64,
    pub custodian: Pubkey,
}

/// Authorities and rent of an initialized stake account.
#[derive(Clone, Copy, Debug, PartialEq, Eq)]
pub struct Meta {
    /// The balance below which the account would owe rent.
    pub rent_exempt_reserve: u64,
    pub authorized: Authorized,
    pub lockup: Lockup,
}

/// Stake delegated to a validator.
#[derive(Clone, Copy, Debug, PartialEq, Eq)]
pub struct Delegation {
    /// The vote account the stake is delegated to.
    pub voter_pubkey: Pubkey,
    /// The delegated amount, in the unit of account balances.
    pub stake: u64,
    pub activation_epoch: u64,
    pub deactivation_epoch: u64,
    /// The bit pattern of the warmup and cooldown rate. The rate is only ever
    /// carried along, never computed with.
    pub warmup_cooldown_rate: u64,
}

/// A delegation and the credits seen when rewards were last paid.
#[derive(Clone, Copy, Debug, PartialEq, Eq)]
pub struct Stake {
    pub delegation: Delegation,
    pub credits_observed: u64,
}

/// Flags of a delegated account. A split carries them over unchanged.
#[derive(Clone, Copy, Debug, PartialEq, Eq)]
pub struct StakeFlags {
    pub bits: u8,
}

/// The state of a stake account: exactly one of four.
#[derive(Clone, Copy, Debug, PartialEq, Eq)]
pub enum StakeStateV2 {
    /// An empty account.
    Uninitialized,
    /// Authorities and rent are set, nothing is delegated.
    Initialized(Meta),
    /// The account holds a delegation.
    Stake(Meta, Stake, StakeFlags),
    /// A marker reserved for the system; never part of a split.
    RewardsPool,
}

/// How much of a delegation earns rewards in the current epoch, and how much
/// is still warming up or cooling down.
#[derive(Clone, Copy, Debug, PartialEq, Eq)]
pub struct StakeActivationStatus {
    pub effective: u64,
    pub activating: u64,
    pub deactivating: u64,
}

impl Meta {
    /// This record with another reserve.
    pub open spec fn with_reserve(self, rent_exempt_reserve: u64) -> Meta {
        Meta { rent_exempt_reserve, ..self }
    }
}

impl StakeStateV2 {
    /// The size in bytes of the record that holds a state.
    pub fn size_of() -> (size: usize)
        ensures
            size == STAKE_STATE_LEN,
    {
        STAKE_STATE_LEN
    }
}

impl StakeActivationStatus {
    /// A position is active when any of its stake is effective.
    pub open spec fn active(self) -> bool {
        self.effective > 0
    }

    /// Whether the position is active.
    pub fn is_active(&self) -> (active: bool)
        ensures
            active == self.active(),
    {
        self.effective > 0
    }
}

impl Authorized {
    /// The key that acts in `role`.
    pub open spec fn authority(self, role: StakeAuthorize) -> Pubkey {
        match role {
            StakeAuthorize::Staker => self.staker,
            StakeAuthorize::Withdrawer => self.withdrawer,
        }
    }

    /// Accepts `signers` when the authority for `stake_authorize` is among
    /// them, and refuses with `MissingRequiredSignature` otherwise. The other
    /// authority's signature counts for nothing.
    pub fn check(&self, signers: &[Pubkey], stake_authorize: StakeAuthorize) -> (result: Result<
        (),
        SplitError,
    >)
        ensures
            result == (if signers@.contains(self.authority(stake_authorize)) {
                Ok::<(), SplitError>(())
            } else {
                Err(SplitError::MissingRequiredSignature)
            }),
    {
        let found = match stake_authorize {
            StakeAuthorize::Staker => contains_key(signers, &self.staker),
            StakeAuthorize::Withdrawer => contains_key(signers, &self.withdrawer),
        };
        if found {
            Ok(())
        } else {
            Err(SplitError::MissingRequiredSignature)
        }
    }
}

impl Stake {
    /// The stake that `self` hands to a new account when `split_stake_amount`
    /// is delegated there: the same delegation but for the amount.
    pub open spec fn split_off(self, split_stake_amount: u64) -> Stake {
        Stake {
            delegation: Delegation { stake: split_stake_amount, ..self.delegation },
            credits_observed: self.credits_observed,
        }
    }

    /// `self` after `remaining_stake_delta` has left its delegation.
    pub open spec fn reduced_by(self, remaining_stake_delta: u64) -> Stake {
        Stake {
            delegation: Delegation {
                stake: (self.delegation.stake - remaining_stake_delta) as u64,
                ..self.delegation
            },
            credits_observed: self.credits_observed,
        }
    }

    /// Takes `remaining_stake_delta` out of this delegation and returns the
    /// stake of the new account, which delegates `split_stake_amount` to the
    /// same validator, with the same epochs, rate and observed credits.
    /// Refuses with `InvalidDelegationAmount`, changing nothing, when more
    /// would leave than is delegated.
    pub fn split(&mut self, remaining_stake_delta: u64, split_stake_amount: u64) -> (result:
        Result<Stake, SplitError>)
        ensures
            remaining_stake_delta > old(self).delegation.stake ==> ({
                &&& result == Err::<Stake, SplitError>(SplitError::InvalidDelegationAmount)
                &&& *final(self) == *old(self)
            }),
            remaining_stake_delta <= old(self).delegation.stake ==> ({
                &&& result == Ok::<Stake, SplitError>(old(self).split_off(split_stake_amount))
                &&& *final(self) == old(self).reduced_by(remaining_stake_delta)
            }),
    {
        if remaining_stake_delta > self.delegation.stake {
            return Err(SplitError::InvalidDelegationAmount);
        }
        self.delegation.stake = self.delegation.stake - remaining_stake_delta;
        Ok(
            Stake {
                delegation: Delegation {
                    voter_pubkey: self.delegation.voter_pubkey,
                    stake: split_stake_amount,
                    activation_epoch: self.delegation.activation_epoch,
                    deactivation_epoch: self.delegation.deactivation_epoch,
                    warmup_cooldown_rate: self.delegation.warmup_cooldown_rate,
                },
                credits_observed: self.credits_observed,
            },
        )
    }
}

} // verus!
