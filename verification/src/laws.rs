//! What holds of every split.

use crate::account::{signer_keys, StakeAccount};
use crate::error::SplitError;
use crate::split::{split_outcome, split_refusal, stake_division, SplitEnvironment};
use crate::state::{StakeStateV2, STAKE_STATE_LEN};
use crate::validate::split_amount_solvent;
use vstd::prelude::*;

verus! {

/// An accepted split neither makes nor loses balance: what leaves the source
/// arrives at the destination, and the two accounts together hold after it
/// what they held before.
pub proof fn lemma_split_conserves_lamports(
    accounts: Seq<StakeAccount>,
    split_lamports: u64,
    environment: SplitEnvironment,
)
    requires
        split_refusal(accounts, split_lamports, environment) is None,
    ensures
        ({
            let outcome = split_outcome(accounts, split_lamports, environment);
            &&& outcome.source.lamports == accounts[0].lamports - split_lamports
            &&& outcome.destination.lamports == accounts[1].lamports + split_lamports
            &&& outcome.source.lamports + outcome.destination.lamports == accounts[0].lamports
                + accounts[1].lamports
        }),
{
}

/// A division of stake grants the destination no more than it takes from
/// the source, and takes from the source no more than the amount split.
pub proof fn lemma_division_grants_no_more_than_it_takes(
    split_lamports: u64,
    source_remaining_balance: u64,
    source_rent_exempt_reserve: u64,
    destination_lamports: u64,
    destination_rent_exempt_reserve: u64,
)
    ensures
        ({
            let division = stake_division(
                split_lamports,
                source_remaining_balance,
                source_rent_exempt_reserve,
                destination_lamports,
                destination_rent_exempt_reserve,
            );
            division.split_stake_amount <= division.remaining_stake_delta <= split_lamports
        }),
{
}

/// An accepted split never makes stake: the two accounts together delegate
/// after it no more than the source delegated before.
pub proof fn lemma_split_creates_no_stake(
    accounts: Seq<StakeAccount>,
    split_lamports: u64,
    environment: SplitEnvironment,
)
    requires
        split_refusal(accounts, split_lamports, environment) is None,
    ensures
        ({
            let outcome = split_outcome(accounts, split_lamports, environment);
            outcome.source.delegated_stake() + outcome.destination.delegated_stake()
                <= accounts[0].delegated_stake()
        }),
{
}

/// An accepted split of a delegation keeps all of its stake delegated: the
/// two accounts together delegate after it exactly what the source
/// delegated before. This is stated of a split that takes the whole balance
/// of a source whose balance backed its delegation, and of a split that
/// leaves something in the source and goes to a destination that already
/// held its reserve. Any other accepted split delegates less: stake is spent
/// on the destination's reserve, or stays behind in the emptied source.
pub proof fn lemma_split_preserves_stake(
    accounts: Seq<StakeAccount>,
    split_lamports: u64,
    environment: SplitEnvironment,
)
    requires
        split_refusal(accounts, split_lamports, environment) is None,
        accounts[0].state matches Some(StakeStateV2::Stake(_, _, _)),
        split_lamports == accounts[0].lamports ==> accounts[0].backs_delegation(),
        split_lamports != accounts[0].lamports ==> accounts[1].lamports
            >= environment.destination_rent_exempt_reserve,
    ensures
        ({
            let outcome = split_outcome(accounts, split_lamports, environment);
            outcome.source.delegated_stake() + outcome.destination.delegated_stake()
                == accounts[0].delegated_stake()
        }),
{
}

/// A source that gives its whole balance is empty afterwards, whatever it
/// held before.
pub proof fn lemma_full_split_empties_source(
    accounts: Seq<StakeAccount>,
    split_lamports: u64,
    environment: SplitEnvironment,
)
    requires
        split_refusal(accounts, split_lamports, environment) is None,
        split_lamports == accounts[0].lamports,
    ensures
        ({
            let outcome = split_outcome(accounts, split_lamports, environment);
            &&& outcome.source.state == Some(StakeStateV2::Uninitialized)
            &&& outcome.source.lamports == 0
        }),
{
}

/// Funding the destination ahead of a split that takes the whole balance of
/// the source buys no stake: the destination's state after the split, and so
/// what it delegates, is the same whatever it held before, and is what it
/// would be had it held nothing. What a delegation grants is its balance
/// less its own reserve.
pub proof fn lemma_full_split_ignores_prefunding(
    accounts: Seq<StakeAccount>,
    prefunded: u64,
    environment: SplitEnvironment,
)
    requires
        accounts.len() >= 2,
    ensures
        ({
            let funded = split_outcome(
                accounts.update(1, accounts[1].with_lamports(prefunded)),
                accounts[0].lamports,
                environment,
            );
            let unfunded = split_outcome(
                accounts.update(1, accounts[1].with_lamports(0)),
                accounts[0].lamports,
                environment,
            );
            &&& funded.destination.state == unfunded.destination.state
            &&& funded.destination.delegated_stake() == unfunded.destination.delegated_stake()
            &&& accounts[0].state matches Some(StakeStateV2::Stake(meta, _, _))
                ==> funded.destination.delegated_stake() == accounts[0].lamports.saturating_sub(
                meta.rent_exempt_reserve,
            )
        }),
{
}

/// After an accepted split of an account that holds state, neither account
/// owes rent: the destination holds at least the reserve that the rent
/// policy asks of it and has it on record, and the source holds nothing or
/// at least its own.
pub proof fn lemma_split_keeps_rent_exemption(
    accounts: Seq<StakeAccount>,
    split_lamports: u64,
    environment: SplitEnvironment,
)
    requires
        split_refusal(accounts, split_lamports, environment) is None,
        accounts[0].state != Some(StakeStateV2::Uninitialized),
    ensures
        ({
            let outcome = split_outcome(accounts, split_lamports, environment);
            &&& outcome.destination.recorded_reserve()
                == environment.destination_rent_exempt_reserve
            &&& outcome.destination.lamports >= outcome.destination.recorded_reserve()
            &&& outcome.source.lamports == 0 || outcome.source.lamports
                >= accounts[0].recorded_reserve()
        }),
{
}

/// After an accepted split of a delegation, every delegation is at least
/// the minimum: the destination's, and that of a source in which something
/// stays.
pub proof fn lemma_split_keeps_minimum_delegation(
    accounts: Seq<StakeAccount>,
    split_lamports: u64,
    environment: SplitEnvironment,
)
    requires
        split_refusal(accounts, split_lamports, environment) is None,
        accounts[0].state matches Some(StakeStateV2::Stake(_, _, _)),
    ensures
        ({
            let outcome = split_outcome(accounts, split_lamports, environment);
            &&& outcome.destination.delegated_stake() >= environment.minimum_delegation
            &&& split_lamports != accounts[0].lamports ==> outcome.source.delegated_stake()
                >= environment.minimum_delegation
        }),
{
}

/// An accepted split of a source whose balance backs its delegation leaves
/// two accounts whose balances back theirs. This is stated without the
/// splits of a whole balance into a destination whose reserve exceeds what
/// it held together with the reserve of the source: there the destination
/// delegates more than its balance leaves free.
pub proof fn lemma_split_keeps_delegations_backed(
    accounts: Seq<StakeAccount>,
    split_lamports: u64,
    environment: SplitEnvironment,
)
    requires
        split_refusal(accounts, split_lamports, environment) is None,
        accounts[0].backs_delegation(),
        split_lamports == accounts[0].lamports && accounts[0].delegated_stake() > 0
            ==> environment.destination_rent_exempt_reserve <= accounts[0].recorded_reserve()
            + accounts[1].lamports,
    ensures
        ({
            let outcome = split_outcome(accounts, split_lamports, environment);
            &&& outcome.source.backs_delegation()
            &&& outcome.destination.backs_delegation()
        }),
{
}

/// Whether the source's delegation is active changes neither whether a
/// split is accepted nor what comes of it: what has to stay delegated is
/// asked of every delegation alike.
pub proof fn lemma_split_ignores_activation(
    accounts: Seq<StakeAccount>,
    split_lamports: u64,
    environment: SplitEnvironment,
    other: SplitEnvironment,
)
    requires
        other.minimum_delegation == environment.minimum_delegation,
        other.destination_rent_exempt_reserve == environment.destination_rent_exempt_reserve,
    ensures
        split_refusal(accounts, split_lamports, other) == split_refusal(
            accounts,
            split_lamports,
            environment,
        ),
        split_outcome(accounts, split_lamports, other) == split_outcome(
            accounts,
            split_lamports,
            environment,
        ),
{
}

/// The minimum delegation bears on delegations only: the split of an
/// account that delegates nothing is the same under every minimum.
pub proof fn lemma_minimum_delegation_bears_on_delegations_only(
    accounts: Seq<StakeAccount>,
    split_lamports: u64,
    environment: SplitEnvironment,
    other: SplitEnvironment,
)
    requires
        !(accounts[0].state matches Some(StakeStateV2::Stake(_, _, _))),
        other.destination_rent_exempt_reserve == environment.destination_rent_exempt_reserve,
    ensures
        split_refusal(accounts, split_lamports, other) == split_refusal(
            accounts,
            split_lamports,
            environment,
        ),
        split_outcome(accounts, split_lamports, other) == split_outcome(
            accounts,
            split_lamports,
            environment,
        ),
{
}

/// A split that leaves something in the source is refused when the
/// delegation of the source would fall below the minimum: never accepted,
/// and refused with `InsufficientDelegation` on every request that passes
/// the checks that come before.
pub proof fn lemma_partial_split_keeps_minimum_delegation(
    accounts: Seq<StakeAccount>,
    split_lamports: u64,
    environment: SplitEnvironment,
)
    requires
        accounts.len() >= 2,
        split_lamports != accounts[0].lamports,
        accounts[0].state matches Some(StakeStateV2::Stake(_, stake, _))
            && stake.delegation.stake.saturating_sub(split_lamports)
            < environment.minimum_delegation,
    ensures
        split_refusal(accounts, split_lamports, environment) is Some,
        ({
            &&& accounts[1].data_len == STAKE_STATE_LEN
            &&& accounts[1].state == Some(StakeStateV2::Uninitialized)
            &&& accounts[0].key != accounts[1].key
            &&& accounts[0].state matches Some(StakeStateV2::Stake(meta, _, _))
            &&& signer_keys(accounts).contains(meta.authorized.staker)
            &&& split_amount_solvent(
                accounts[0].lamports,
                accounts[1].lamports,
                split_lamports,
                meta.rent_exempt_reserve,
                environment.destination_rent_exempt_reserve,
            )
        }) ==> split_refusal(accounts, split_lamports, environment) == Some(
            SplitError::InsufficientDelegation,
        ),
{
}

/// Only an empty account can receive a split: into a destination in any
/// other state, or whose state cannot be read, every split is refused with
/// `InvalidAccountData`, whatever the source holds.
pub proof fn lemma_occupied_destination_is_refused(
    accounts: Seq<StakeAccount>,
    split_lamports: u64,
    environment: SplitEnvironment,
)
    requires
        accounts.len() >= 2,
        accounts[1].state != Some(StakeStateV2::Uninitialized),
    ensures
        split_refusal(accounts, split_lamports, environment) == Some(
            SplitError::InvalidAccountData,
        ),
{
}

} // verus!
