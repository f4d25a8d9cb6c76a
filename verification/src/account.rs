//! The accounts of a transaction, as a split sees them.

use crate::error::SplitError;
use crate::state::StakeStateV2;
use pinocchio::pubkey::Pubkey;
use vstd::prelude::*;

verus! {

/// One account of the transaction, as it stands before or after a split.
#[derive(Clone, Copy, Debug, PartialEq, Eq)]
pub struct StakeAccount {
    /// The account's address.
    pub key: Pubkey,
    /// Whether the owner of `key` signed the transaction.
    pub is_signer: bool,
    /// The account's balance.
    pub lamports: u64,
    /// The size of the account's data in bytes.
    pub data_len: usize,
    /// The state that the account's data holds; `None` where it holds none.
    pub state: Option<StakeStateV2>,
}

/// The key of `account` if it signed.
pub open spec fn signer_key(account: StakeAccount) -> Option<Pubkey> {
    if account.is_signer {
        Some(account.key)
    } else {
        None
    }
}

/// The keys of the accounts that signed, in the order of the accounts.
pub open spec fn signer_keys(accounts: Seq<StakeAccount>) -> Seq<Pubkey> {
    accounts.filter_map(|account: StakeAccount| signer_key(account))
}

/// A key is among the signer keys exactly when some account with that key
/// signed, wherever in the transaction it stands.
pub proof fn lemma_signer_keys_are_the_keys_of_signers(accounts: Seq<StakeAccount>, key: Pubkey)
    ensures
        signer_keys(accounts).contains(key) <==> exists|i: int|
            0 <= i < accounts.len() && (#[trigger] accounts[i]).is_signer && accounts[i].key
                == key,
    decreases accounts.len(),
{
    if accounts.len() > 0 {
        let rest = accounts.drop_last();
        let last = accounts.last();
        let keys = signer_keys(accounts);
        lemma_signer_keys_are_the_keys_of_signers(rest, key);
        assert(keys == if last.is_signer {
            signer_keys(rest).push(last.key)
        } else {
            signer_keys(rest)
        });
        if keys.contains(key) {
            let k = choose|k: int| 0 <= k < keys.len() && keys[k] == key;
            if k < signer_keys(rest).len() {
                assert(signer_keys(rest)[k] == key);
                let i = choose|i: int|
                    0 <= i < rest.len() && (#[trigger] rest[i]).is_signer && rest[i].key == key;
                assert(accounts[i] == rest[i]);
            } else {
                assert(accounts[accounts.len() - 1] == last);
            }
        }
        if exists|i: int|
            0 <= i < accounts.len() && (#[trigger] accounts[i]).is_signer && accounts[i].key
                == key {
            let i = choose|i: int|
                0 <= i < accounts.len() && (#[trigger] accounts[i]).is_signer && accounts[i].key
                    == key;
            if i < rest.len() {
                assert(rest[i] == accounts[i]);
                let k = choose|k: int|
                    0 <= k < signer_keys(rest).len() && signer_keys(rest)[k] == key;
                assert(keys[k] == key);
            } else {
                assert(keys[keys.len() - 1] == key);
            }
        }
    }
}

/// Gathers the key of every account that signed the transaction, whatever the
/// account is there for.
pub fn collect_signers(accounts: &[StakeAccount]) -> (signers: Vec<Pubkey>)
    ensures
        signers@ == signer_keys(accounts@),
{
    let mut signers: Vec<Pubkey> = Vec::new();
    let mut i: usize = 0;
    while i < accounts.len()
        invariant
            i <= accounts.len(),
            signers@ == signer_keys(accounts@.take(i as int)),
        decreases accounts.len() - i,
    {
        proof {
            accounts@.lemma_filter_map_take_succ(|account: StakeAccount| signer_key(account), i as int);
        }
        if accounts[i].is_signer {
            signers.push(accounts[i].key);
        }
        i += 1;
    }
    proof {
        accounts@.lemma_take_len();
    }
    signers
}

impl StakeAccount {
    /// The stake that the account delegates: none unless it holds a
    /// delegation.
    pub open spec fn delegated_stake(self) -> nat {
        match self.state {
            Some(StakeStateV2::Stake(_, stake, _)) => stake.delegation.stake as nat,
            _ => 0,
        }
    }

    /// The reserve that the account has on record: none unless its
    /// authorities and rent are set.
    pub open spec fn recorded_reserve(self) -> nat {
        match self.state {
            Some(StakeStateV2::Initialized(meta)) => meta.rent_exempt_reserve as nat,
            Some(StakeStateV2::Stake(meta, _, _)) => meta.rent_exempt_reserve as nat,
            _ => 0,
        }
    }

    /// Whether the balance covers the recorded reserve and, on top of it,
    /// all that the account delegates.
    pub open spec fn backs_delegation(self) -> bool {
        self.recorded_reserve() + self.delegated_stake() <= self.lamports
    }

    /// This account with another balance.
    pub open spec fn with_lamports(self, lamports: u64) -> StakeAccount {
        StakeAccount { lamports, ..self }
    }
}

/// Moves `lamports` from the balance of `source` to that of `destination`.
/// Refuses with `InsufficientFunds` when `source` holds less, and with
/// `ArithmeticOverflow` when the balance of `destination` would exceed what
/// a balance can hold. Where it refuses, both accounts stay as they were.
pub fn relocate_lamports(
    source: &mut StakeAccount,
    destination: &mut StakeAccount,
    lamports: u64,
) -> (result: Result<(), SplitError>)
    ensures
        lamports > old(source).lamports ==> ({
            &&& result == Err::<(), SplitError>(SplitError::InsufficientFunds)
            &&& *final(source) == *old(source)
            &&& *final(destination) == *old(destination)
        }),
        lamports <= old(source).lamports && old(destination).lamports + lamports > u64::MAX
            ==> ({
            &&& result == Err::<(), SplitError>(SplitError::ArithmeticOverflow)
            &&& *final(source) == *old(source)
            &&& *final(destination) == *old(destination)
        }),
        lamports <= old(source).lamports && old(destination).lamports + lamports <= u64::MAX
            ==> ({
            &&& result == Ok::<(), SplitError>(())
            &&& *final(source) == old(source).with_lamports(
                (old(source).lamports - lamports) as u64,
            )
            &&& *final(destination) == old(destination).with_lamports(
                (old(destination).lamports + lamports) as u64,
            )
        }),
{
    let debited = match source.lamports.checked_sub(lamports) {
        Some(balance) => balance,
        None => {
            return Err(SplitError::InsufficientFunds);
        },
    };
    let credited = match destination.lamports.checked_add(lamports) {
        Some(balance) => balance,
        None => {
            return Err(SplitError::ArithmeticOverflow);
        },
    };
    source.lamports = debited;
    destination.lamports = credited;
    Ok(())
}

} // verus!
