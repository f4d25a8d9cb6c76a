//! Whether an amount can leave one account for another without leaving
//! either short of its rent.

use crate::error::SplitError;
use crate::state::Meta;
use vstd::prelude::*;

verus! {

/// What the validation of a split amount found.
#[derive(Clone, Copy, Debug, PartialEq, Eq)]
pub struct ValidatedSplitInfo {
    /// What stays in the source.
    pub source_remaining_balance: u64,
    /// The balance that the destination must hold to owe no rent.
    pub destination_rent_exempt_reserve: u64,
}

/// An amount is solvent when the source holds it, what stays in the source
/// is nothing or at least the source's reserve, and the destination ends
/// with at least its own reserve.
pub open spec fn split_amount_solvent(
    source_lamports: u64,
    destination_lamports: u64,
    split_lamports: u64,
    source_rent_exempt_reserve: u64,
    destination_rent_exempt_reserve: u64,
) -> bool {
    &&& split_lamports <= source_lamports
    &&& (source_lamports == split_lamports || source_lamports - split_lamports
        >= source_rent_exempt_reserve)
    &&& destination_lamports + split_lamports >= destination_rent_exempt_reserve
}

/// Checks that `split_lamports` can move from a source with balance
/// `source_lamports` to a destination with balance `destination_lamports`.
///
/// `destination_rent_exempt_reserve` is the balance that the rent policy in
/// force asks of an account of the destination's size. The amount is
/// accepted exactly when it is solvent; every refusal is
/// `InsufficientFunds`. The checks run in this order: the source holds the
/// amount; what stays in it is nothing or covers its recorded reserve; the
/// destination reaches its reserve.
///
/// `minimum_delegation` and `source_is_active` describe the delegation of
/// the source. Solvency is a matter of balances and sizes alone and depends
/// on neither: what has to stay delegated is decided where stake is divided.
pub fn validate_split_amount(
    source_lamports: u64,
    destination_lamports: u64,
    split_lamports: u64,
    source_meta: &Meta,
    destination_rent_exempt_reserve: u64,
    _minimum_delegation: u64,
    _source_is_active: bool,
) -> (result: Result<ValidatedSplitInfo, SplitError>)
    ensures
        result == (if split_amount_solvent(
            source_lamports,
            destination_lamports,
            split_lamports,
            source_meta.rent_exempt_reserve,
            destination_rent_exempt_reserve,
        ) {
            Ok::<ValidatedSplitInfo, SplitError>(
                ValidatedSplitInfo {
                    source_remaining_balance: (source_lamports - split_lamports) as u64,
                    destination_rent_exempt_reserve,
                },
            )
        } else {
            Err(SplitError::InsufficientFunds)
        }),
{
    if split_lamports > source_lamports {
        return Err(SplitError::InsufficientFunds);
    }
    let source_remaining_balance = source_lamports - split_lamports;
    if source_remaining_balance != 0 && source_remaining_balance
        < source_meta.rent_exempt_reserve {
        return Err(SplitError::InsufficientFunds);
    }
    let destination_balance_deficit = destination_rent_exempt_reserve.saturating_sub(
        destination_lamports,
    );
    if split_lamports < destination_balance_deficit {
        return Err(SplitError::InsufficientFunds);
    }
    Ok(ValidatedSplitInfo { source_remaining_balance, destination_rent_exempt_reserve })
}

} // verus!
