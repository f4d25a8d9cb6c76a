//! Account keys. A key is the 32-byte `Pubkey` of pinocchio, and keys are
//! compared by pinocchio's `pubkey_eq`.

pub use pinocchio::pubkey::Pubkey;
use vstd::prelude::*;

verus! {

/// Believed, not proved: `pinocchio::pubkey::pubkey_eq` answers whether two
/// keys are the same 32 bytes. Its source reads each key as four 64-bit
/// words and answers whether all four pairs agree; it reads nothing else
/// and cannot fail.
pub assume_specification[ pinocchio::pubkey::pubkey_eq ](
    p1: &pinocchio::pubkey::Pubkey,
    p2: &pinocchio::pubkey::Pubkey,
) -> (equal: bool)
    ensures
        equal == (*p1 == *p2),
;

/// Whether `key` is one of `keys`.
pub fn contains_key(keys: &[Pubkey], key: &Pubkey) -> (found: bool)
    ensures
        found == keys@.contains(*key),
{
    let mut i: usize = 0;
    while i < keys.len()
        invariant
            i <= keys.len(),
            forall|j: int| 0 <= j < i ==> keys@[j] != *key,
        decreases keys.len() - i,
    {
        if pinocchio::pubkey::pubkey_eq(&keys[i], key) {
            return true;
        }
        i += 1;
    }
    false
}

} // verus!
