use stake_split::account::{collect_signers, StakeAccount};
use stake_split::error::SplitError;
use stake_split::pubkey::contains_key;
use stake_split::state::{Authorized, StakeAuthorize};

fn key(last: u8) -> [u8; 32] {
    let mut k = [7u8; 32];
    k[31] = last;
    k
}

fn account(k: [u8; 32], is_signer: bool) -> StakeAccount {
    StakeAccount { key: k, is_signer, lamports: 0, data_len: 0, state: None }
}

#[test]
fn contains_key_tells_keys_apart_by_their_last_byte() {
    let keys = [key(1), key(2), key(3)];
    assert!(contains_key(&keys, &key(2)));
    assert!(!contains_key(&keys, &key(4)));
    assert!(!contains_key(&[], &key(1)));
}

#[test]
fn contains_key_tells_keys_apart_by_every_byte() {
    let base = [0u8; 32];
    for i in 0..32 {
        let mut other = base;
        other[i] = 1;
        assert!(!contains_key(&[base], &other));
        assert!(contains_key(&[base, other], &other));
    }
}

#[test]
fn check_accepts_the_staker_in_the_role_of_staker() {
    let authorized = Authorized { staker: key(1), withdrawer: key(2) };
    assert_eq!(authorized.check(&[key(1)], StakeAuthorize::Staker), Ok(()));
    assert_eq!(authorized.check(&[key(9), key(1)], StakeAuthorize::Staker), Ok(()));
}

#[test]
fn check_refuses_the_withdrawer_in_the_role_of_staker() {
    let authorized = Authorized { staker: key(1), withdrawer: key(2) };
    assert_eq!(
        authorized.check(&[key(2)], StakeAuthorize::Staker),
        Err(SplitError::MissingRequiredSignature)
    );
}

#[test]
fn check_accepts_the_withdrawer_in_the_role_of_withdrawer() {
    let authorized = Authorized { staker: key(1), withdrawer: key(2) };
    assert_eq!(authorized.check(&[key(9), key(2)], StakeAuthorize::Withdrawer), Ok(()));
    assert_eq!(
        authorized.check(&[key(1)], StakeAuthorize::Withdrawer),
        Err(SplitError::MissingRequiredSignature)
    );
}

#[test]
fn check_refuses_an_empty_signer_set() {
    let authorized = Authorized { staker: key(1), withdrawer: key(2) };
    assert_eq!(
        authorized.check(&[], StakeAuthorize::Staker),
        Err(SplitError::MissingRequiredSignature)
    );
}

#[test]
fn collect_signers_keeps_the_signers_in_order() {
    let accounts = [
        account(key(1), false),
        account(key(2), true),
        account(key(3), false),
        account(key(4), true),
        account(key(2), true),
    ];
    assert_eq!(collect_signers(&accounts), vec![key(2), key(4), key(2)]);
}

#[test]
fn collect_signers_of_no_signer_is_empty() {
    assert_eq!(collect_signers(&[]), Vec::<[u8; 32]>::new());
    assert_eq!(collect_signers(&[account(key(1), false)]), Vec::<[u8; 32]>::new());
}
