use rugs_fun::account::{MintInfo, TokenAccount};
use rugs_fun::addr::Addr;
use rugs_fun::authority::{derive_bank_authority, DerivedAuthority};
use rugs_fun::deposit::{process_deposit, Deposit};
use rugs_fun::error::VaultError;
use rugs_fun::withdraw::{process_withdraw, Withdraw};

fn addr(b: u8) -> Addr {
    Addr::from_bytes(vec![b; 32])
}

fn authority() -> DerivedAuthority {
    derive_bank_authority(&addr(9)).unwrap()
}

fn deposit_accounts(auth: &DerivedAuthority) -> Deposit {
    Deposit {
        signer: addr(2),
        bank_authority: auth.address.dup(),
        bank_account: TokenAccount::new(auth.address.dup(), addr(3), 1000),
        user_account: TokenAccount::new(addr(2), addr(3), 500),
        mint: MintInfo::new(addr(3), addr(4), 6),
    }
}

fn withdraw_accounts(auth: &DerivedAuthority) -> Withdraw {
    Withdraw {
        signer: addr(2),
        bank_authority: auth.address.dup(),
        bank_account: TokenAccount::new(auth.address.dup(), addr(3), 1000),
        user_account: TokenAccount::new(addr(2), addr(3), 500),
        mint: MintInfo::new(addr(3), addr(4), 6),
    }
}

#[test]
fn process_deposit_moves_the_amount() {
    let auth = authority();
    let mut accts = deposit_accounts(&auth);
    let r = process_deposit(&auth, &mut accts, 200, 6);
    assert!(r.is_ok());
    assert_eq!(accts.bank_account.amount, 1200);
    assert_eq!(accts.user_account.amount, 300);
}

#[test]
fn process_withdraw_moves_the_amount() {
    let auth = authority();
    let mut accts = withdraw_accounts(&auth);
    let r = process_withdraw(&auth, &mut accts, 200, 6);
    assert!(r.is_ok());
    assert_eq!(accts.bank_account.amount, 800);
    assert_eq!(accts.user_account.amount, 700);
}

#[test]
fn process_deposit_rejects_pool_owned_by_other_authority() {
    let auth = authority();
    let mut accts = deposit_accounts(&auth);
    accts.bank_account = TokenAccount::new(addr(6), addr(3), 1000);
    let r = process_deposit(&auth, &mut accts, 200, 6);
    assert_eq!(r, Err(VaultError::AccountMismatch));
    assert_eq!(accts.bank_account.amount, 1000);
    assert_eq!(accts.user_account.amount, 500);
}

#[test]
fn process_withdraw_rejects_pool_owned_by_other_authority() {
    let auth = authority();
    let mut accts = withdraw_accounts(&auth);
    accts.bank_account = TokenAccount::new(addr(6), addr(3), 1000);
    let r = process_withdraw(&auth, &mut accts, 200, 6);
    assert_eq!(r, Err(VaultError::AuthorityMismatch));
    assert_eq!(accts.bank_account.amount, 1000);
    assert_eq!(accts.user_account.amount, 500);
}

#[test]
fn process_withdraw_rejects_foreign_user_account() {
    let auth = authority();
    let mut accts = withdraw_accounts(&auth);
    accts.user_account = TokenAccount::new(addr(6), addr(3), 500);
    let r = process_withdraw(&auth, &mut accts, 200, 6);
    assert_eq!(r, Err(VaultError::AccountMismatch));
    assert_eq!(accts.bank_account.amount, 1000);
}

#[test]
fn process_withdraw_rejects_wrong_decimals() {
    let auth = authority();
    let mut accts = withdraw_accounts(&auth);
    let r = process_withdraw(&auth, &mut accts, 200, 9);
    assert_eq!(r, Err(VaultError::PrecisionMismatch));
    assert_eq!(accts.bank_account.amount, 1000);
}

#[test]
fn process_withdraw_rejects_mismatched_bank_authority_account() {
    let auth = authority();
    let mut accts = withdraw_accounts(&auth);
    accts.bank_authority = addr(6);
    let r = process_withdraw(&auth, &mut accts, 200, 6);
    assert_eq!(r, Err(VaultError::AccountMismatch));
}
