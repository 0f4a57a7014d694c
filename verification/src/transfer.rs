use vstd::prelude::*;

use crate::account::{MintInfo, TokenAccount};
use crate::addr::Addr;
use crate::authority::DerivedAuthority;
use crate::error::VaultError;

verus! {

/// The account relationships the deposit path requires: the signer owns the
/// user account, the supplied authority account and the pool's owner are the
/// derived authority, and every token account is scoped to the asset.
pub open spec fn deposit_accounts_ok(
    authority: DerivedAuthority,
    signer: Addr,
    bank_authority: Addr,
    bank_account: TokenAccount,
    user_account: TokenAccount,
    mint: MintInfo,
) -> bool {
    &&& user_account.owner@ == signer@
    &&& user_account.mint@ == mint.address@
    &&& bank_authority@ == authority.address@
    &&& bank_account.owner@ == authority.address@
    &&& bank_account.mint@ == mint.address@
}

/// The error the deposit path rejects a request with, or `None` when every
/// check passes: account relationships first, then decimal precision, then
/// balance sufficiency.
pub open spec fn deposit_error(
    authority: DerivedAuthority,
    signer: Addr,
    bank_authority: Addr,
    bank_account: TokenAccount,
    user_account: TokenAccount,
    mint: MintInfo,
    amount: u64,
    decimals: u8,
) -> Option<VaultError> {
    if !deposit_accounts_ok(authority, signer, bank_authority, bank_account, user_account, mint) {
        Some(VaultError::AccountMismatch)
    } else if decimals != mint.decimals {
        Some(VaultError::PrecisionMismatch)
    } else if amount > user_account.amount {
        Some(VaultError::InsufficientFunds)
    } else {
        None
    }
}

/// The account relationships the withdraw path requires of the supplied
/// accounts, apart from the pool's recorded owner (checked separately, since
/// its failure is an `AuthorityMismatch`).
pub open spec fn withdraw_accounts_ok(
    authority: DerivedAuthority,
    signer: Addr,
    bank_authority: Addr,
    bank_account: TokenAccount,
    user_account: TokenAccount,
    mint: MintInfo,
) -> bool {
    &&& user_account.owner@ == signer@
    &&& user_account.mint@ == mint.address@
    &&& bank_authority@ == authority.address@
    &&& bank_account.mint@ == mint.address@
}

/// The error the withdraw path rejects a request with, or `None` when every
/// check passes: account relationships, then the derivation proof against the
/// pool's recorded owner, then decimal precision, then balance sufficiency.
pub open spec fn withdraw_error(
    authority: DerivedAuthority,
    signer: Addr,
    bank_authority: Addr,
    bank_account: TokenAccount,
    user_account: TokenAccount,
    mint: MintInfo,
    amount: u64,
    decimals: u8,
) -> Option<VaultError> {
    if !withdraw_accounts_ok(authority, signer, bank_authority, bank_account, user_account, mint) {
        Some(VaultError::AccountMismatch)
    } else if bank_account.owner@ != authority.address@ {
        Some(VaultError::AuthorityMismatch)
    } else if decimals != mint.decimals {
        Some(VaultError::PrecisionMismatch)
    } else if amount > bank_account.amount {
        Some(VaultError::InsufficientFunds)
    } else {
        None
    }
}

/// Transfer Engine, inbound: moves `amount` from the user account into the
/// pooled funds account, authorized by the user's own signature.  Rejects the
/// request with the first failing check of `deposit_error` and then changes
/// neither account.
pub fn transfer_in(
    authority: &DerivedAuthority,
    signer: &Addr,
    bank_authority: &Addr,
    bank_account: &mut TokenAccount,
    user_account: &mut TokenAccount,
    mint: &MintInfo,
    amount: u64,
    decimals: u8,
) -> (r: Result<(), VaultError>)
    requires
        old(user_account).amount + old(bank_account).amount <= u64::MAX,
    ensures
        (match deposit_error(
            *authority,
            *signer,
            *bank_authority,
            *old(bank_account),
            *old(user_account),
            *mint,
            amount,
            decimals,
        ) {
            Some(e) => {
                &&& r == Err::<(), VaultError>(e)
                &&& *final(bank_account) == *old(bank_account)
                &&& *final(user_account) == *old(user_account)
            },
            None => {
                &&& r is Ok
                &&& final(user_account).amount == old(user_account).amount - amount
                &&& final(bank_account).amount == old(bank_account).amount + amount
                &&& final(user_account).owner == old(user_account).owner
                &&& final(user_account).mint == old(user_account).mint
                &&& final(bank_account).owner == old(bank_account).owner
                &&& final(bank_account).mint == old(bank_account).mint
            },
        }),
{
    let rel_ok = user_account.owner.equals(signer) && user_account.mint.equals(&mint.address)
        && bank_authority.equals(&authority.address)
        && bank_account.owner.equals(&authority.address)
        && bank_account.mint.equals(&mint.address);
    if !rel_ok {
        return Err(VaultError::AccountMismatch);
    }
    if decimals != mint.decimals {
        return Err(VaultError::PrecisionMismatch);
    }
    if amount > user_account.amount {
        return Err(VaultError::InsufficientFunds);
    }
    user_account.amount = user_account.amount - amount;
    bank_account.amount = bank_account.amount + amount;
    Ok(())
}

/// Transfer Engine, outbound: moves `amount` from the pooled funds account to
/// the user account, authorized by the recomputed derivation proof standing
/// in for the authority's signature.  Rejects the request with the first
/// failing check of `withdraw_error` and then changes neither account.
pub fn transfer_out(
    authority: &DerivedAuthority,
    signer: &Addr,
    bank_authority: &Addr,
    bank_account: &mut TokenAccount,
    user_account: &mut TokenAccount,
    mint: &MintInfo,
    amount: u64,
    decimals: u8,
) -> (r: Result<(), VaultError>)
    requires
        old(user_account).amount + old(bank_account).amount <= u64::MAX,
    ensures
        (match withdraw_error(
            *authority,
            *signer,
            *bank_authority,
            *old(bank_account),
            *old(user_account),
            *mint,
            amount,
            decimals,
        ) {
            Some(e) => {
                &&& r == Err::<(), VaultError>(e)
                &&& *final(bank_account) == *old(bank_account)
                &&& *final(user_account) == *old(user_account)
            },
            None => {
                &&& r is Ok
                &&& final(bank_account).amount == old(bank_account).amount - amount
                &&& final(user_account).amount == old(user_account).amount + amount
                &&& final(user_account).owner == old(user_account).owner
                &&& final(user_account).mint == old(user_account).mint
                &&& final(bank_account).owner == old(bank_account).owner
                &&& final(bank_account).mint == old(bank_account).mint
            },
        }),
{
    let rel_ok = user_account.owner.equals(signer) && user_account.mint.equals(&mint.address)
        && bank_authority.equals(&authority.address) && bank_account.mint.equals(&mint.address);
    if !rel_ok {
        return Err(VaultError::AccountMismatch);
    }
    if !bank_account.owner.equals(&authority.address) {
        return Err(VaultError::AuthorityMismatch);
    }
    if decimals != mint.decimals {
        return Err(VaultError::PrecisionMismatch);
    }
    if amount > bank_account.amount {
        return Err(VaultError::InsufficientFunds);
    }
    bank_account.amount = bank_account.amount - amount;
    user_account.amount = user_account.amount + amount;
    Ok(())
}

/// Round-trip identity: on any accounts the deposit path accepts, depositing
/// `amount` and then withdrawing the same `amount` also passes every check of
/// the withdraw path, and the two movements cancel, leaving the user balance
/// and the pooled balance where they began.
pub proof fn lemma_deposit_withdraw_round_trip(
    authority: DerivedAuthority,
    signer: Addr,
    bank_authority: Addr,
    bank_account: TokenAccount,
    user_account: TokenAccount,
    mint: MintInfo,
    amount: u64,
    decimals: u8,
)
    requires
        deposit_error(
            authority,
            signer,
            bank_authority,
            bank_account,
            user_account,
            mint,
            amount,
            decimals,
        ) is None,
        user_account.amount + bank_account.amount <= u64::MAX,
    ensures
        (withdraw_error(
            authority,
            signer,
            bank_authority,
            (TokenAccount {
                owner: bank_account.owner,
                mint: bank_account.mint,
                amount: (bank_account.amount + amount) as u64,
            }),
            (TokenAccount {
                owner: user_account.owner,
                mint: user_account.mint,
                amount: (user_account.amount - amount) as u64,
            }),
            mint,
            amount,
            decimals,
        ) is None),
        (bank_account.amount + amount) as u64 - amount == bank_account.amount,
        (user_account.amount - amount) as u64 + amount == user_account.amount,
{
}

/// Insufficient funds on withdrawal: whenever the requested amount exceeds
/// the pooled balance the withdraw path fails, and when every other check
/// passes the error is exactly `InsufficientFunds`.
pub proof fn lemma_withdraw_insufficient_funds(
    authority: DerivedAuthority,
    signer: Addr,
    bank_authority: Addr,
    bank_account: TokenAccount,
    user_account: TokenAccount,
    mint: MintInfo,
    amount: u64,
    decimals: u8,
)
    requires
        amount > bank_account.amount,
    ensures
        withdraw_error(
            authority,
            signer,
            bank_authority,
            bank_account,
            user_account,
            mint,
            amount,
            decimals,
        ) is Some,
        (withdraw_accounts_ok(authority, signer, bank_authority, bank_account, user_account, mint)
            && bank_account.owner@ == authority.address@ && decimals == mint.decimals)
            ==> withdraw_error(
            authority,
            signer,
            bank_authority,
            bank_account,
            user_account,
            mint,
            amount,
            decimals,
        ) == Some(VaultError::InsufficientFunds),
{
}

/// Account mismatch: a request whose supplied accounts do not stand in the
/// relationship the operation requires is rejected with `AccountMismatch`, on
/// either path.
pub proof fn lemma_account_mismatch(
    authority: DerivedAuthority,
    signer: Addr,
    bank_authority: Addr,
    bank_account: TokenAccount,
    user_account: TokenAccount,
    mint: MintInfo,
    amount: u64,
    decimals: u8,
)
    ensures
        !deposit_accounts_ok(authority, signer, bank_authority, bank_account, user_account, mint)
            ==> deposit_error(
            authority,
            signer,
            bank_authority,
            bank_account,
            user_account,
            mint,
            amount,
            decimals,
        ) == Some(VaultError::AccountMismatch),
        !withdraw_accounts_ok(authority, signer, bank_authority, bank_account, user_account, mint)
            ==> withdraw_error(
            authority,
            signer,
            bank_authority,
            bank_account,
            user_account,
            mint,
            amount,
            decimals,
        ) == Some(VaultError::AccountMismatch),
{
}

} // verus!
