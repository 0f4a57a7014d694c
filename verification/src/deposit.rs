use vstd::prelude::*;

use crate::account::{MintInfo, TokenAccount};
use crate::addr::Addr;
use crate::authority::DerivedAuthority;
use crate::error::VaultError;
use crate::transfer::{deposit_error, transfer_in};

verus! {

/// The supplied accounts of one deposit request: the signing user, the
/// authority account, the pooled funds account, the user's funds account and
/// the asset descriptor.
pub struct Deposit {
    /// The user signing the request; the debit is authorized by their
    /// signature alone.
    pub signer: Addr,
    /// The supplied authority account, expected to equal the derived
    /// authority's address.
    pub bank_authority: Addr,
    /// The pooled funds account, expected to be owned by the derived
    /// authority.
    pub bank_account: TokenAccount,
    /// The user's funds account, expected to be owned by the signer.
    pub user_account: TokenAccount,
    /// The asset descriptor both token accounts must be scoped to.
    pub mint: MintInfo,
}

/// The deposit instruction: verifies the supplied account relationships
/// against the derived authority and moves `amount` from the user's funds
/// account into the pooled funds account, or rejects the request with the
/// first failing check of `deposit_error` and changes nothing.
pub fn process_deposit(
    authority: &DerivedAuthority,
    accts: &mut Deposit,
    amount: u64,
    decimals: u8,
) -> (r: Result<(), VaultError>)
    requires
        old(accts).user_account.amount + old(accts).bank_account.amount <= u64::MAX,
    ensures
        (match deposit_error(
            *authority,
            old(accts).signer,
            old(accts).bank_authority,
            old(accts).bank_account,
            old(accts).user_account,
            old(accts).mint,
            amount,
            decimals,
        ) {
            Some(e) => {
                &&& r == Err::<(), VaultError>(e)
                &&& *final(accts) == *old(accts)
            },
            None => {
                &&& r is Ok
                &&& final(accts).bank_account.amount == old(accts).bank_account.amount + amount
                &&& final(accts).user_account.amount == old(accts).user_account.amount - amount
                &&& final(accts).signer == old(accts).signer
                &&& final(accts).bank_authority == old(accts).bank_authority
                &&& final(accts).bank_account.owner == old(accts).bank_account.owner
                &&& final(accts).bank_account.mint == old(accts).bank_account.mint
                &&& final(accts).user_account.owner == old(accts).user_account.owner
                &&& final(accts).user_account.mint == old(accts).user_account.mint
                &&& final(accts).mint == old(accts).mint
            },
        }),
{
    transfer_in(
        authority,
        &accts.signer,
        &accts.bank_authority,
        &mut accts.bank_account,
        &mut accts.user_account,
        &accts.mint,
        amount,
        decimals,
    )
}

} // verus!
