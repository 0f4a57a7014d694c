use vstd::prelude::*;

use crate::account::{MintInfo, TokenAccount};
use crate::addr::Addr;
use crate::authority::DerivedAuthority;
use crate::error::VaultError;
use crate::transfer::{transfer_out, withdraw_error};

verus! {

/// The supplied accounts of one withdrawal request: the same shape as a
/// deposit request, but the pooled funds account is debited and the user's
/// funds account credited.
pub struct Withdraw {
    /// The user signing the request and receiving the funds.
    pub signer: Addr,
    /// The supplied authority account, expected to equal the derived
    /// authority's address.
    pub bank_authority: Addr,
    /// The pooled funds account, whose recorded owner must equal the derived
    /// authority's address for the derivation proof to stand in for a
    /// signature.
    pub bank_account: TokenAccount,
    /// The user's funds account, expected to be owned by the signer.
    pub user_account: TokenAccount,
    /// The asset descriptor both token accounts must be scoped to.
    pub mint: MintInfo,
}

/// The withdraw instruction: verifies the supplied account relationships,
/// recomputes no state of its own — the derived authority passed in carries
/// the label-and-bump proof — and moves `amount` from the pooled funds
/// account to the user's funds account, or rejects the request with the first
/// failing check of `withdraw_error` and changes nothing.
pub fn process_withdraw(
    authority: &DerivedAuthority,
    accts: &mut Withdraw,
    amount: u64,
    decimals: u8,
) -> (r: Result<(), VaultError>)
    requires
        old(accts).user_account.amount + old(accts).bank_account.amount <= u64::MAX,
    ensures
        (match withdraw_error(
            *authority,
            old(accts).signer,
            old(accts).bank_authority,
            old(accts).bank_account,
            old(accts).user_account,
            old(accts).mint,
            amount,
            decimals,
        ) {
            Some(e) => {
                &&& r == Err::<(), VaultError>(e)
                &&& *final(accts) == *old(accts)
            },
            None => {
                &&& r is Ok
                &&& final(accts).bank_account.amount == old(accts).bank_account.amount - amount
                &&& final(accts).user_account.amount == old(accts).user_account.amount + amount
                &&& final(accts).signer == old(accts).signer
                &&& final(accts).bank_authority == old(accts).bank_authority
                &&& final(accts).bank_account.owner == old(accts).bank_account.owner
                &&& final(accts).bank_account.mint == old(accts).bank_account.mint
                &&& final(accts).user_account.owner == old(accts).user_account.owner
                &&& final(accts).user_account.mint == old(accts).user_account.mint
                &&& final(accts).mint == old(accts).mint
            },
        }),
{
    transfer_out(
        authority,
        &accts.signer,
        &accts.bank_authority,
        &mut accts.bank_account,
        &mut accts.user_account,
        &accts.mint,
        amount,
        decimals,
    )
}

} // verus!
