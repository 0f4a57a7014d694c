use vstd::prelude::*;

use crate::account::{MintInfo, TokenAccount};
use crate::addr::Addr;
use crate::admin::{admin, admin_error, Admin};
use crate::authority::{derived_from, DerivedAuthority};
use crate::error::VaultError;
use crate::transfer::{deposit_error, transfer_in, transfer_out, withdraw_error};

verus! {

/// The persisted identity of an initialized vault: the derived authority and
/// the pooled funds account it owns.
pub struct AuthorityRecord {
    /// The derived authority; never a signer, its authorization is
    /// synthesized from its derivation data at request time.
    pub authority: DerivedAuthority,
    /// The pooled funds account, scoped to one asset type and owned by the
    /// authority.
    pub pool: TokenAccount,
}

/// The vault as the ledger holds it: the program identity it is deployed
/// under and, once initialization has run, its authority record.
pub struct Vault {
    /// The identity of the executing program.
    pub program_id: Addr,
    /// The authority record; `None` until initialization has run.
    pub record: Option<AuthorityRecord>,
}

impl Vault {
    /// The vault's standing invariant: whenever the pooled funds account
    /// exists, its recorded owner is the authority record's address.  Every
    /// operation preserves it, and initialization establishes it.
    pub open spec fn wf(&self) -> bool {
        self.record matches Some(rec) ==> rec.pool.owner@ == rec.authority.address@
    }

    /// An uninitialized vault for the given program identity.
    pub fn new(program_id: Addr) -> (v: Vault)
        ensures
            v.program_id == program_id,
            v.record is None,
            v.wf(),
    {
        Vault { program_id, record: None }
    }

    /// One-time setup entry point; forwards to `admin`.
    pub fn instructions(&mut self, accts: &Admin) -> (r: Result<(), VaultError>)
        requires
            old(self).program_id.wf(),
        ensures
            (match admin_error(*old(self), *accts) {
                Some(e) => {
                    &&& r == Err::<(), VaultError>(e)
                    &&& *final(self) == *old(self)
                },
                None => {
                    &&& r is Ok
                    &&& final(self).program_id == old(self).program_id
                    &&& (final(self).record matches Some(rec) && derived_from(
                        rec.authority,
                        old(self).program_id@,
                    ) && rec.pool.owner@ == rec.authority.address@ && rec.pool.mint@
                        == accts.mint.address@ && rec.pool.amount == 0)
                },
            }),
            old(self).wf() ==> final(self).wf(),
            r is Ok ==> final(self).wf(),
    {
        admin(self, accts)
    }

    /// Deposit entry point: loads the pooled funds account from the vault's
    /// own record and moves `amount` into it from the supplied user account.
    /// An uninitialized vault holds no pooled account, so the request fails
    /// with `AccountMismatch`; otherwise the deposit path decides, and on
    /// success the pool gains what the user account loses.
    pub fn deposit(
        &mut self,
        signer: &Addr,
        user_account: &mut TokenAccount,
        mint: &MintInfo,
        amount: u64,
        decimals: u8,
    ) -> (r: Result<(), VaultError>)
        requires
            (old(self).record matches Some(rec) ==> old(user_account).amount + rec.pool.amount
                <= u64::MAX),
        ensures
            (old(self).record is None ==> r == Err::<(), VaultError>(VaultError::AccountMismatch)
                && *final(self) == *old(self) && *final(user_account) == *old(user_account)),
            (old(self).record matches Some(rec) ==> (match deposit_error(
                rec.authority,
                *signer,
                rec.authority.address,
                rec.pool,
                *old(user_account),
                *mint,
                amount,
                decimals,
            ) {
                Some(e) => {
                    &&& r == Err::<(), VaultError>(e)
                    &&& *final(self) == *old(self)
                    &&& *final(user_account) == *old(user_account)
                },
                None => {
                    &&& r is Ok
                    &&& final(self).program_id == old(self).program_id
                    &&& (final(self).record matches Some(rec2) && rec2.authority == rec.authority
                        && rec2.pool.owner == rec.pool.owner && rec2.pool.mint == rec.pool.mint
                        && rec2.pool.amount == rec.pool.amount + amount)
                    &&& final(user_account).amount == old(user_account).amount - amount
                    &&& final(user_account).owner == old(user_account).owner
                    &&& final(user_account).mint == old(user_account).mint
                },
            })),
            old(self).wf() ==> final(self).wf(),
    {
        match self.record.take() {
            None => Err(VaultError::AccountMismatch),
            Some(mut rec) => {
                let r = transfer_in(
                    &rec.authority,
                    signer,
                    &rec.authority.address,
                    &mut rec.pool,
                    user_account,
                    mint,
                    amount,
                    decimals,
                );
                self.record = Some(rec);
                r
            },
        }
    }

    /// Withdraw entry point: loads the pooled funds account from the vault's
    /// own record and moves `amount` out of it into the supplied user
    /// account, the derivation proof standing in for the authority's
    /// signature.  An uninitialized vault holds no pooled account, so the
    /// request fails with `AccountMismatch`; otherwise the withdraw path
    /// decides, and on success the user account gains what the pool loses.
    pub fn withdraw(
        &mut self,
        signer: &Addr,
        user_account: &mut TokenAccount,
        mint: &MintInfo,
        amount: u64,
        decimals: u8,
    ) -> (r: Result<(), VaultError>)
        requires
            (old(self).record matches Some(rec) ==> old(user_account).amount + rec.pool.amount
                <= u64::MAX),
        ensures
            (old(self).record is None ==> r == Err::<(), VaultError>(VaultError::AccountMismatch)
                && *final(self) == *old(self) && *final(user_account) == *old(user_account)),
            (old(self).record matches Some(rec) ==> (match withdraw_error(
                rec.authority,
                *signer,
                rec.authority.address,
                rec.pool,
                *old(user_account),
                *mint,
                amount,
                decimals,
            ) {
                Some(e) => {
                    &&& r == Err::<(), VaultError>(e)
                    &&& *final(self) == *old(self)
                    &&& *final(user_account) == *old(user_account)
                },
                None => {
                    &&& r is Ok
                    &&& final(self).program_id == old(self).program_id
                    &&& (final(self).record matches Some(rec2) && rec2.authority == rec.authority
                        && rec2.pool.owner == rec.pool.owner && rec2.pool.mint == rec.pool.mint
                        && rec2.pool.amount == rec.pool.amount - amount)
                    &&& final(user_account).amount == old(user_account).amount + amount
                    &&& final(user_account).owner == old(user_account).owner
                    &&& final(user_account).mint == old(user_account).mint
                },
            })),
            old(self).wf() ==> final(self).wf(),
    {
        match self.record.take() {
            None => Err(VaultError::AccountMismatch),
            Some(mut rec) => {
                let r = transfer_out(
                    &rec.authority,
                    signer,
                    &rec.authority.address,
                    &mut rec.pool,
                    user_account,
                    mint,
                    amount,
                    decimals,
                );
                self.record = Some(rec);
                r
            },
        }
    }
}

} // verus!
