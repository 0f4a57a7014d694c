use vstd::prelude::*;

use crate::account::{MintInfo, TokenAccount};
use crate::addr::Addr;
use crate::authority::{bank_authority_label, derive_bank_authority, derived_from, pda_of};
use crate::error::VaultError;
use crate::vault::{AuthorityRecord, Vault};

verus! {

/// The accounts Vault Initialization takes: the paying caller and the asset
/// descriptor of the pooled funds account to create.
pub struct Admin {
    /// The caller, who pays the resource cost of allocation.
    pub signer: Addr,
    /// The asset type the vault is initialized for.
    pub mint: MintInfo,
}

/// The error initialization rejects a request with, or `None` when it runs:
/// the vault must not already be initialized, the asset descriptor must be
/// well formed, and the derivation search must yield an address.
pub open spec fn admin_error(v: Vault, a: Admin) -> Option<VaultError> {
    if v.record is Some {
        Some(VaultError::AlreadyInitialized)
    } else if !a.mint.wf() {
        Some(VaultError::InvalidAssetType)
    } else if pda_of(bank_authority_label(), v.program_id@) is None {
        Some(VaultError::DerivationExhausted)
    } else {
        None
    }
}

/// Vault Initialization: derives the authority from the fixed label and the
/// program identity, then creates the authority record and an empty pooled
/// funds account owned by the derived address and scoped to the given asset.
/// Must run exactly once: a second call fails with `AlreadyInitialized` and
/// changes nothing, as does any other failing check of `admin_error`.
pub fn admin(vault: &mut Vault, accts: &Admin) -> (r: Result<(), VaultError>)
    requires
        old(vault).program_id.wf(),
    ensures
        (match admin_error(*old(vault), *accts) {
            Some(e) => {
                &&& r == Err::<(), VaultError>(e)
                &&& *final(vault) == *old(vault)
            },
            None => {
                &&& r is Ok
                &&& final(vault).program_id == old(vault).program_id
                &&& (final(vault).record matches Some(rec) && derived_from(
                    rec.authority,
                    old(vault).program_id@,
                ) && rec.pool.owner@ == rec.authority.address@ && rec.pool.mint@
                    == accts.mint.address@ && rec.pool.amount == 0)
            },
        }),
        old(vault).wf() ==> final(vault).wf(),
        r is Ok ==> final(vault).wf(),
{
    if vault.record.is_some() {
        return Err(VaultError::AlreadyInitialized);
    }
    if !accts.mint.check_wf() {
        return Err(VaultError::InvalidAssetType);
    }
    match derive_bank_authority(&vault.program_id) {
        Err(e) => Err(e),
        Ok(d) => {
            let pool_owner = d.address.dup();
            let pool_mint = accts.mint.address.dup();
            vault.record = Some(
                AuthorityRecord {
                    authority: d,
                    pool: TokenAccount { owner: pool_owner, mint: pool_mint, amount: 0 },
                },
            );
            Ok(())
        },
    }
}

/// Initialization is one-shot: once the authority record exists — as it does
/// after any successful initialization — every further initialization
/// request fails with `AlreadyInitialized`, whatever accounts it supplies.
pub proof fn lemma_initialize_once(v: Vault, a: Admin)
    requires
        v.record is Some,
    ensures
        admin_error(v, a) == Some(VaultError::AlreadyInitialized),
{
}

} // verus!
