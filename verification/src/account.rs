use vstd::prelude::*;

use crate::addr::Addr;

verus! {

/// A token-balance record: the ledger's view of one account holding `amount`
/// units of the asset `mint`, controlled by `owner`.
pub struct TokenAccount {
    /// The identity that controls this account.
    pub owner: Addr,
    /// The asset type this account is scoped to.
    pub mint: Addr,
    /// The balance, in base units of the asset.
    pub amount: u64,
}

impl TokenAccount {
    /// Both address fields are well formed.
    pub open spec fn wf(&self) -> bool {
        self.owner.wf() && self.mint.wf()
    }

    /// Builds a token account record.
    pub fn new(owner: Addr, mint: Addr, amount: u64) -> (r: TokenAccount)
        ensures
            r.owner@ == owner@,
            r.mint@ == mint@,
            r.amount == amount,
    {
        TokenAccount { owner, mint, amount }
    }
}

/// The asset descriptor: read-only metadata of one asset type.
pub struct MintInfo {
    /// The address identifying the asset type.
    pub address: Addr,
    /// The supply-control identity of the asset.
    pub mint_authority: Addr,
    /// The declared decimal precision; every transfer must match it.
    pub decimals: u8,
}

impl MintInfo {
    /// Both address fields are well formed.
    pub open spec fn wf(&self) -> bool {
        self.address.wf() && self.mint_authority.wf()
    }

    /// Builds an asset descriptor.
    pub fn new(address: Addr, mint_authority: Addr, decimals: u8) -> (r: MintInfo)
        ensures
            r.address@ == address@,
            r.mint_authority@ == mint_authority@,
            r.decimals == decimals,
    {
        MintInfo { address, mint_authority, decimals }
    }

    /// Runtime check of `wf`: rejects a malformed asset descriptor.
    pub fn check_wf(&self) -> (r: bool)
        ensures
            r == self.wf(),
    {
        self.address.bytes.len() == 32 && self.mint_authority.bytes.len() == 32
    }
}

} // verus!
