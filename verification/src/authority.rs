use vstd::prelude::*;

use crate::addr::Addr;
use crate::error::VaultError;

verus! {

/// The fixed derivation label, the ASCII bytes of `bank_authority`.
pub open spec fn bank_authority_label() -> Seq<u8> {
    seq![98u8, 97u8, 110u8, 107u8, 95u8, 97u8, 117u8, 116u8, 104u8, 111u8, 114u8, 105u8, 116u8, 121u8]
}

/// The fixed derivation label as bytes.
pub fn bank_authority_label_bytes() -> (r: Vec<u8>)
    ensures
        r@ == bank_authority_label(),
{
    let mut v: Vec<u8> = Vec::new();
    v.push(98);
    v.push(97);
    v.push(110);
    v.push(107);
    v.push(95);
    v.push(97);
    v.push(117);
    v.push(116);
    v.push(104);
    v.push(111);
    v.push(114);
    v.push(105);
    v.push(116);
    v.push(121);
    proof {
        assert(v@ =~= bank_authority_label());
    }
    v
}

/// What the ledger's program-address derivation returns for a single seed and
/// a program identity: `None` when no bump in the search range yields a valid
/// address, and otherwise the derived address together with its bump.
pub uninterp spec fn pda_of(label: Seq<u8>, program: Seq<u8>) -> Option<(Seq<u8>, u8)>;

/// Relies on `Pubkey::try_find_program_address` (anchor_lang's re-export of
/// the ledger's address type): the result is a pure function of the seeds and
/// the program identity — a bump search over SHA-256 digests with an
/// off-curve check — and a returned address is 32 bytes.
#[verifier::external_body]
fn try_find_pda(label: &Vec<u8>, program: &Vec<u8>) -> (r: Option<(Vec<u8>, u8)>)
    requires
        program@.len() == 32,
    ensures
        r is Some <==> pda_of(label@, program@) is Some,
        (r matches Some(p) ==> pda_of(label@, program@) matches Some(q) && p.0@ == q.0 && p.1
            == q.1 && p.0@.len() == 32),
{
    let mut pid = [0u8; 32];
    pid.copy_from_slice(program.as_slice());
    let pk = anchor_lang::prelude::Pubkey::new_from_array(pid);
    match anchor_lang::prelude::Pubkey::try_find_program_address(&[label.as_slice()], &pk) {
        Some((addr, bump)) => Some((addr.to_bytes().to_vec(), bump)),
        None => None,
    }
}

/// The derived authority as an explicit value: the address that owns the
/// pooled funds account, and the bump that makes the address valid.
pub struct DerivedAuthority {
    /// The derived, off-curve address.
    pub address: Addr,
    /// The bump found during the derivation search.
    pub bump: u8,
}

/// `d` is exactly what derivation under the fixed label yields for `program`.
pub open spec fn derived_from(d: DerivedAuthority, program: Seq<u8>) -> bool {
    match pda_of(bank_authority_label(), program) {
        Some(q) => d.address@ == q.0 && d.bump == q.1 && d.address@.len() == 32,
        None => false,
    }
}

/// Computes the vault's authority for `program_id` from the fixed label
/// alone.  Fails with `DerivationExhausted` exactly when no bump in the
/// search range yields a valid address.
pub fn derive_bank_authority(program_id: &Addr) -> (r: Result<DerivedAuthority, VaultError>)
    requires
        program_id.wf(),
    ensures
        r is Ok <==> pda_of(bank_authority_label(), program_id@) is Some,
        (r matches Ok(d) ==> derived_from(d, program_id@)),
        (r matches Err(e) ==> e == VaultError::DerivationExhausted),
{
    let label = bank_authority_label_bytes();
    match try_find_pda(&label, &program_id.bytes) {
        Some((bytes, bump)) => Ok(DerivedAuthority { address: Addr::from_bytes(bytes), bump }),
        None => Err(VaultError::DerivationExhausted),
    }
}

/// Determinism of Authority Derivation: two derived authorities obtained for
/// the same program identity agree on both address and bump.
pub proof fn lemma_derivation_deterministic(
    d1: DerivedAuthority,
    d2: DerivedAuthority,
    program: Seq<u8>,
)
    requires
        derived_from(d1, program),
        derived_from(d2, program),
    ensures
        d1.address@ == d2.address@,
        d1.bump == d2.bump,
{
}

} // verus!
