use rugs_fun::addr::Addr;
use rugs_fun::authority::{bank_authority_label_bytes, derive_bank_authority};

fn addr(b: u8) -> Addr {
    Addr::from_bytes(vec![b; 32])
}

#[test]
fn label_is_the_fixed_constant() {
    assert_eq!(bank_authority_label_bytes(), b"bank_authority".to_vec());
}

#[test]
fn derivation_matches_the_ledger_primitive() {
    let program_bytes = [9u8; 32];
    let program = Addr::from_bytes(program_bytes.to_vec());
    let derived = derive_bank_authority(&program).unwrap();

    let pk = anchor_lang::prelude::Pubkey::new_from_array(program_bytes);
    let (expected, expected_bump) =
        anchor_lang::prelude::Pubkey::find_program_address(&[b"bank_authority"], &pk);
    assert_eq!(derived.address.bytes, expected.to_bytes().to_vec());
    assert_eq!(derived.bump, expected_bump);
}

#[test]
fn derivation_is_deterministic() {
    let d1 = derive_bank_authority(&addr(9)).unwrap();
    let d2 = derive_bank_authority(&addr(9)).unwrap();
    assert_eq!(d1.address.bytes, d2.address.bytes);
    assert_eq!(d1.bump, d2.bump);
}

#[test]
fn derived_address_is_not_the_program_id() {
    let d = derive_bank_authority(&addr(9)).unwrap();
    assert_eq!(d.address.bytes.len(), 32);
    assert!(!d.address.equals(&addr(9)));
}

#[test]
fn different_programs_derive_different_authorities() {
    let d1 = derive_bank_authority(&addr(9)).unwrap();
    let d2 = derive_bank_authority(&addr(10)).unwrap();
    assert!(!d1.address.equals(&d2.address));
}
