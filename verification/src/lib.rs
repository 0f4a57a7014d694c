//! A custodial token vault built around a program-derived authority.
//!
//! The vault pools user-deposited fungible-token balances in a single token
//! account whose owner is a program-derived address: an address computed from
//! a fixed label and the program's own identity, for which no private key can
//! exist.  Deposits are authorized by the depositing user's own signature;
//! withdrawals are authorized by recomputing the derivation and presenting it
//! in place of a signature.
//!
//! The library models ledger records (addresses, token accounts, the asset
//! descriptor) as plain values and verifies the decision logic of the three
//! operations — initialization, deposit and withdraw — down to the exact
//! error returned on every input.  Performing the resulting balance movements
//! on a real ledger is left to the surrounding program.

pub mod account;
pub mod addr;
pub mod admin;
pub mod authority;
pub mod deposit;
pub mod error;
pub mod transfer;
pub mod vault;
pub mod withdraw;
