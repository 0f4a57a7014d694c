use vstd::prelude::*;

verus! {

/// Every way a vault operation can fail.
///
/// Each precondition of an operation is checked before any balance moves, and
/// the first check that fails decides the error, so every operation either
/// succeeds completely or rejects the request with one of these and changes
/// nothing.
#[derive(Clone, Copy, Debug, PartialEq, Eq, Structural)]
pub enum VaultError {
    /// The authority record and pooled funds account already exist, so the
    /// one-time initialization must not run again.
    AlreadyInitialized,
    /// The asset descriptor is malformed.
    InvalidAssetType,
    /// A supplied account's owner or asset-type field does not match the
    /// relationship the operation requires.
    AccountMismatch,
    /// The decimal count supplied with a transfer disagrees with the asset
    /// descriptor's declared precision.
    PrecisionMismatch,
    /// The requested amount exceeds the balance of the account to be debited.
    InsufficientFunds,
    /// The derived authority address does not equal the pooled funds
    /// account's recorded owner.
    AuthorityMismatch,
    /// No bump in the search range yields a valid derived address.
    DerivationExhausted,
}

} // verus!
