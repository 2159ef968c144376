//! Why an operation on the vault was refused.
use vstd::prelude::*;

verus! {

#[derive(Clone, Copy, Debug, PartialEq, Eq, Structural)]
pub enum ErrorCode {
    /// The caller is not the configured automation identity.
    InvalidTrigger,
    /// The venue named in the call is not the configured one.
    InvalidRaydiumProgram,
    /// Reserved: the asset is already on record.
    TokenAlreadyDeposited,
    /// The ledger holds no record for the asset being sold.
    InvalidTokenAddress,
    /// The vault holds too little for the operation.
    InsufficientFunds,
    /// No bump seed gives the vault an address off the curve.
    VaultDerivationFailed,
    /// Fewer venue accounts were given than a swap call needs.
    MissingVenueAccounts,
}

} // verus!
