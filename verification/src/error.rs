//! Error taxonomy for the sale engine and the collection registry.
//!
//! Every failing request surfaces one of these kinds so that callers can
//! branch on the cause; a failure never commits a partial mutation.

use vstd::prelude::*;

verus! {

/// The reasons a request to the engine or the registry can fail.
#[derive(Clone, Copy, Debug, PartialEq, Eq, Structural)]
pub enum ContractError {
    /// The caller lacks the role the operation demands.
    Unauthorized,
    /// The purchase came before the sale start or after the sale end.
    SaleNotActive,
    /// A ledger debit exceeds the stored balance.
    InsufficientFunds,
    /// The mint would exceed the maximum total supply.
    SupplyExhausted,
    /// Arithmetic in the cost computation or the payout would overflow.
    Overflow,
    /// A registry lookup found no collection under the given name.
    CollectionNotFound,
    /// Malformed deployment or runtime parameters.
    InvalidConfig,
}

} // verus!
