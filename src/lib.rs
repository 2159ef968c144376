//! Bookkeeping and swap-call construction for a vault that accumulates
//! deposits of an asset and sells them in slices through an exchange venue.
use vstd::prelude::*;

pub mod address;
pub mod error;
pub mod ledger;
pub mod swap;
pub mod vault;

verus! {

} // verus!
