use vstd::prelude::*;
use crate::address::Address;

verus! {

/// An account of the ledger that holds value: where it lives and what it
/// holds.
///
/// The operations of the market take the accounts they touch as they stand
/// and leave them as they must stand afterwards; moving the value is the
/// ledger's business. An account that plays two parts in one operation is
/// handed in once for each part.
#[derive(Clone, Copy, Debug, PartialEq, Eq)]
pub struct Wallet {
    pub key: Address,
    pub balance: u64,
}

} // verus!
