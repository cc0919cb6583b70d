use vstd::prelude::*;
use crate::pubkey::Pubkey;

verus! {

/// An account that holds funds, as the caller observed it: whose it is and
/// what it holds.
#[derive(Clone, Copy, Debug, PartialEq, Eq)]
pub struct CustodyAccount {
    /// The identity of the account.
    pub key: Pubkey,
    /// The balance of the account.
    pub lamports: u64,
}

} // verus!
