use vstd::prelude::*;
use crate::address::Address;

verus! {

/// What a transition reads of one account that the host presents to it.
#[derive(Clone, Debug, PartialEq, Eq)]
pub struct Account {
    /// The account's address.
    pub key: Address,
    /// The program that owns the account.
    pub owner: Address,
    /// Whether the account's key signed the transaction.
    pub is_signer: bool,
    /// Whether the transaction may write to the account.
    pub is_writable: bool,
    /// The account's balance.
    pub lamports: u64,
    /// The bytes stored in the account.
    pub data: Vec<u8>,
}

} // verus!
