//! The accounts that the host hands to the program.

use vstd::prelude::*;
use crate::pubkey::Pubkey;

verus! {

/// A byte buffer kept by the host, together with the program that controls it.
///
/// The program may change `data` for the length of one call and keeps nothing
/// of it afterwards.
#[derive(Debug, PartialEq, Eq)]
pub struct Account {
    /// The program that is allowed to change `data`.
    pub owner: Pubkey,
    /// The account's bytes.
    pub data: Vec<u8>,
}

impl Clone for Account {
    fn clone(&self) -> (copy: Self)
        ensures
            copy.owner == self.owner,
            copy.data@ == self.data@,
    {
        Account { owner: self.owner, data: self.data.clone() }
    }
}

impl Account {
    /// An account with this owner and these bytes.
    pub fn new(owner: Pubkey, data: Vec<u8>) -> (account: Account)
        ensures
            account.owner == owner,
            account.data == data,
    {
        Account { owner, data }
    }
}

} // verus!
