//! Plain value types shared by the standard.

use vstd::prelude::*;

verus! {

/// An amount of yoctoNEAR.
pub type Balance = u128;

/// A 32-byte hash digest.
pub type CryptoHash = [u8; 32];

/// The name of an account on the chain.
#[derive(Debug, PartialEq, Eq)]
pub struct AccountId {
    id: String,
}

impl View for AccountId {
    type V = Seq<char>;

    closed spec fn view(&self) -> Seq<char> {
        self.id@
    }
}

impl AccountId {
    /// Wraps the given account name.
    pub fn new(id: String) -> (r: AccountId)
        ensures
            r@ == id@,
    {
        AccountId { id }
    }

    /// The account name as a string slice.
    pub fn as_str(&self) -> (r: &str)
        ensures
            r@ == self@,
    {
        self.id.as_str()
    }
}

impl Clone for AccountId {
    fn clone(&self) -> (r: AccountId)
        ensures
            r == *self,
    {
        AccountId { id: self.id.clone() }
    }
}

/// An unsigned 128-bit integer that travels as a decimal string in JSON.
#[derive(Debug, Clone, Copy, PartialEq, Eq)]
pub struct U128(pub u128);

} // verus!
