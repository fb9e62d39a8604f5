//! The enumeration extension: view-only methods for paging through tokens,
//! per owner or overall, and for the token supply.

use vstd::prelude::*;
use crate::ntnft::token::Token;
use crate::types::{AccountId, U128};

verus! {

/// Methods to find which tokens an account owns, to page through all tokens,
/// and to learn the total supply.
pub trait NTNFTEnumeration {
    /// Returns the total supply of tokens (a `U128`, so that JSON clients
    /// receive it as a string and are not held to 2^53).
    fn ntnft_total_supply(&self) -> U128;

    /// Returns a page of all tokens: at most `limit` of them (no limit when
    /// `None`), starting at index `from_index` (0 when `None`).
    fn ntnft_tokens(&self, from_index: Option<U128>, limit: Option<u64>) -> Vec<Token>;

    /// Returns the number of tokens that `account_id` owns.
    fn ntnft_supply_for_owner(&self, account_id: AccountId) -> U128;

    /// Returns a page of the tokens that `account_id` owns: at most `limit`
    /// of them (no limit when `None`), starting at index `from_index` (0 when
    /// `None`).
    fn ntnft_tokens_for_owner(
        &self,
        account_id: AccountId,
        from_index: Option<U128>,
        limit: Option<u64>,
    ) -> Vec<Token>;
}

} // verus!
