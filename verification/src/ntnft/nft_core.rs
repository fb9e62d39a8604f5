//! The core NTNFT interface.

use vstd::prelude::*;
use crate::ntnft::token::{Token, TokenId};

verus! {

/// The methods every NTNFT contract offers; the core standard lays out the
/// reasoning for each.
pub trait NTNFTCore {
    /// Returns the token with the given `token_id`, or `None` if there is no
    /// such token.
    fn ntnft_token(&self, token_id: TokenId) -> Option<Token>;
}

} // verus!
