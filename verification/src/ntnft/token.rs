//! The token record that the standard hands out.

use vstd::prelude::*;
use crate::types::AccountId;

verus! {

/// Token ids are strings. Auto-incrementing numbers may serve as unique ids,
/// but they are stringified, which keeps ids open to chain-agnostic
/// conventions such as bridging tokens across chains.
pub type TokenId = String;

/// Per-token metadata (the optional metadata extension).
#[derive(Debug, Clone, PartialEq)]
pub struct TokenMetadata {
    /// Title of the token.
    pub title: Option<String>,
    /// Free-form description.
    pub description: Option<String>,
    /// URL of the associated media.
    pub media: Option<String>,
    /// SHA-256 hash of the content that `media` refers to.
    pub media_hash: Option<Vec<u8>>,
    /// Number of copies of this metadata in existence when the token was minted.
    pub copies: Option<u64>,
    /// When the token was issued or minted.
    pub issued_at: Option<String>,
    /// When the token expires.
    pub expires_at: Option<String>,
    /// When the token starts being valid.
    pub starts_at: Option<String>,
    /// When the token was last updated.
    pub updated_at: Option<String>,
    /// Anything extra that the token stores on-chain.
    pub extra: Option<String>,
    /// URL of an off-chain document with more information.
    pub reference: Option<String>,
    /// SHA-256 hash of the document that `reference` refers to.
    pub reference_hash: Option<Vec<u8>>,
}

/// A token: its id, its owner, and the metadata extension as an optional field.
#[derive(Debug, Clone, PartialEq)]
pub struct Token {
    pub token_id: TokenId,
    pub owner_id: AccountId,
    pub metadata: Option<TokenMetadata>,
}

} // verus!
