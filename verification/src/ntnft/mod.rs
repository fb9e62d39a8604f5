//! The non-transferable NFT standard: core and enumeration interfaces,
//! the token record, and the helpers that contracts share.

pub mod nft_core;
pub mod enumeration;
pub mod token;
pub mod utils;

pub use self::nft_core::NTNFTCore;
pub use self::enumeration::NTNFTEnumeration;
pub use self::token::{Token, TokenId, TokenMetadata};
pub use self::utils::{
    hash_account_id, refund_deposit, refund_deposit_to_account, CallContext, RefundError, Transfer,
};
