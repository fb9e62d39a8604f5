//! Verified core of the non-transferable NFT (NTNFT) contract standard:
//! the shared account and token types, the storage-deposit refund rule,
//! account-id hashing, and the write-batching of a lookup set.

pub mod crypto;
pub mod types;
pub mod ntnft;
pub mod store;
