use near_contract_standards::ntnft::{Token, TokenMetadata};
use near_contract_standards::types::{AccountId, U128};

fn metadata(title: &str) -> TokenMetadata {
    TokenMetadata {
        title: Some(title.to_string()),
        description: None,
        media: None,
        media_hash: None,
        copies: Some(1),
        issued_at: None,
        expires_at: None,
        starts_at: None,
        updated_at: None,
        extra: None,
        reference: None,
        reference_hash: None,
    }
}

#[test]
fn tokens_compare_by_their_fields() {
    let a = Token {
        token_id: "1".to_string(),
        owner_id: AccountId::new("alice.near".to_string()),
        metadata: Some(metadata("badge")),
    };
    let b = a.clone();
    assert_eq!(a, b);
    let c = Token { metadata: None, ..b.clone() };
    assert_ne!(a, c);
    assert_eq!(c.owner_id.as_str(), "alice.near");
}

#[test]
fn u128_wraps_its_value() {
    assert_eq!(U128(5).0, 5);
}
