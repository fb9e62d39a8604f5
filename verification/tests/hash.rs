use near_contract_standards::ntnft::hash_account_id;
use near_contract_standards::types::AccountId;

#[test]
fn hash_of_account_is_its_sha256() {
    let h = hash_account_id(&AccountId::new("alice.near".to_string()));
    assert_eq!(
        h,
        [
            45, 213, 221, 165, 64, 118, 123, 58, 26, 163, 53, 68, 188, 186, 56, 4, 47, 77, 246,
            222, 155, 221, 180, 103, 152, 178, 148, 129, 200, 66, 197, 88
        ]
    );
}

#[test]
fn hash_of_another_account() {
    let h = hash_account_id(&AccountId::new("bob.testnet".to_string()));
    assert_eq!(
        h,
        [
            253, 127, 203, 164, 228, 111, 200, 102, 102, 215, 42, 60, 48, 43, 252, 88, 199, 175,
            218, 183, 36, 194, 154, 35, 222, 210, 162, 246, 86, 11, 157, 224
        ]
    );
}

#[test]
fn hash_of_empty_name() {
    let h = hash_account_id(&AccountId::new(String::new()));
    assert_eq!(
        h,
        [
            227, 176, 196, 66, 152, 252, 28, 20, 154, 251, 244, 200, 153, 111, 185, 36, 39, 174,
            65, 228, 100, 155, 147, 76, 164, 149, 153, 27, 120, 82, 184, 85
        ]
    );
}

#[test]
fn same_account_same_hash() {
    let a = hash_account_id(&AccountId::new("carol.near".to_string()));
    let b = hash_account_id(&AccountId::new("carol.near".to_string()));
    assert_eq!(a, b);
    assert_ne!(a, hash_account_id(&AccountId::new("carol.near2".to_string())));
}
