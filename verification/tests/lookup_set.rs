use near_contract_standards::store::LookupSet;

#[test]
fn new_set_has_no_writes_and_keeps_its_prefix() {
    let mut s: LookupSet<u32> = LookupSet::new(vec![b's', 1]);
    assert_eq!(s.prefix(), &[b's', 1][..]);
    assert!(s.take_writes().is_empty());
}

#[test]
fn extend_puts_every_element_in_order() {
    let mut s: LookupSet<String> = LookupSet::new(vec![b'o']);
    s.put("a".to_string());
    s.extend(vec!["b".to_string(), "c".to_string(), "a".to_string()]);
    assert_eq!(
        s.take_writes(),
        vec!["a".to_string(), "b".to_string(), "c".to_string(), "a".to_string()]
    );
    assert!(s.take_writes().is_empty());
    assert_eq!(s.prefix(), &[b'o'][..]);
}

#[test]
fn extend_with_nothing_changes_nothing() {
    let mut s: LookupSet<u64> = LookupSet::new(vec![]);
    s.put(7);
    s.extend(vec![]);
    assert_eq!(s.take_writes(), vec![7]);
}

#[test]
fn extending_twice_is_extending_once_with_both() {
    let mut s1: LookupSet<u8> = LookupSet::new(vec![0]);
    s1.extend(vec![1, 2]);
    s1.extend(vec![3]);
    let mut s2: LookupSet<u8> = LookupSet::new(vec![0]);
    s2.extend(vec![1, 2, 3]);
    assert_eq!(s1.take_writes(), s2.take_writes());
}
