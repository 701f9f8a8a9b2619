use ockam_relay::table::Table;
use ockam_relay::Address;

#[test]
fn table_behaves_as_a_map() {
    let mut table: Table<Address, u32> = Table::new();
    assert!(table.is_empty());
    assert_eq!(table.insert(Address::local("a"), 1), None);
    assert_eq!(table.insert(Address::local("b"), 2), None);
    assert_eq!(table.insert(Address::local("a"), 3), Some(1));
    assert_eq!(table.len(), 2);
    assert!(!table.is_empty());
    assert_eq!(table.get(&Address::local("a")), Some(&3));
    assert_eq!(table.get(&Address::local("b")), Some(&2));
    assert_eq!(table.get(&Address::local("c")), None);
    assert!(table.contains_key(&Address::local("b")));
    assert!(!table.contains_key(&Address::new(1, "b")));
    assert_eq!(table.remove(&Address::local("b")), Some(2));
    assert_eq!(table.remove(&Address::local("b")), None);
    assert_eq!(table.len(), 1);
}

#[test]
fn table_entries_can_be_walked() {
    let mut table: Table<String, u32> = Table::new();
    table.insert("x".to_string(), 10);
    table.insert("y".to_string(), 20);
    table.insert("x".to_string(), 30);
    let mut seen: Vec<(String, u32)> = Vec::new();
    for i in 0..table.count() {
        seen.push((table.key_at(i).clone(), *table.value_at(i)));
    }
    seen.sort();
    assert_eq!(seen, vec![("x".to_string(), 30), ("y".to_string(), 20)]);
}
