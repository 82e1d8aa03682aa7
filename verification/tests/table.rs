use stellopay_core::address::Address;
use stellopay_core::env::{contains_address, copy_addresses, Env};
use stellopay_core::table::Table;

fn addr(n: u8) -> Address {
    Address { strkey: [n; 56] }
}

#[test]
fn table_keeps_the_last_value_under_a_key() {
    let mut table: Table<u128, u8> = Table::new();
    assert_eq!(table.get(&1), None);
    table.set(1, 10);
    table.set(2, 20);
    table.set(1, 11);
    assert_eq!(table.get(&1), Some(&11));
    assert_eq!(table.get(&2), Some(&20));
    assert!(table.has(&2));
    table.remove(&1);
    assert_eq!(table.get(&1), None);
    assert_eq!(table.get(&2), Some(&20));
    table.remove(&7);
    assert!(!table.has(&7));
    table.set(1, 12);
    assert_eq!(table.get(&1), Some(&12));
}

#[test]
fn addresses_differ_in_any_character() {
    let one = addr(65);
    let mut other = addr(65);
    assert_eq!(one, other);
    other.strkey[55] = 66;
    assert_ne!(one, other);
    let list = vec![addr(1), addr(2)];
    assert!(contains_address(&list, &addr(2)));
    assert!(!contains_address(&list, &addr(3)));
    assert_eq!(copy_addresses(&list), list);
    let env = Env { contract: addr(9), timestamp: 0, authorized: list };
    assert!(env.is_authorized(&addr(1)));
    assert!(!env.is_authorized(&addr(9)));
}
