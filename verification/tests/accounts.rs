use contract_patterns::account::AccountId;
use contract_patterns::account_map::AccountMap;
use contract_patterns::sorted::sorted_unique;
use contract_patterns::text::stored_len;

fn with(index: usize, byte: u8) -> AccountId {
    let mut bytes = [0u8; 32];
    bytes[index] = byte;
    AccountId::from(bytes)
}

#[test]
fn account_equality_is_by_bytes() {
    assert_eq!(AccountId::from([3u8; 32]), AccountId { bytes: [3u8; 32] });
    assert_eq!(with(31, 1), with(31, 1));
    assert_ne!(with(31, 1), with(31, 2));
    assert_ne!(with(31, 1), with(30, 1));
    assert_ne!(with(0, 1), AccountId::from([0u8; 32]));
}

#[test]
fn account_order_weighs_the_first_byte_most() {
    let zero = AccountId::from([0u8; 32]);
    assert!(!zero.precedes(&zero));
    assert!(zero.precedes(&with(31, 1)));
    assert!(!with(31, 1).precedes(&zero));
    assert!(with(31, 255).precedes(&with(30, 1)));
    assert!(with(1, 255).precedes(&with(0, 1)));
    assert!(!with(0, 1).precedes(&with(1, 255)));
    assert!(with(0, 1).precedes(&with(0, 2)));
    assert!(!with(5, 9).precedes(&with(5, 9)));
    // the order is the order of the byte arrays
    let a = with(7, 3);
    let b = with(8, 200);
    assert_eq!(a.precedes(&b), a.bytes < b.bytes);
    assert_eq!(b.precedes(&a), b.bytes < a.bytes);
}

#[test]
fn account_map_holds_one_entry_for_each_account() {
    let mut map: AccountMap<u32> = AccountMap::new();
    assert!(!map.contains(with(0, 1)));
    assert_eq!(map.get(with(0, 1)), None);
    map.insert(with(0, 1), 10);
    map.insert(with(0, 2), 20);
    assert!(map.contains(with(0, 1)));
    assert_eq!(map.get(with(0, 1)), Some(&10));
    assert_eq!(map.get(with(0, 2)), Some(&20));
    map.insert(with(0, 1), 11);
    assert_eq!(map.get(with(0, 1)), Some(&11));
    assert_eq!(map.get(with(0, 2)), Some(&20));
    assert_eq!(map.get(with(0, 3)), None);
    assert_eq!(map.into_vec(), vec![(with(0, 1), 11), (with(0, 2), 20)]);
}

#[test]
fn account_map_from_a_list_takes_the_last_entry_of_each_account() {
    let map = AccountMap::from_vec(vec![(with(0, 1), 'a'), (with(0, 2), 'b'), (with(0, 1), 'c')]);
    assert_eq!(map.get(with(0, 1)), Some(&'c'));
    assert_eq!(map.get(with(0, 2)), Some(&'b'));
    assert_eq!(map.into_vec().len(), 2);
}

#[test]
fn sorted_unique_orders_and_drops_repeats() {
    let v = vec![with(0, 3), with(31, 1), with(0, 3), with(0, 1), with(31, 1)];
    assert_eq!(sorted_unique(&v), vec![with(31, 1), with(0, 1), with(0, 3)]);
    assert_eq!(sorted_unique(&Vec::new()), Vec::<AccountId>::new());
    assert_eq!(sorted_unique(&vec![with(4, 4)]), vec![with(4, 4)]);
    // as sorting and removing neighbours that repeat does
    let mut expected: Vec<[u8; 32]> = v.iter().map(|a| a.bytes).collect();
    expected.sort();
    expected.dedup();
    let got: Vec<[u8; 32]> = sorted_unique(&v).iter().map(|a| a.bytes).collect();
    assert_eq!(got, expected);
}

#[test]
fn stored_len_counts_bytes() {
    assert_eq!(stored_len(&String::new()), 0);
    assert_eq!(stored_len(&String::from("Alice")), 5);
    assert_eq!(stored_len(&String::from("é")), 2);
    assert_eq!(stored_len(&String::from("Alice -------------------")), 25);
}
