use contract_patterns::account::AccountId;
use contract_patterns::host::SetCodeHash;
use contract_patterns::upgradability::set_code_hash::address_store::AddressStore;
use contract_patterns::upgradability::set_code_hash::efficient_address_store::EfficientAddressStore;
use contract_patterns::upgradability::set_code_hash::named_address_store::NamedAddressStore;

fn entry(first: u8) -> AccountId {
    let mut bytes: [u8; 32] = [0; 32];
    bytes[0] = first;
    AccountId::from(bytes)
}

#[test]
fn address_store_adding_address_works() {
    let mut address_store = AddressStore::new();
    let entry_1 = entry(1);
    let entry_2 = entry(4);
    let non_entry = entry(3);

    address_store.add_new_address(entry_1);
    address_store.add_new_address(entry_2);
    address_store.add_new_address(entry_2);
    assert!(address_store.addresses.contains(&entry_2));
    assert!(!address_store.addresses.contains(&non_entry));
}

#[test]
fn address_store_keeps_repeats_in_order() {
    let mut address_store = AddressStore::new();
    address_store.add_new_address(entry(4));
    address_store.add_new_address(entry(1));
    address_store.add_new_address(entry(4));
    assert_eq!(address_store.get_addresses(), vec![entry(4), entry(1), entry(4)]);
    assert_eq!(address_store.set_code([5u8; 32]), SetCodeHash { code_hash: [5u8; 32] });
    assert_eq!(address_store.get_addresses(), vec![entry(4), entry(1), entry(4)]);
}

#[test]
fn efficient_address_store_adding_address_works() {
    let mut address_store = EfficientAddressStore::new();
    let entry_1 = entry(1);
    let entry_2 = entry(4);

    address_store.add_new_address(entry_1);
    address_store.add_new_address(entry_2);
    address_store.add_new_address(entry_2);
    assert!(address_store.addresses.contains(&entry_2));
}

#[test]
fn efficiency_fix_works() {
    let mut address_store = EfficientAddressStore::new();
    let entry_1 = entry(1);
    let entry_2 = entry(4);

    address_store.add_new_address(entry_1);
    address_store.add_new_address(entry_2);
    address_store.add_new_address(entry_1);

    let entry_1_cnt = address_store.addresses.iter().filter(|&x| *x == entry_1).count();
    assert_eq!(entry_1_cnt, 1);
}

#[test]
fn migration_removes_repeats() {
    let (a, b, c) = (entry(1), entry(2), entry(3));
    let mut legacy = AddressStore::new();
    for x in [a, b, a, c, b] {
        legacy.add_new_address(x);
    }
    assert_eq!(legacy.get_addresses().len(), 5);
    assert_eq!(legacy.set_code([1u8; 32]), SetCodeHash { code_hash: [1u8; 32] });

    let mut store = EfficientAddressStore::from_legacy(legacy);
    assert_eq!(store.get_addresses(), vec![a, b, a, c, b]);
    assert!(!store.migration_performed);
    store.migrate();
    assert!(store.migration_performed);
    assert_eq!(store.get_addresses(), vec![a, b, c]);
}

#[test]
fn migration_sorts_by_bytes() {
    let mut low = [0u8; 32];
    low[31] = 9;
    let mut mid = [0u8; 32];
    mid[1] = 1;
    let high = [0xffu8; 32];
    let mut legacy = AddressStore::new();
    for bytes in [high, mid, low, mid, high, low] {
        legacy.add_new_address(AccountId::from(bytes));
    }
    let mut store = EfficientAddressStore::from_legacy(legacy);
    store.migrate();
    assert_eq!(
        store.get_addresses(),
        vec![AccountId::from(low), AccountId::from(mid), AccountId::from(high)]
    );
}

#[test]
fn efficient_migration_runs_once() {
    let mut legacy = AddressStore::new();
    for x in [entry(7), entry(2), entry(7)] {
        legacy.add_new_address(x);
    }
    let mut store = EfficientAddressStore::from_legacy(legacy);
    store.migrate();
    assert_eq!(store.get_addresses(), vec![entry(2), entry(7)]);
    store.migrate();
    assert_eq!(store.get_addresses(), vec![entry(2), entry(7)]);
    // an address that comes later stays where it was put
    store.add_new_address(entry(1));
    store.add_new_address(entry(2));
    assert_eq!(store.get_addresses(), vec![entry(2), entry(7), entry(1)]);
    store.migrate();
    assert_eq!(store.get_addresses(), vec![entry(2), entry(7), entry(1)]);
    assert_eq!(store.set_code([2u8; 32]), SetCodeHash { code_hash: [2u8; 32] });
}

#[test]
fn efficient_migration_of_nothing() {
    let mut store = EfficientAddressStore::new();
    store.migrate();
    assert!(store.migration_performed);
    assert_eq!(store.get_addresses(), Vec::<AccountId>::new());
}

#[test]
fn named_address_store_adding_address_works() {
    let mut address_store = NamedAddressStore::new();
    let address_1 = entry(1);
    let address_2 = entry(4);

    address_store.add_new_address(address_1);
    address_store.add_new_address(address_2);
    assert!(address_store.storage.addresses.contains(&(address_2, None)));
}

#[test]
fn setting_name_works() {
    let mut address_store = NamedAddressStore::new();
    let address_1 = entry(1);
    let address_2 = entry(4);

    address_store.add_new_address(address_1);
    address_store.add_new_address(address_2);
    address_store.set_name_for_address(address_1, String::from("aleph"));
    assert_eq!(address_store.get_name_for_address(address_1), Some(String::from("aleph")));
}

#[test]
fn named_store_names() {
    let mut store = NamedAddressStore::new();
    store.add_new_address(entry(1));
    store.add_new_address(entry(4));
    store.add_new_address(entry(1));
    assert_eq!(store.get_addresses(), vec![entry(1), entry(4)]);
    // an unknown address gets no name and no entry
    store.set_name_for_address(entry(9), String::from("nobody"));
    assert_eq!(store.get_name_for_address(entry(9)), None);
    assert_eq!(store.get_addresses(), vec![entry(1), entry(4)]);
    // a known address without a name
    assert_eq!(store.get_name_for_address(entry(4)), None);
    store.set_name_for_address(entry(4), String::from("zero"));
    store.set_name_for_address(entry(4), String::from("aleph"));
    assert_eq!(store.get_name_for_address(entry(4)), Some(String::from("aleph")));
    assert_eq!(store.get_name_for_address(entry(1)), None);
    assert_eq!(store.set_code([8u8; 32]), SetCodeHash { code_hash: [8u8; 32] });
}

#[test]
fn named_migration_moves_the_old_list() {
    let (a, b, c) = (entry(1), entry(2), entry(3));
    let mut legacy = AddressStore::new();
    for x in [c, b, c, a, b] {
        legacy.add_new_address(x);
    }
    // the list went through the store in between without being migrated there
    let store = EfficientAddressStore::from_legacy(legacy);
    let mut named = NamedAddressStore::from_legacy(store);
    assert_eq!(named.get_addresses(), Vec::<AccountId>::new());
    assert!(!named.storage.migration_performed);

    named.migrate();
    assert!(named.storage.migration_performed);
    assert_eq!(named.get_addresses(), vec![a, b, c]);
    assert_eq!(named._old_storage, vec![a, b, c]);
    assert_eq!(named.storage.addresses, vec![(a, None), (b, None), (c, None)]);

    // a second call changes nothing, also not a name given in between
    named.set_name_for_address(b, String::from("bet"));
    named.add_new_address(entry(0));
    named.migrate();
    assert_eq!(named.get_addresses(), vec![a, b, c, entry(0)]);
    assert_eq!(named.get_name_for_address(b), Some(String::from("bet")));
    assert_eq!(named._old_storage, vec![a, b, c]);
}
