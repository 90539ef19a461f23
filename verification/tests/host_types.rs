use contract_patterns::account::AccountId;
use contract_patterns::sorted::sorted_unique;

fn samples() -> Vec<[u8; 32]> {
    let mut list = Vec::new();
    for i in 0..32usize {
        for byte in [0u8, 1, 2, 127, 128, 254, 255] {
            let mut bytes = [0u8; 32];
            bytes[i] = byte;
            list.push(bytes);
            let mut bytes = [0x55u8; 32];
            bytes[31 - i] = byte;
            list.push(bytes);
        }
    }
    list.push([0xffu8; 32]);
    list
}

#[test]
fn order_is_the_order_of_the_hosts_accounts() {
    let list = samples();
    for a in list.iter().step_by(3) {
        for b in list.iter().step_by(5) {
            let ours = AccountId::from(*a).precedes(&AccountId::from(*b));
            let theirs = ink_env::AccountId::from(*a) < ink_env::AccountId::from(*b);
            assert_eq!(ours, theirs);
            let same = AccountId::from(*a) == AccountId::from(*b);
            assert_eq!(same, ink_env::AccountId::from(*a) == ink_env::AccountId::from(*b));
        }
    }
}

#[test]
fn sorted_unique_is_sort_and_dedup_of_the_hosts_accounts() {
    // the samples twice over, the second time backwards
    let mut list = samples();
    let mut backwards = samples();
    backwards.reverse();
    list.extend(backwards);

    let ours: Vec<AccountId> = list.iter().map(|bytes| AccountId::from(*bytes)).collect();
    let got: Vec<[u8; 32]> = sorted_unique(&ours).iter().map(|a| a.bytes).collect();

    let mut theirs: Vec<ink_env::AccountId> =
        list.iter().map(|bytes| ink_env::AccountId::from(*bytes)).collect();
    theirs.sort();
    theirs.dedup();
    let expected: Vec<[u8; 32]> = theirs
        .iter()
        .map(|a| {
            let bytes: &[u8; 32] = a.as_ref();
            *bytes
        })
        .collect();
    assert_eq!(got, expected);
}
