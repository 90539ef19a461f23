//! The address store whose addresses can carry a name. It takes over the
//! list of the stores before it; `migrate` then moves the addresses, without
//! repeats, into the new storage, once, where each starts without a name.

use vstd::prelude::*;
use crate::account::AccountId;
use crate::host::SetCodeHash;
use crate::sorted::{
    is_sorted_set_of, lemma_increasing_no_duplicates, lemma_sorted_set, sorted_set, sorted_unique,
};
use crate::upgradability::set_code_hash::efficient_address_store::EfficientAddressStore;

verus! {

/// The storage that the new code works on.
pub struct NewStorage {
    /// The stored addresses, each with its name if it has one.
    pub addresses: Vec<(AccountId, Option<String>)>,
    /// Whether the old list has been moved in. Once set it stays set.
    pub migration_performed: bool,
}

pub struct NamedAddressStore {
    /// The list that the old code left behind.
    pub _old_storage: Vec<AccountId>,
    /// The storage of the new code.
    pub storage: NewStorage,
}

/// The content of a `NamedAddressStore` as mathematical values.
pub struct NamedAddressStoreView {
    pub old_storage: Seq<AccountId>,
    pub addresses: Seq<(AccountId, Option<String>)>,
    pub migration_performed: bool,
}

/// `i` is the first place in `s` that holds `address`.
pub open spec fn first_at(s: Seq<(AccountId, Option<String>)>, address: AccountId, i: int) -> bool {
    &&& 0 <= i < s.len()
    &&& s[i].0 == address
    &&& forall|j: int| 0 <= j < i ==> s[j].0 != address
}

/// Whether `s` holds `address`.
pub open spec fn holds(s: Seq<(AccountId, Option<String>)>, address: AccountId) -> bool {
    exists|i: int| first_at(s, address, i)
}

/// The first place in `s` that holds `address`, where there is one.
pub open spec fn place_of(s: Seq<(AccountId, Option<String>)>, address: AccountId) -> int {
    choose|i: int| first_at(s, address, i)
}

/// The addresses of `s`, in its order.
pub open spec fn keys(s: Seq<(AccountId, Option<String>)>) -> Seq<AccountId> {
    Seq::new(s.len(), |i: int| s[i].0)
}

/// Each address of `s` without a name, in its order.
pub open spec fn unnamed(s: Seq<AccountId>) -> Seq<(AccountId, Option<String>)> {
    Seq::new(s.len(), |i: int| (s[i], None::<String>))
}

/// Where `s` holds `address` at `i` and nowhere before, `i` is its place.
pub proof fn lemma_place_of(s: Seq<(AccountId, Option<String>)>, address: AccountId, i: int)
    requires
        first_at(s, address, i),
    ensures
        holds(s, address),
        place_of(s, address) == i,
{
    let p = place_of(s, address);
    assert(first_at(s, address, p));
    if p < i {
        assert(s[p].0 != address);
    } else if i < p {
        assert(s[i].0 != address);
    }
}

/// Where no place of `s` holds `address`, `s` does not hold it.
pub proof fn lemma_not_held(s: Seq<(AccountId, Option<String>)>, address: AccountId)
    requires
        forall|j: int| 0 <= j < s.len() ==> s[j].0 != address,
    ensures
        !holds(s, address),
{
    if holds(s, address) {
        let p = place_of(s, address);
        assert(first_at(s, address, p));
    }
}

impl NamedAddressStoreView {
    /// The content after `migrate`: as it was if the migration has been
    /// performed before; else the old list reduced to its addresses in
    /// ascending order, each once, the new storage holding exactly these
    /// without names, and the migration marked as performed.
    pub open spec fn migrate(self) -> NamedAddressStoreView {
        if self.migration_performed {
            self
        } else {
            NamedAddressStoreView {
                old_storage: sorted_set(self.old_storage),
                addresses: unnamed(sorted_set(self.old_storage)),
                migration_performed: true,
            }
        }
    }

    /// The content after `address` has been given the name `name`: the
    /// first entry of the address carries the name; a store that does not
    /// hold the address stays as it was.
    pub open spec fn set_name_for_address(
        self,
        address: AccountId,
        name: String,
    ) -> NamedAddressStoreView {
        if holds(self.addresses, address) {
            NamedAddressStoreView {
                addresses: self.addresses.update(
                    place_of(self.addresses, address),
                    (address, Some(name)),
                ),
                ..self
            }
        } else {
            self
        }
    }

    /// The name that the store holds for `address`.
    pub open spec fn get_name_for_address(self, address: AccountId) -> Option<String> {
        if holds(self.addresses, address) {
            self.addresses[place_of(self.addresses, address)].1
        } else {
            None
        }
    }

    /// The content after `address` has been added: put at the end without a
    /// name, unless the store holds it already.
    pub open spec fn add_new_address(self, address: AccountId) -> NamedAddressStoreView {
        if holds(self.addresses, address) {
            self
        } else {
            NamedAddressStoreView {
                addresses: self.addresses.push((address, None::<String>)),
                ..self
            }
        }
    }
}

impl View for NamedAddressStore {
    type V = NamedAddressStoreView;

    open spec fn view(&self) -> NamedAddressStoreView {
        NamedAddressStoreView {
            old_storage: self._old_storage@,
            addresses: self.storage.addresses@,
            migration_performed: self.storage.migration_performed,
        }
    }
}

impl NamedAddressStore {
    /// An empty address store, with nothing migrated yet.
    pub fn new() -> (s: Self)
        ensures
            s@ == (NamedAddressStoreView {
                old_storage: Seq::empty(),
                addresses: Seq::empty(),
                migration_performed: false,
            }),
    {
        NamedAddressStore {
            _old_storage: Vec::new(),
            storage: NewStorage { addresses: Vec::new(), migration_performed: false },
        }
    }

    /// Takes over the list that an earlier address store leaves behind,
    /// with the new storage empty and nothing migrated yet.
    pub fn from_legacy(legacy: EfficientAddressStore) -> (s: Self)
        ensures
            s@ == (NamedAddressStoreView {
                old_storage: legacy@.addresses,
                addresses: Seq::empty(),
                migration_performed: false,
            }),
    {
        NamedAddressStore {
            _old_storage: legacy.addresses,
            storage: NewStorage { addresses: Vec::new(), migration_performed: false },
        }
    }

    /// Performs the migration from the old list: removes its repeats, which
    /// leaves it in ascending order, and makes the new storage hold exactly
    /// its addresses, each without a name. The first call migrates; every
    /// later one changes nothing.
    pub fn migrate(&mut self)
        ensures
            final(self)@ == old(self)@.migrate(),
            old(self).storage.migration_performed ==> *final(self) == *old(self),
            !old(self).storage.migration_performed ==> is_sorted_set_of(
                final(self)@.old_storage,
                old(self)@.old_storage,
            ) && keys(final(self)@.addresses) == final(self)@.old_storage && keys(
                final(self)@.addresses,
            ).no_duplicates(),
    {
        // We only want to perform a migration if it has not happened already.
        if self.storage.migration_performed {
            return ;
        }
        // Remove duplicates.
        let unique = sorted_unique(&self._old_storage);
        proof {
            lemma_increasing_no_duplicates(unique@);
        }
        // Move data to the new format.
        let mut named: Vec<(AccountId, Option<String>)> = Vec::new();
        let mut i: usize = 0;
        while i < unique.len()
            invariant
                i <= unique.len(),
                named@ == unnamed(unique@.subrange(0, i as int)),
            decreases unique.len() - i,
        {
            named.push((unique[i], None));
            i += 1;
        }
        assert(unique@.subrange(0, i as int) =~= unique@);
        self._old_storage = unique;
        self.storage.addresses = named;
        self.storage.migration_performed = true;
    }

    fn find(&self, address: AccountId) -> (r: Option<usize>)
        ensures
            match r {
                Some(i) => first_at(self@.addresses, address, i as int),
                None => !holds(self@.addresses, address),
            },
    {
        let mut i: usize = 0;
        while i < self.storage.addresses.len()
            invariant
                i <= self.storage.addresses.len(),
                forall|j: int| 0 <= j < i ==> self.storage.addresses[j].0 != address,
            decreases self.storage.addresses.len() - i,
        {
            if self.storage.addresses[i].0 == address {
                return Some(i);
            }
            i += 1;
        }
        proof {
            lemma_not_held(self@.addresses, address);
        }
        None
    }

    /// Sets the name of `address`, if the store holds the address.
    pub fn set_name_for_address(&mut self, address: AccountId, name: String)
        ensures
            final(self)@ == old(self)@.set_name_for_address(address, name),
    {
        match self.find(address) {
            Some(i) => {
                proof {
                    lemma_place_of(self@.addresses, address, i as int);
                }
                self.storage.addresses.set(i, (address, Some(name)));
            },
            None => {},
        }
    }

    /// Gets the name of `address`: `None` if the store does not hold the
    /// address, or holds it without a name.
    pub fn get_name_for_address(&self, address: AccountId) -> (r: Option<String>)
        ensures
            r == self@.get_name_for_address(address),
    {
        match self.find(address) {
            Some(i) => {
                proof {
                    lemma_place_of(self@.addresses, address, i as int);
                }
                match &self.storage.addresses[i].1 {
                    Some(name) => Some(name.clone()),
                    None => None,
                }
            },
            None => None,
        }
    }

    /// Adds `address` to the store, without a name, but only if it is not
    /// already present.
    pub fn add_new_address(&mut self, address: AccountId)
        ensures
            final(self)@ == old(self)@.add_new_address(address),
    {
        if self.find(address).is_none() {
            self.storage.addresses.push((address, None));
        }
    }

    /// The stored addresses, in the order of the store.
    pub fn get_addresses(&self) -> (r: Vec<AccountId>)
        ensures
            r@ == keys(self@.addresses),
    {
        let mut r: Vec<AccountId> = Vec::new();
        let mut i: usize = 0;
        while i < self.storage.addresses.len()
            invariant
                i <= self.storage.addresses.len(),
                r@ == keys(self.storage.addresses@.subrange(0, i as int)),
            decreases self.storage.addresses.len() - i,
        {
            r.push(self.storage.addresses[i].0);
            i += 1;
        }
        r
    }

    /// Names the request that replaces the contract's code by `code_hash`,
    /// for the host to carry out. Anyone may ask for it, and the stored
    /// addresses are not touched.
    pub fn set_code(&self, code_hash: [u8; 32]) -> (r: SetCodeHash)
        ensures
            r == (SetCodeHash { code_hash }),
    {
        SetCodeHash { code_hash }
    }
}

/// Calling `migrate` twice in a row leaves the store as calling it once does.
pub proof fn lemma_migrate_idempotent(s: NamedAddressStoreView)
    ensures
        s.migrate().migrate() == s.migrate(),
{
}

/// The first migration leaves in the new storage exactly the addresses of
/// the old list, each once and each without a name.
pub proof fn lemma_migration_removes_repeats(s: NamedAddressStoreView)
    requires
        !s.migration_performed,
    ensures
        keys(s.migrate().addresses).no_duplicates(),
        forall|a: AccountId| keys(s.migrate().addresses).contains(a) <==> s.old_storage.contains(a),
        forall|i: int| 0 <= i < s.migrate().addresses.len() ==> s.migrate().addresses[i].1 is None,
{
    lemma_sorted_set(s.old_storage);
    assert(keys(s.migrate().addresses) =~= sorted_set(s.old_storage));
}

/// Once the migration is performed it stays performed.
pub proof fn lemma_migration_flag_monotonic(
    s: NamedAddressStoreView,
    address: AccountId,
    name: String,
)
    requires
        s.migration_performed,
    ensures
        s.migrate().migration_performed,
        s.set_name_for_address(address, name).migration_performed,
        s.add_new_address(address).migration_performed,
{
}

/// A store that holds no address twice keeps it so, whatever is added or named.
pub proof fn lemma_keys_stay_distinct(s: NamedAddressStoreView, address: AccountId, name: String)
    requires
        keys(s.addresses).no_duplicates(),
    ensures
        keys(s.add_new_address(address).addresses).no_duplicates(),
        keys(s.set_name_for_address(address, name).addresses).no_duplicates(),
{
    let k = keys(s.addresses);
    if holds(s.addresses, address) {
        let p = place_of(s.addresses, address);
        assert(first_at(s.addresses, address, p));
        let t = s.set_name_for_address(address, name).addresses;
        assert(keys(t) =~= k);
    } else {
        let t = s.add_new_address(address).addresses;
        let kt = keys(t);
        assert forall|i: int, j: int| 0 <= i < kt.len() && 0 <= j < kt.len() && i != j implies kt[i]
            != kt[j] by {
            if i < k.len() && j < k.len() {
                assert(k[i] != k[j]);
            } else if i < k.len() {
                lemma_held_at(s.addresses, address, i);
            } else {
                lemma_held_at(s.addresses, address, j);
            }
        }
    }
}

/// A list that has `address` at some place holds it.
pub proof fn lemma_held_at(s: Seq<(AccountId, Option<String>)>, address: AccountId, i: int)
    requires
        0 <= i < s.len(),
    ensures
        s[i].0 == address ==> holds(s, address),
    decreases i,
{
    if s[i].0 == address {
        if forall|j: int| 0 <= j < i ==> s[j].0 != address {
            assert(first_at(s, address, i));
        } else {
            let j = choose|j: int| 0 <= j < i && s[j].0 == address;
            lemma_held_at(s, address, j);
        }
    }
}

} // verus!
