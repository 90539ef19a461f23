//! The address store without repeats. It takes over the list of
//! `address_store`; `migrate` then removes the repeats from it, once.

use vstd::prelude::*;
use crate::account::AccountId;
use crate::host::SetCodeHash;
use crate::sorted::{
    is_sorted_set_of, lemma_increasing_no_duplicates, lemma_sorted_set, sorted_set, sorted_unique,
};
use crate::upgradability::set_code_hash::address_store::AddressStore;

verus! {

pub struct EfficientAddressStore {
    /// The stored addresses.
    pub addresses: Vec<AccountId>,
    /// Whether the repeats have been removed. Once set it stays set.
    pub migration_performed: bool,
}

/// The content of an `EfficientAddressStore` as mathematical values.
pub struct EfficientAddressStoreView {
    pub addresses: Seq<AccountId>,
    pub migration_performed: bool,
}

impl EfficientAddressStoreView {
    /// The content after `migrate`: as it was if the migration has been
    /// performed before; else the same addresses in ascending order, each
    /// once, and the migration marked as performed.
    pub open spec fn migrate(self) -> EfficientAddressStoreView {
        if self.migration_performed {
            self
        } else {
            EfficientAddressStoreView {
                addresses: sorted_set(self.addresses),
                migration_performed: true,
            }
        }
    }

    /// The content after `address` has been added: put at the end, unless
    /// the store holds it already.
    pub open spec fn add_new_address(self, address: AccountId) -> EfficientAddressStoreView {
        if self.addresses.contains(address) {
            self
        } else {
            EfficientAddressStoreView { addresses: self.addresses.push(address), ..self }
        }
    }
}

impl View for EfficientAddressStore {
    type V = EfficientAddressStoreView;

    open spec fn view(&self) -> EfficientAddressStoreView {
        EfficientAddressStoreView {
            addresses: self.addresses@,
            migration_performed: self.migration_performed,
        }
    }
}

impl EfficientAddressStore {
    /// An empty address store, with nothing migrated yet.
    pub fn new() -> (s: Self)
        ensures
            s@ == (EfficientAddressStoreView {
                addresses: Seq::empty(),
                migration_performed: false,
            }),
    {
        EfficientAddressStore { addresses: Vec::new(), migration_performed: false }
    }

    /// Takes over the list that `address_store` leaves behind, repeats and
    /// all, with nothing migrated yet.
    pub fn from_legacy(legacy: AddressStore) -> (s: Self)
        ensures
            s@ == (EfficientAddressStoreView { addresses: legacy@, migration_performed: false }),
    {
        EfficientAddressStore { addresses: legacy.addresses, migration_performed: false }
    }

    /// Removes the repeats from the stored addresses, which leaves them in
    /// ascending order. The first call migrates; every later one changes
    /// nothing.
    pub fn migrate(&mut self)
        ensures
            final(self)@ == old(self)@.migrate(),
            old(self).migration_performed ==> *final(self) == *old(self),
            !old(self).migration_performed ==> is_sorted_set_of(
                final(self).addresses@,
                old(self).addresses@,
            ) && final(self).addresses@.no_duplicates(),
    {
        if self.migration_performed {
            return ;
        }
        let unique = sorted_unique(&self.addresses);
        proof {
            lemma_increasing_no_duplicates(unique@);
        }
        self.addresses = unique;
        self.migration_performed = true;
    }

    /// Adds `address` to the store, but only if it is not already present.
    pub fn add_new_address(&mut self, address: AccountId)
        ensures
            final(self)@ == old(self)@.add_new_address(address),
            old(self)@.addresses.no_duplicates() ==> final(self)@.addresses.no_duplicates(),
    {
        let mut i: usize = 0;
        while i < self.addresses.len()
            invariant
                i <= self.addresses.len(),
                *self == *old(self),
                forall|j: int| 0 <= j < i ==> self.addresses[j] != address,
            decreases self.addresses.len() - i,
        {
            if self.addresses[i] == address {
                return ;
            }
            i += 1;
        }
        self.addresses.push(address);
    }

    /// The stored addresses.
    pub fn get_addresses(&self) -> (r: Vec<AccountId>)
        ensures
            r@ == self@.addresses,
    {
        self.addresses.clone()
    }

    /// Names the request that replaces the contract's code by `code_hash`,
    /// for the host to carry out. Anyone may ask for it, and the stored
    /// addresses are not touched.
    pub fn set_code(&self, code_hash: [u8; 32]) -> (r: SetCodeHash)
        ensures
            r == (SetCodeHash { code_hash }),
    {
        SetCodeHash { code_hash }
    }
}

/// Calling `migrate` twice in a row leaves the store as calling it once does.
pub proof fn lemma_migrate_idempotent(s: EfficientAddressStoreView)
    ensures
        s.migrate().migrate() == s.migrate(),
{
}

/// The first migration leaves exactly the addresses that the store held,
/// each once.
pub proof fn lemma_migration_removes_repeats(s: EfficientAddressStoreView)
    requires
        !s.migration_performed,
    ensures
        s.migrate().addresses.no_duplicates(),
        forall|a: AccountId| s.migrate().addresses.contains(a) <==> s.addresses.contains(a),
{
    lemma_sorted_set(s.addresses);
}

/// Once the migration is performed it stays performed.
pub proof fn lemma_migration_flag_monotonic(s: EfficientAddressStoreView, address: AccountId)
    requires
        s.migration_performed,
    ensures
        s.migrate().migration_performed,
        s.add_new_address(address).migration_performed,
{
}

} // verus!
