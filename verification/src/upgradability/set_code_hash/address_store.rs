//! A list of accounts that takes every address it is given, repeats
//! included, and that anyone can move to new code.

use vstd::prelude::*;
use crate::account::AccountId;
use crate::host::SetCodeHash;

verus! {

pub struct AddressStore {
    /// The stored addresses, in the order in which they came.
    pub addresses: Vec<AccountId>,
}

impl View for AddressStore {
    type V = Seq<AccountId>;

    open spec fn view(&self) -> Seq<AccountId> {
        self.addresses@
    }
}

impl AddressStore {
    /// An empty address store.
    pub fn new() -> (s: Self)
        ensures
            s@ == Seq::<AccountId>::empty(),
    {
        AddressStore { addresses: Vec::new() }
    }

    /// Adds `address` to the store, at the end.
    pub fn add_new_address(&mut self, address: AccountId)
        ensures
            final(self)@ == old(self)@.push(address),
    {
        self.addresses.push(address);
    }

    /// The stored addresses.
    pub fn get_addresses(&self) -> (r: Vec<AccountId>)
        ensures
            r@ == self@,
    {
        self.addresses.clone()
    }

    /// Names the request that replaces the contract's code by `code_hash`,
    /// for the host to carry out. Anyone may ask for it, and the stored
    /// addresses are not touched.
    pub fn set_code(&self, code_hash: [u8; 32]) -> (r: SetCodeHash)
        ensures
            r == (SetCodeHash { code_hash }),
    {
        SetCodeHash { code_hash }
    }
}

} // verus!
