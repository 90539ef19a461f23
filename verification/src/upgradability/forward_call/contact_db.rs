//! A register in which every account keeps a short contact note of its own.

use vstd::prelude::*;
use crate::account::AccountId;
use crate::account_map::AccountMap;
use crate::text::{byte_len, stored_len};

verus! {

/// The longest note, in bytes, that the register takes.
pub const MAX_INFO_LEN: usize = 20;

pub struct ContactDb {
    /// The note of each account that has set one.
    pub contact_info: AccountMap<String>,
}

impl View for ContactDb {
    type V = Map<AccountId, String>;

    open spec fn view(&self) -> Map<AccountId, String> {
        self.contact_info@
    }
}

impl ContactDb {
    /// An empty register.
    pub fn new() -> (db: Self)
        ensures
            db@ == Map::<AccountId, String>::empty(),
    {
        ContactDb { contact_info: AccountMap::new() }
    }

    /// Sets the note of `caller` to `info`, in place of an earlier one.
    /// A note of more than `MAX_INFO_LEN` bytes is refused: the answer is
    /// `false` and the register stays as it was.
    pub fn set_info(&mut self, caller: AccountId, info: String) -> (r: bool)
        ensures
            r == (byte_len(info@) <= MAX_INFO_LEN),
            r ==> final(self)@ == old(self)@.insert(caller, info),
            !r ==> *final(self) == *old(self),
    {
        if stored_len(&info) > MAX_INFO_LEN {
            return false;
        }
        self.contact_info.insert(caller, info);
        true
    }

    /// The note of `account_id`, if it has set one.
    pub fn get_info(&self, account_id: AccountId) -> (r: Option<String>)
        ensures
            self@.contains_key(account_id) ==> r == Some(self@[account_id]),
            !self@.contains_key(account_id) ==> r is None,
    {
        match self.contact_info.get(account_id) {
            Some(info) => Some(info.clone()),
            None => None,
        }
    }
}

} // verus!
