//! A proxy that passes contact queries on to a register of the owner's choice.

use vstd::prelude::*;
use crate::account::AccountId;
use crate::host::{HostError, InfoQuery};

verus! {

#[derive(Debug, PartialEq, Eq)]
pub enum Error {
    /// The host could not carry the query to the register; with the host's
    /// description of what went wrong.
    ContractCallError(String),
}

pub struct ContactProxy {
    /// Owner of the contract, can change the register that queries go to.
    pub owner: AccountId,
    /// The register that queries go to.
    pub db_address: AccountId,
    /// Selector of the register's lookup entry point.
    pub db_get_selector: [u8; 4],
}

impl ContactProxy {
    /// A proxy owned by `caller` in front of the register `db_address`,
    /// whose lookup entry point has the selector `db_get_selector`.
    pub fn new(db_address: AccountId, db_get_selector: [u8; 4], caller: AccountId) -> (p: Self)
        ensures
            p.owner == caller,
            p.db_address == db_address,
            p.db_get_selector == db_get_selector,
    {
        ContactProxy { owner: caller, db_address, db_get_selector }
    }

    /// Lets the owner point the proxy at another register. For anyone else
    /// the answer is `false` and the proxy stays as it was.
    pub fn change_db(
        &mut self,
        caller: AccountId,
        new_db_address: AccountId,
        db_get_selector: [u8; 4],
    ) -> (r: bool)
        ensures
            r == (caller == old(self).owner),
            r ==> final(self).owner == old(self).owner && final(self).db_address
                == new_db_address && final(self).db_get_selector == db_get_selector,
            !r ==> *final(self) == *old(self),
    {
        if caller != self.owner {
            return false;
        }
        self.db_address = new_db_address;
        self.db_get_selector = db_get_selector;
        true
    }

    /// Names the query for the contact information of `account_id`, for the
    /// host to carry to the register.
    pub fn get_info(&self, account_id: AccountId) -> (q: InfoQuery)
        ensures
            q == (InfoQuery {
                callee: self.db_address,
                selector: self.db_get_selector,
                account_id,
            }),
    {
        InfoQuery { callee: self.db_address, selector: self.db_get_selector, account_id }
    }

    /// Ends a query with what the host reports of it. A query that went
    /// through is answered with what the register replied, as it is: the
    /// information, or `None` for an account that the register does not
    /// know. A query that the host could not deliver fails with
    /// `ContractCallError` and the host's description, unchanged.
    pub fn get_info_reply(reply: Result<Option<String>, HostError>) -> (r: Result<
        Option<String>,
        Error,
    >)
        ensures
            reply is Ok ==> r == Ok::<Option<String>, Error>(reply->Ok_0),
            reply is Err ==> r == Err::<Option<String>, Error>(
                Error::ContractCallError(reply->Err_0.cause),
            ),
    {
        match reply {
            Ok(info) => Ok(info),
            Err(e) => Err(Error::ContractCallError(e.cause)),
        }
    }
}

} // verus!
