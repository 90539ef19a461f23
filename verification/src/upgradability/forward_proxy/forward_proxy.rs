//! A proxy in front of a logic contract. Calls that the proxy does not
//! serve itself go on to the logic contract unchanged; the admin decides
//! which contract that is.

use vstd::prelude::*;
use crate::account::AccountId;
use crate::host::{ForwardCall, HostError};

verus! {

#[derive(Debug, PartialEq, Eq)]
pub enum Error {
    PermissionDenied,
    ContractCallError(String),
}

pub struct ForwardProxy {
    /// The contract that serves the forwarded calls.
    pub logic_contract: AccountId,
    /// The account that may change the logic contract and the admin.
    pub admin: AccountId,
}

impl ForwardProxy {
    /// A proxy in front of `logic_contract`, administered by `caller`.
    pub fn new(logic_contract: AccountId, caller: AccountId) -> (p: Self)
        ensures
            p.logic_contract == logic_contract,
            p.admin == caller,
    {
        ForwardProxy { logic_contract, admin: caller }
    }

    /// Lets the admin hand the office to `new_admin`. For anyone else the
    /// call fails with `PermissionDenied` and changes nothing.
    pub fn change_admin(&mut self, caller: AccountId, new_admin: AccountId) -> (r: Result<
        (),
        Error,
    >)
        ensures
            caller != old(self).admin ==> r == Err::<(), Error>(Error::PermissionDenied)
                && *final(self) == *old(self),
            caller == old(self).admin ==> r == Ok::<(), Error>(()) && final(self).admin
                == new_admin && final(self).logic_contract == old(self).logic_contract,
    {
        if caller != self.admin {
            Err(Error::PermissionDenied)
        } else {
            self.admin = new_admin;
            Ok(())
        }
    }

    /// Lets the admin put `new_logic_contract` behind the proxy. For anyone
    /// else the call fails with `PermissionDenied` and changes nothing.
    pub fn change_logic_contract(&mut self, caller: AccountId, new_logic_contract: AccountId) -> (r:
        Result<(), Error>)
        ensures
            caller != old(self).admin ==> r == Err::<(), Error>(Error::PermissionDenied)
                && *final(self) == *old(self),
            caller == old(self).admin ==> r == Ok::<(), Error>(()) && final(self).logic_contract
                == new_logic_contract && final(self).admin == old(self).admin,
    {
        if caller != self.admin {
            Err(Error::PermissionDenied)
        } else {
            self.logic_contract = new_logic_contract;
            Ok(())
        }
    }

    /// Serves a call that matches no entry point of the proxy: names the
    /// call for the host to make. It goes to the logic contract with the
    /// input as it came and with all of `transferred_value`, the value that
    /// came with the call, and the logic contract's answer ends the call.
    pub fn _catch_all_forward(&self, transferred_value: u128) -> (call: ForwardCall)
        ensures
            call == (ForwardCall {
                callee: self.logic_contract,
                transferred_value,
                forward_input: true,
                tail_call: true,
            }),
    {
        ForwardCall {
            callee: self.logic_contract,
            transferred_value,
            forward_input: true,
            tail_call: true,
        }
    }

    /// Ends a forwarded call with what the host reports of it: success as
    /// it is, and a failure as `ContractCallError` with the host's
    /// description, unchanged.
    pub fn _catch_all_forward_reply(reply: Result<(), HostError>) -> (r: Result<(), Error>)
        ensures
            reply is Ok ==> r == Ok::<(), Error>(()),
            reply is Err ==> r == Err::<(), Error>(Error::ContractCallError(reply->Err_0.cause)),
    {
        match reply {
            Ok(_) => Ok(()),
            Err(e) => Err(Error::ContractCallError(e.cause)),
        }
    }
}

} // verus!
