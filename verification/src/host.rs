//! What passes between a contract and the ledger that hosts it, as plain
//! values: the contract decides, the host acts and reports back.

use vstd::prelude::*;
use crate::account::AccountId;

verus! {

/// A failure that the host reports for a request it was handed.
#[derive(Debug, PartialEq, Eq)]
pub struct HostError {
    /// The host's own description of what went wrong.
    pub cause: String,
}

/// A request to bind the code `code_hash` to the storage address of the
/// contract that makes it. The storage itself stays as it is; every later
/// call runs the new code on it.
#[derive(Debug, Clone, Copy, PartialEq, Eq)]
pub struct SetCodeHash {
    pub code_hash: [u8; 32],
}

/// A request to end the contract that makes it and to hand what it holds
/// to `beneficiary`. The host does not come back from it.
#[derive(Debug, Clone, Copy, PartialEq, Eq)]
pub struct Terminate {
    pub beneficiary: AccountId,
}

/// A call to be handed on to the contract `callee`, together with the value
/// that came with the call being served.
#[derive(Debug, Clone, Copy, PartialEq, Eq)]
pub struct ForwardCall {
    pub callee: AccountId,
    /// The value to pass along.
    pub transferred_value: u128,
    /// The callee gets the input of the call being served, byte for byte.
    pub forward_input: bool,
    /// The callee's answer ends the call being served: it goes to the
    /// caller of that call as it is, and the forwarding contract does not run again.
    pub tail_call: bool,
}

/// A query for the contact information of `account_id`, to be carried to
/// the entry point `selector` of the contract `callee`, with no value
/// attached and no gas limit of its own.
#[derive(Debug, Clone, Copy, PartialEq, Eq)]
pub struct InfoQuery {
    pub callee: AccountId,
    pub selector: [u8; 4],
    pub account_id: AccountId,
}

} // verus!
