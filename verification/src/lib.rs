//! Verified decision cores of a family of small ledger contracts.
//!
//! A contract here is a plain value with the rules of its entry points. It
//! does not talk to a ledger: who calls, in which block, with what balance
//! is handed to each entry point, and what the host has to do comes back as
//! a request.

pub mod account;
pub mod account_map;
pub mod cross_contract_calls;
pub mod escrow;
pub mod host;
pub mod sorted;
pub mod text;
pub mod upgradability;
