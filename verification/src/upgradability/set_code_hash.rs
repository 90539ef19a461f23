//! Contracts that swap their own code in place and then bring the storage
//! they inherited into the shape the new code works on.

pub mod address_store;
pub mod efficient_address_store;
pub mod named_address_store;
pub mod transparent_voting;
pub mod voting;
pub mod voting_fixed;
