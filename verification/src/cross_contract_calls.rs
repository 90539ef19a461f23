//! Contracts that are meant to be called by other contracts.

pub mod address_book;
