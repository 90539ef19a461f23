//! Contracts that hand a query on to another contract and pass the reply back.

pub mod address_book;
pub mod address_book_aggregator;
pub mod contact_db;
pub mod contact_proxy;
