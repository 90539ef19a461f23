//! Patterns for replacing a contract's behaviour while its storage lives on.

pub mod forward_call;
pub mod forward_proxy;
pub mod set_code_hash;
