//! A proxy that hands every call it does not know on to a logic contract,
//! and the arithmetic contracts that serve as its logic.

pub mod forward_proxy;
pub mod modular;
pub mod primes;
pub mod prime_arithmetic_lib_v1;
pub mod prime_arithmetic_lib_v2;
pub mod prime_arithmetic_mod;
pub mod prime_arithmetic_mod_slow;
