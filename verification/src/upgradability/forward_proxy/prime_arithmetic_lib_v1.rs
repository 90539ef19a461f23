//! Arithmetic modulo a prime on 64-bit numbers: sums, products and
//! powers. The admin can end the contract.

use vstd::prelude::*;
use crate::account::AccountId;
use crate::host::Terminate;
use crate::upgradability::forward_proxy::modular::{multiply_u64, pow_mod, power_u64};

verus! {

#[derive(Debug, Clone, Copy, PartialEq, Eq, Structural)]
pub enum Error {
    PermissionDenied,
}

pub struct PrimeArithmeticLibV1 {
    /// The account that may end the contract.
    pub admin: AccountId,
}

impl PrimeArithmeticLibV1 {
    /// A calculator administered by `caller`.
    pub fn new(caller: AccountId) -> (c: Self)
        ensures
            c.admin == caller,
    {
        PrimeArithmeticLibV1 { admin: caller }
    }

    /// Adds two numbers modulo a given prime.
    pub fn add(&self, summand_1: u64, summand_2: u64, prime: u64) -> (r: u64)
        requires
            prime > 0,
        ensures
            r == (summand_1 + summand_2) % (prime as int),
    {
        (((summand_1 as u128) + (summand_2 as u128)) % (prime as u128)) as u64
    }

    /// Multiplies two numbers modulo a given prime.
    pub fn multiply(&self, factor_1: u64, factor_2: u64, prime: u64) -> (r: u64)
        requires
            prime > 0,
        ensures
            r == (factor_1 * factor_2) % (prime as int),
    {
        multiply_u64(factor_1, factor_2, prime)
    }

    /// Performs fast exponentiation modulo a given prime. The power with
    /// exponent 0 is 1, whatever the modulus.
    pub fn power(&self, base: u64, exponent: u64, prime: u64) -> (r: u64)
        requires
            exponent > 0 ==> prime > 0,
        ensures
            r == pow_mod(base as int, exponent as nat, prime as int),
    {
        power_u64(base, exponent, prime)
    }

    /// Decides a request by `caller` to end the contract. Only the admin
    /// may: for the admin the answer is the request to hand to the host,
    /// with the admin as beneficiary; for anyone else `PermissionDenied`.
    pub fn terminate(&self, caller: AccountId) -> (r: Result<Terminate, Error>)
        ensures
            caller == self.admin ==> r == Ok::<Terminate, Error>(
                Terminate { beneficiary: self.admin },
            ),
            caller != self.admin ==> r == Err::<Terminate, Error>(Error::PermissionDenied),
    {
        if caller == self.admin {
            Ok(Terminate { beneficiary: self.admin })
        } else {
            Err(Error::PermissionDenied)
        }
    }
}

} // verus!
