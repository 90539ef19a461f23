//! Arithmetic modulo a prime on 64-bit numbers: products, powers,
//! inverses and quotients.

use vstd::prelude::*;
use crate::upgradability::forward_proxy::modular::{multiply_u64, pow_mod, power_u64};
use crate::upgradability::forward_proxy::primes::{is_prime, lemma_inverse, lemma_quotient};

verus! {

#[derive(Debug, Clone, Copy, PartialEq, Eq, Structural)]
pub enum Error {
    DivisibleByPrime,
}

pub struct PrimeArithmeticMod {}

/// What `invert` answers: no inverse for a multiple of `prime`; 1 modulo 2;
/// and else `number` to the power `prime - 2`.
pub open spec fn invert_spec(number: u64, prime: u64) -> Result<u64, Error> {
    if number % prime == 0 {
        Err(Error::DivisibleByPrime)
    } else if prime == 2 {
        Ok(1)
    } else {
        Ok(pow_mod(number as int, (prime - 2) as nat, prime as int) as u64)
    }
}

/// What `divide` answers: the dividend times what `invert` answers for
/// the divisor.
pub open spec fn divide_spec(dividend: u64, divisor: u64, prime: u64) -> Result<u64, Error> {
    match invert_spec(divisor, prime) {
        Ok(inverse) => Ok(((dividend * inverse) % (prime as int)) as u64),
        Err(e) => Err(e),
    }
}

impl PrimeArithmeticMod {
    pub fn new() -> Self {
        PrimeArithmeticMod {  }
    }

    /// Multiplies two numbers modulo a given prime.
    pub fn multiply(&self, factor_1: u64, factor_2: u64, prime: u64) -> (r: u64)
        requires
            prime > 0,
        ensures
            r == (factor_1 * factor_2) % (prime as int),
    {
        multiply_u64(factor_1, factor_2, prime)
    }

    /// Performs fast exponentiation modulo a given prime. The power with
    /// exponent 0 is 1, whatever the modulus.
    pub fn power(&self, base: u64, exponent: u64, prime: u64) -> (r: u64)
        requires
            exponent > 0 ==> prime > 0,
        ensures
            r == pow_mod(base as int, exponent as nat, prime as int),
    {
        power_u64(base, exponent, prime)
    }

    /// Inverts modulo a given prime, taking the power `prime - 2` of
    /// `number` for the inverse. A multiple of `prime` has none and gives
    /// `DivisibleByPrime`; modulo 2 the answer is 1. Where `prime` is a
    /// prime, the answer times `number` leaves 1.
    pub fn invert(&self, number: u64, prime: u64) -> (r: Result<u64, Error>)
        requires
            prime > 0,
        ensures
            r == invert_spec(number, prime),
            is_prime(prime as int) ==> (r matches Ok(inverse) ==> (number * inverse) % (
            prime as int) == 1),
    {
        if number % prime == 0 {
            return Err(Error::DivisibleByPrime);
        }
        proof {
            if is_prime(prime as int) {
                lemma_inverse(number as int, prime as int);
            }
        }
        if prime == 2 {
            Ok(1)
        } else {
            Ok(self.power(number, prime - 2, prime))
        }
    }

    /// Performs division modulo a given prime: multiplies `dividend` by
    /// what `invert` answers for `divisor`, and fails where `invert` does.
    /// Where `prime` is a prime, the answer times `divisor` leaves what
    /// `dividend` leaves.
    pub fn divide(&self, dividend: u64, divisor: u64, prime: u64) -> (r: Result<u64, Error>)
        requires
            prime > 0,
        ensures
            r == divide_spec(dividend, divisor, prime),
            is_prime(prime as int) ==> (r matches Ok(quotient) ==> (divisor * quotient) % (
            prime as int) == dividend % prime),
    {
        let divisor_inv = self.invert(divisor, prime)?;
        proof {
            if is_prime(prime as int) {
                lemma_quotient(dividend as int, divisor as int, divisor_inv as int, prime as int);
            }
        }
        Ok(self.multiply(dividend, divisor_inv, prime))
    }
}

} // verus!
