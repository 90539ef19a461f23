//! Arithmetic modulo a small prime on bytes, done the plain way: powers
//! one factor at a time, inverses by trying every candidate.

use vstd::prelude::*;
use crate::upgradability::forward_proxy::modular::{multiply_u8, pow_mod, power_u8};
use crate::upgradability::forward_proxy::primes::lemma_quotient;

verus! {

#[derive(Debug, Clone, Copy, PartialEq, Eq, Structural)]
pub enum Error {
    DivisibleByPrime,
}

pub struct PrimeArithmeticModSlow {}

/// `inv` times `number` leaves 1 modulo `prime`.
pub open spec fn inverts(number: u8, inv: int, prime: u8) -> bool {
    (number * inv) % (prime as int) == 1
}

/// `inv` is the least number below `prime` that inverts `number`.
pub open spec fn least_inverse(number: u8, inv: int, prime: u8) -> bool {
    &&& 0 <= inv < prime
    &&& inverts(number, inv, prime)
    &&& forall|k: int| 0 <= k < inv ==> !inverts(number, k, prime)
}

/// What `invert` answers: the least inverse below `prime`, or that there is none.
pub open spec fn invert_spec(number: u8, prime: u8, r: Result<u8, Error>) -> bool {
    match r {
        Ok(inv) => least_inverse(number, inv as int, prime),
        Err(e) => forall|k: int| 0 <= k < prime ==> !inverts(number, k, prime),
    }
}

/// What `divide` answers: the dividend times the least inverse of the
/// divisor, or that the divisor has none.
pub open spec fn divide_spec(dividend: u8, divisor: u8, prime: u8, r: Result<u8, Error>) -> bool {
    match r {
        Ok(q) => exists|inv: int| #[trigger]
            least_inverse(divisor, inv, prime) && q == (dividend * inv) % (prime as int),
        Err(e) => forall|k: int| 0 <= k < prime ==> !inverts(divisor, k, prime),
    }
}

impl PrimeArithmeticModSlow {
    pub fn new() -> Self {
        PrimeArithmeticModSlow {  }
    }

    /// Multiplies two small numbers modulo a given small prime.
    pub fn multiply(&self, factor_1: u8, factor_2: u8, prime: u8) -> (r: u8)
        requires
            prime > 0,
        ensures
            r == (factor_1 * factor_2) % (prime as int),
    {
        multiply_u8(factor_1, factor_2, prime)
    }

    /// Performs exponentiation modulo a given small prime. The power with
    /// exponent 0 is 1, whatever the modulus.
    pub fn power(&self, base: u8, exponent: u8, prime: u8) -> (r: u8)
        requires
            exponent > 0 ==> prime > 0,
        ensures
            r == pow_mod(base as int, exponent as nat, prime as int),
    {
        power_u8(base, exponent, prime)
    }

    /// Inverts modulo a given small prime: finds the least number below
    /// `prime` whose product with `number` leaves 1, and fails if there is
    /// none, as for a multiple of the prime.
    pub fn invert(&self, number: u8, prime: u8) -> (r: Result<u8, Error>)
        ensures
            invert_spec(number, prime, r),
    {
        let mut inv: u8 = 0;
        while inv < prime
            invariant
                inv <= prime,
                forall|k: int| 0 <= k < inv ==> !inverts(number, k, prime),
            decreases prime - inv,
        {
            if self.multiply(number, inv, prime) == 1 {
                return Ok(inv);
            }
            inv += 1;
        }
        Err(Error::DivisibleByPrime)
    }

    /// Performs division modulo a given small prime: multiplies `dividend`
    /// by the least inverse of `divisor`, and fails if there is none. The
    /// answer times `divisor` leaves what `dividend` leaves.
    pub fn divide(&self, dividend: u8, divisor: u8, prime: u8) -> (r: Result<u8, Error>)
        ensures
            divide_spec(dividend, divisor, prime, r),
            r matches Ok(quotient) ==> (divisor * quotient) % (prime as int) == dividend % prime,
    {
        let divisor_inv = self.invert(divisor, prime)?;
        proof {
            lemma_quotient(dividend as int, divisor as int, divisor_inv as int, prime as int);
        }
        Ok(self.multiply(dividend, divisor_inv, prime))
    }
}

/// A number has at most one least inverse, so `invert` and `divide` have
/// one answer each.
pub proof fn lemma_least_inverse_unique(number: u8, prime: u8, a: int, b: int)
    requires
        least_inverse(number, a, prime),
        least_inverse(number, b, prime),
    ensures
        a == b,
{
}

} // verus!
