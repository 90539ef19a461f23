//! Arithmetic modulo a number, on machine integers: products and powers,
//! with the mathematical functions that they compute.

use vstd::prelude::*;
use vstd::arithmetic::div_mod::lemma_mul_mod_noop_general;
use vstd::arithmetic::power::{
    lemma_pow0, lemma_pow1, lemma_pow_adds, lemma_pow_mod_noop, lemma_pow_multiplies,
    lemma_square_is_pow2, pow,
};

verus! {

/// `base` to the power `exponent`, reduced modulo `modulus`; the empty
/// product, for `exponent == 0`, is left as 1 whatever the modulus.
pub open spec fn pow_mod(base: int, exponent: nat, modulus: int) -> int {
    if exponent == 0 {
        1
    } else {
        pow(base, exponent) % modulus
    }
}

/// One round of square-and-multiply keeps the pending product what it was,
/// modulo `p`: with `e` halved and `m` squared, and `r` multiplied by `m`
/// where `e` was odd.
proof fn lemma_square_and_multiply(r: int, m: int, e: nat, p: int)
    requires
        0 < p,
        0 < e,
    ensures
        e % 2 == 1 ==> (((r * m) % p) * pow((m * m) % p, e / 2)) % p == (r * pow(m, e)) % p,
        e % 2 == 0 ==> (r * pow((m * m) % p, e / 2)) % p == (r * pow(m, e)) % p,
{
    let h: nat = e / 2;
    let sq = pow(m * m, h);
    // pow(m, 2 * h) is pow(m * m, h)
    lemma_square_is_pow2(m);
    lemma_pow_multiplies(m, 2, h);
    assert(pow(m, 2 * h) == sq);
    // squaring may be reduced first
    lemma_pow_mod_noop(m * m, h, p);
    assert(pow((m * m) % p, h) % p == sq % p);
    if e % 2 == 1 {
        assert(e == 2 * h + 1);
        lemma_pow_adds(m, 1, 2 * h);
        lemma_pow1(m);
        assert(pow(m, e) == m * sq);
        lemma_mul_mod_noop_general(r * m, pow((m * m) % p, h), p);
        lemma_mul_mod_noop_general(r * m, sq, p);
        assert(((r * m) % p * pow((m * m) % p, h)) % p == ((r * m) * sq) % p);
        assert((r * m) * sq == r * (m * sq)) by (nonlinear_arith);
    } else {
        assert(e == 2 * h);
        lemma_mul_mod_noop_general(r, pow((m * m) % p, h), p);
        lemma_mul_mod_noop_general(r, sq, p);
    }
}

/// The product of two numbers modulo `prime`.
pub fn multiply_u64(factor_1: u64, factor_2: u64, prime: u64) -> (r: u64)
    requires
        prime > 0,
    ensures
        r == (factor_1 * factor_2) % (prime as int),
{
    assert(factor_1 * factor_2 <= u128::MAX) by (nonlinear_arith)
        requires
            factor_1 <= u64::MAX,
            factor_2 <= u64::MAX,
    ;
    (((factor_1 as u128) * (factor_2 as u128)) % (prime as u128)) as u64
}

/// `base` to the power `exponent` modulo `prime`, by squaring and
/// multiplying. With `exponent == 0` nothing is multiplied and the modulus
/// is not looked at.
pub fn power_u64(base: u64, exponent: u64, prime: u64) -> (r: u64)
    requires
        exponent > 0 ==> prime > 0,
    ensures
        r == pow_mod(base as int, exponent as nat, prime as int),
{
    let mut t_exp = exponent;
    let mut multiplicant = base;
    let mut result: u64 = 1;
    if exponent == 0 {
        return result;
    }
    proof {
        lemma_mul_mod_noop_general(1, pow(base as int, exponent as nat), prime as int);
    }
    while t_exp > 0
        invariant
            prime > 0,
            t_exp <= exponent,
            (result * pow(multiplicant as int, t_exp as nat)) % (prime as int) == pow(
                base as int,
                exponent as nat,
            ) % (prime as int),
            exponent == 0 ==> result == 1,
            exponent > 0 && t_exp == 0 ==> result < prime,
        decreases t_exp,
    {
        proof {
            lemma_square_and_multiply(
                result as int,
                multiplicant as int,
                t_exp as nat,
                prime as int,
            );
        }
        if t_exp % 2 == 1 {
            result = multiply_u64(result, multiplicant, prime);
        }
        t_exp /= 2;
        multiplicant = multiply_u64(multiplicant, multiplicant, prime);
    }
    proof {
        lemma_pow0(multiplicant as int);
        if exponent > 0 {
            assert(result as int % (prime as int) == result) by (nonlinear_arith)
                requires
                    0 <= result < prime,
            ;
        }
    }
    result
}

/// The product of two numbers modulo `prime`.
pub fn multiply_u8(factor_1: u8, factor_2: u8, prime: u8) -> (r: u8)
    requires
        prime > 0,
    ensures
        r == (factor_1 * factor_2) % (prime as int),
{
    assert(factor_1 * factor_2 <= u16::MAX) by (nonlinear_arith)
        requires
            factor_1 <= u8::MAX,
            factor_2 <= u8::MAX,
    ;
    (((factor_1 as u16) * (factor_2 as u16)) % (prime as u16)) as u8
}

/// `base` to the power `exponent` modulo `prime`, one factor at a time.
/// With `exponent == 0` nothing is multiplied and the modulus is not looked at.
pub fn power_u8(base: u8, exponent: u8, prime: u8) -> (r: u8)
    requires
        exponent > 0 ==> prime > 0,
    ensures
        r == pow_mod(base as int, exponent as nat, prime as int),
{
    let mut result: u8 = 1;
    let mut i: u8 = 0;
    while i < exponent
        invariant
            exponent > 0 ==> prime > 0,
            i <= exponent,
            result == pow_mod(base as int, i as nat, prime as int),
        decreases exponent - i,
    {
        proof {
            let b = base as int;
            let p = prime as int;
            lemma_pow_adds(b, i as nat, 1);
            lemma_pow1(b);
            lemma_pow0(b);
            lemma_mul_mod_noop_general(pow(b, i as nat), b, p);
        }
        result = multiply_u8(result, base, prime);
        i += 1;
    }
    result
}

} // verus!
