use contract_patterns::account::AccountId;
use contract_patterns::host::Terminate;
use contract_patterns::upgradability::forward_proxy::modular::{multiply_u64, multiply_u8, power_u64, power_u8};
use contract_patterns::upgradability::forward_proxy::prime_arithmetic_lib_v1::PrimeArithmeticLibV1;
use contract_patterns::upgradability::forward_proxy::prime_arithmetic_lib_v2::PrimeArithmeticLibV2;
use contract_patterns::upgradability::forward_proxy::prime_arithmetic_mod::PrimeArithmeticMod;
use contract_patterns::upgradability::forward_proxy::prime_arithmetic_mod_slow::PrimeArithmeticModSlow;
use contract_patterns::upgradability::forward_proxy::{
    prime_arithmetic_lib_v1, prime_arithmetic_lib_v2, prime_arithmetic_mod, prime_arithmetic_mod_slow,
};

fn alice() -> AccountId {
    AccountId::from([1u8; 32])
}

fn bob() -> AccountId {
    AccountId::from([2u8; 32])
}

// prime_arithmetic_lib_v1

#[test]
fn lib_v1_add_works() {
    let calc = PrimeArithmeticLibV1::new(alice());
    assert_eq!(calc.add(2, 4, 5), 1);
}

#[test]
fn lib_v1_multiply_works() {
    let calc = PrimeArithmeticLibV1::new(alice());
    assert_eq!(calc.multiply(123, 211, 113), 76);
}

#[test]
fn lib_v1_power_works() {
    let calc = PrimeArithmeticLibV1::new(alice());
    assert_eq!(calc.power(8, 100, 13), 1);
}

#[test]
fn lib_v1_terminate_only_by_admin() {
    let calc = PrimeArithmeticLibV1::new(alice());
    assert_eq!(calc.terminate(bob()), Err(prime_arithmetic_lib_v1::Error::PermissionDenied));
    assert_eq!(calc.terminate(alice()), Ok(Terminate { beneficiary: alice() }));
}

// prime_arithmetic_lib_v2

#[test]
fn lib_v2_add_works() {
    let calc = PrimeArithmeticLibV2::new(alice());
    assert_eq!(calc.add(2, 4, 5), 1);
}

#[test]
fn lib_v2_multiply_works() {
    let calc = PrimeArithmeticLibV2::new(alice());
    assert_eq!(calc.multiply(123, 211, 113), 76);
}

#[test]
fn lib_v2_power_works() {
    let calc = PrimeArithmeticLibV2::new(alice());
    assert_eq!(calc.power(8, 100, 13), 1);
}

#[test]
fn lib_v2_invert_works() {
    let calc = PrimeArithmeticLibV2::new(alice());
    assert_eq!(calc.invert(14, 131), Ok(103));
}

#[test]
fn lib_v2_invert_errors_if_divisible() {
    let calc = PrimeArithmeticLibV2::new(alice());
    assert_eq!(calc.invert(14, 7), Err(prime_arithmetic_lib_v2::Error::DivisibleByPrime));
}

#[test]
fn lib_v2_divide_works() {
    let calc = PrimeArithmeticLibV2::new(alice());
    assert_eq!(calc.divide(123, 211, 113), Ok(37));
}

#[test]
fn lib_v2_terminate_only_by_admin() {
    let calc = PrimeArithmeticLibV2::new(alice());
    assert_eq!(calc.terminate(bob()), Err(prime_arithmetic_lib_v2::Error::PermissionDenied));
    assert_eq!(calc.terminate(alice()), Ok(Terminate { beneficiary: alice() }));
}

#[test]
fn lib_v2_edges() {
    let calc = PrimeArithmeticLibV2::new(alice());
    // sums and products that do not fit in 64 bits on the way
    assert_eq!(calc.add(u64::MAX, u64::MAX, u64::MAX), 0);
    assert_eq!(calc.add(u64::MAX, 1, u64::MAX), 1);
    assert_eq!(calc.multiply(u64::MAX, u64::MAX, 1_000_000_007), 114_944_269);
    assert_eq!(calc.power(2, 64, u64::MAX), 1);
    // the empty product
    assert_eq!(calc.power(5, 0, 7), 1);
    assert_eq!(calc.power(5, 0, 1), 1);
    assert_eq!(calc.power(5, 0, 0), 1);
    assert_eq!(calc.power(5, 3, 1), 0);
    assert_eq!(calc.power(0, 5, 7), 0);
    assert_eq!(calc.power(3, 1, 7), 3);
    assert_eq!(calc.power(10, 1, 7), 3);
    // modulo 2 and modulo 3
    assert_eq!(calc.invert(5, 2), Ok(1));
    assert_eq!(calc.invert(4, 2), Err(prime_arithmetic_lib_v2::Error::DivisibleByPrime));
    assert_eq!(calc.invert(2, 3), Ok(2));
    assert_eq!(calc.invert(5, 1), Err(prime_arithmetic_lib_v2::Error::DivisibleByPrime));
    assert_eq!(calc.divide(6, 14, 7), Err(prime_arithmetic_lib_v2::Error::DivisibleByPrime));
    assert_eq!(calc.divide(10, 5, 7), Ok(2));
}

// prime_arithmetic_mod

#[test]
fn mod_multiply_works() {
    let calc = PrimeArithmeticMod::new();
    assert_eq!(calc.multiply(123, 211, 113), 76);
}

#[test]
fn mod_power_works() {
    let calc = PrimeArithmeticMod::new();
    assert_eq!(calc.power(8, 100, 13), 1);
}

#[test]
fn mod_invert_works() {
    let calc = PrimeArithmeticMod::new();
    assert_eq!(calc.invert(14, 131), Ok(103));
}

#[test]
fn mod_invert_errors_if_divisible() {
    let calc = PrimeArithmeticMod::new();
    assert_eq!(calc.invert(14, 7), Err(prime_arithmetic_mod::Error::DivisibleByPrime));
}

#[test]
fn mod_divide_works() {
    let calc = PrimeArithmeticMod::new();
    assert_eq!(calc.divide(123, 211, 113), Ok(37));
}

// prime_arithmetic_mod_slow

#[test]
fn mod_slow_multiply_works() {
    let calc = PrimeArithmeticModSlow::new();
    assert_eq!(calc.multiply(123, 211, 113), 76);
}

#[test]
fn mod_slow_power_works() {
    let calc = PrimeArithmeticModSlow::new();
    assert_eq!(calc.power(8, 100, 13), 1);
}

#[test]
fn mod_slow_invert_works() {
    let calc = PrimeArithmeticModSlow::new();
    assert_eq!(calc.invert(14, 131), Ok(103));
}

#[test]
fn mod_slow_invert_errors_if_divisible() {
    let calc = PrimeArithmeticModSlow::new();
    assert_eq!(calc.invert(14, 7), Err(prime_arithmetic_mod_slow::Error::DivisibleByPrime));
}

#[test]
fn mod_slow_divide_works() {
    let calc = PrimeArithmeticModSlow::new();
    assert_eq!(calc.divide(123, 211, 113), Ok(37));
}

#[test]
fn mod_slow_edges() {
    let calc = PrimeArithmeticModSlow::new();
    assert_eq!(calc.multiply(255, 255, 251), 16);
    assert_eq!(calc.power(7, 0, 5), 1);
    assert_eq!(calc.power(7, 0, 1), 1);
    assert_eq!(calc.power(7, 0, 0), 1);
    assert_eq!(calc.power(7, 1, 1), 0);
    assert_eq!(calc.power(2, 255, 251), 32);
    // nothing inverts modulo 0 or modulo 1
    assert_eq!(calc.invert(3, 0), Err(prime_arithmetic_mod_slow::Error::DivisibleByPrime));
    assert_eq!(calc.invert(3, 1), Err(prime_arithmetic_mod_slow::Error::DivisibleByPrime));
    assert_eq!(calc.divide(3, 3, 0), Err(prime_arithmetic_mod_slow::Error::DivisibleByPrime));
    // a modulus that is no prime: 2 has no inverse modulo 4, 3 has
    assert_eq!(calc.invert(2, 4), Err(prime_arithmetic_mod_slow::Error::DivisibleByPrime));
    assert_eq!(calc.invert(3, 4), Ok(3));
    assert_eq!(calc.invert(1, 2), Ok(1));
    assert_eq!(calc.divide(6, 3, 7), Ok(2));
}

#[test]
fn fast_and_slow_agree() {
    let fast = PrimeArithmeticMod::new();
    let slow = PrimeArithmeticModSlow::new();
    for prime in [2u8, 3, 5, 7, 11, 13, 101, 251] {
        for number in 0..=255u8 {
            assert_eq!(
                fast.invert(number as u64, prime as u64).ok(),
                slow.invert(number, prime).ok().map(|x| x as u64)
            );
            assert_eq!(
                fast.power(number as u64, 200, prime as u64),
                slow.power(number, 200, prime) as u64
            );
        }
    }
}

#[test]
fn shared_arithmetic() {
    assert_eq!(multiply_u64(123, 211, 113), 76);
    assert_eq!(multiply_u8(123, 211, 113), 76);
    assert_eq!(power_u64(8, 100, 13), 1);
    assert_eq!(power_u8(8, 100, 13), 1);
    assert_eq!(power_u64(3, 4, 1000), 81);
    assert_eq!(power_u8(3, 4, 200), 81);
}

#[test]
fn inverses_invert_and_quotients_divide() {
    let calc = PrimeArithmeticMod::new();
    for prime in [2u64, 3, 5, 7, 113, 131, 65_537, 1_000_000_007, 18_446_744_073_709_551_557] {
        for number in [1u64, 2, 3, 14, 123, 211, prime - 1, prime + 1, u64::MAX] {
            if number % prime == 0 {
                assert_eq!(calc.invert(number, prime), Err(prime_arithmetic_mod::Error::DivisibleByPrime));
                continue;
            }
            let inverse = calc.invert(number, prime).unwrap();
            assert!(inverse < prime);
            assert_eq!(calc.multiply(number, inverse, prime), 1 % prime);
            for dividend in [0u64, 1, 37, u64::MAX] {
                let quotient = calc.divide(dividend, number, prime).unwrap();
                assert_eq!(calc.multiply(number, quotient, prime), dividend % prime);
            }
        }
    }
    let slow = PrimeArithmeticModSlow::new();
    for prime in [2u8, 3, 5, 7, 113, 131, 251] {
        for number in 1..prime {
            let inverse = slow.invert(number, prime).unwrap();
            assert_eq!(slow.multiply(number, inverse, prime), 1);
            let quotient = slow.divide(200, number, prime).unwrap();
            assert_eq!(slow.multiply(number, quotient, prime), 200 % prime);
        }
    }
}
