//! Why raising to the power `p - 2` inverts modulo a prime `p`: for a
//! number that `p` does not divide, the power `p - 1` leaves 1.

use vstd::prelude::*;
use vstd::arithmetic::div_mod::{
    lemma_fundamental_div_mod, lemma_mod_bound, lemma_mod_multiples_basic,
    lemma_mul_mod_noop_general, lemma_small_mod,
};
use vstd::arithmetic::power::{lemma_pow0, lemma_pow1, lemma_pow_adds, lemma_pow_positive, pow};

verus! {

/// `p` is a prime: at least 2, and divided by no number between 1 and itself.
pub open spec fn is_prime(p: int) -> bool {
    &&& 2 <= p
    &&& forall|d: int| 2 <= d < p ==> #[trigger] (p % d) != 0
}

/// A prime that divides a product of a number below it and another divides
/// the other.
pub proof fn lemma_prime_divides_factor(p: int, x: int, y: int)
    requires
        is_prime(p),
        0 < x < p,
        0 <= y,
        (x * y) % p == 0,
    ensures
        y % p == 0,
    decreases x,
{
    if x == 1 {
        assert(x * y == y) by (nonlinear_arith)
            requires
                x == 1,
        ;
    } else {
        let q = p / x;
        let r = p % x;
        lemma_fundamental_div_mod(p, x);
        lemma_mod_bound(p, x);
        assert(r != 0);
        let k = (x * y) / p;
        lemma_fundamental_div_mod(x * y, p);
        assert(r * y == (y - q * k) * p) by (nonlinear_arith)
            requires
                p == x * q + r,
                x * y == p * k + 0,
        ;
        lemma_mod_multiples_basic(y - q * k, p);
        lemma_prime_divides_factor(p, r, y);
    }
}

/// The product of the numbers from 1 to `n`.
pub open spec fn factorial(n: nat) -> int
    decreases n,
{
    if n == 0 {
        1
    } else {
        factorial((n - 1) as nat) * n
    }
}

/// A prime divides no product of numbers below it.
pub proof fn lemma_prime_not_in_factorial(p: int, n: nat)
    requires
        is_prime(p),
        n < p,
    ensures
        factorial(n) > 0,
        factorial(n) % p != 0,
    decreases n,
{
    if n == 0 {
        lemma_small_mod(1, p as nat);
    } else {
        let f = factorial((n - 1) as nat);
        lemma_prime_not_in_factorial(p, (n - 1) as nat);
        assert(f * n > 0) by (nonlinear_arith)
            requires
                f > 0,
                n > 0,
        ;
        if factorial(n) % p == 0 {
            assert(n * f == f * n) by (nonlinear_arith);
            lemma_prime_divides_factor(p, n as int, f);
        }
    }
}

/// The product of the numbers of a list.
pub open spec fn product(s: Seq<int>) -> int
    decreases s.len(),
{
    if s.len() == 0 {
        1
    } else {
        product(s.drop_last()) * s.last()
    }
}

/// The product of a list is the product of the list without one of its
/// numbers, times that number.
pub proof fn lemma_product_remove(s: Seq<int>, k: int)
    requires
        0 <= k < s.len(),
    ensures
        product(s) == product(s.remove(k)) * s[k],
    decreases s.len(),
{
    if k == s.len() - 1 {
        assert(s.remove(k) =~= s.drop_last());
    } else {
        let head = s.drop_last();
        let rest = s.remove(k);
        lemma_product_remove(head, k);
        assert(rest.drop_last() =~= head.remove(k));
        assert(rest.last() == s.last());
        assert(head[k] == s[k]);
        let a = product(head.remove(k));
        assert((a * s[k]) * s.last() == (a * s.last()) * s[k]) by (nonlinear_arith);
    }
}

/// The numbers of `s` lie between 1 and `m`, and none occurs twice.
pub open spec fn distinct_within(s: Seq<int>, m: int) -> bool {
    &&& forall|i: int| 0 <= i < s.len() ==> 1 <= #[trigger] s[i] <= m
    &&& forall|i: int, j: int| 0 <= i < j < s.len() ==> s[i] != s[j]
}

/// Taking one number out of such a list leaves such a list; if the number
/// taken is the bound, the bound goes down by one.
proof fn lemma_distinct_remove(s: Seq<int>, m: int, k: int)
    requires
        distinct_within(s, m),
        0 <= k < s.len(),
        s[k] == m,
    ensures
        distinct_within(s.remove(k), m - 1),
        s.remove(k).len() == s.len() - 1,
{
    let t = s.remove(k);
    assert forall|i: int| 0 <= i < t.len() implies 1 <= #[trigger] t[i] <= m - 1 by {
        if i < k {
            assert(t[i] == s[i]);
        } else {
            assert(t[i] == s[i + 1]);
        }
    }
    assert forall|i: int, j: int| 0 <= i < j < t.len() implies t[i] != t[j] by {
        let si = if i < k {
            i
        } else {
            i + 1
        };
        let sj = if j < k {
            j
        } else {
            j + 1
        };
        assert(t[i] == s[si]);
        assert(t[j] == s[sj]);
    }
}

/// There are no more than `m` different numbers between 1 and `m`.
pub proof fn lemma_distinct_is_short(s: Seq<int>, m: int)
    requires
        0 <= m,
        distinct_within(s, m),
    ensures
        s.len() <= m,
    decreases m,
{
    if s.len() == 0 {
    } else if m == 0 {
        assert(1 <= s[0] <= m);
    } else if exists|k: int| 0 <= k < s.len() && s[k] == m {
        let k = choose|k: int| 0 <= k < s.len() && s[k] == m;
        lemma_distinct_remove(s, m, k);
        lemma_distinct_is_short(s.remove(k), m - 1);
    } else {
        assert(distinct_within(s, m - 1));
        lemma_distinct_is_short(s, m - 1);
    }
}

/// A list of `n` different numbers between 1 and `n` holds each of them
/// once, so its product is the product of the numbers from 1 to `n`.
pub proof fn lemma_full_product(s: Seq<int>, n: nat)
    requires
        distinct_within(s, n as int),
        s.len() == n,
    ensures
        product(s) == factorial(n),
    decreases n,
{
    if n > 0 {
        if !(exists|k: int| 0 <= k < s.len() && s[k] == n) {
            assert(distinct_within(s, n - 1));
            lemma_distinct_is_short(s, n - 1);
        }
        let k = choose|k: int| 0 <= k < s.len() && s[k] == n;
        lemma_distinct_remove(s, n as int, k);
        lemma_full_product(s.remove(k), (n - 1) as nat);
        lemma_product_remove(s, k);
    }
}

/// The first `n` multiples of `a`, each reduced modulo `p`.
pub open spec fn multiples(a: int, n: nat, p: int) -> Seq<int> {
    Seq::new(n, |i: int| (a * (i + 1)) % p)
}

/// Modulo a prime, the multiples of a number that the prime does not
/// divide, up to the prime, are all different and none is zero.
pub proof fn lemma_multiples_distinct(a: int, p: int)
    requires
        is_prime(p),
        0 <= a,
        a % p != 0,
    ensures
        distinct_within(multiples(a, (p - 1) as nat, p), p - 1),
{
    let t = multiples(a, (p - 1) as nat, p);
    assert forall|i: int| 0 <= i < t.len() implies 1 <= #[trigger] t[i] <= p - 1 by {
        lemma_mod_bound(a * (i + 1), p);
        if t[i] == 0 {
            assert((i + 1) * a == a * (i + 1)) by (nonlinear_arith);
            lemma_prime_divides_factor(p, i + 1, a);
        }
    }
    assert forall|i: int, j: int| 0 <= i < j < t.len() implies t[i] != t[j] by {
        if t[i] == t[j] {
            let x = a * (i + 1);
            let y = a * (j + 1);
            // y - x is a multiple of p
            lemma_fundamental_div_mod(x, p);
            lemma_fundamental_div_mod(y, p);
            let d = y / p - x / p;
            assert((j - i) * a == d * p) by (nonlinear_arith)
                requires
                    x == a * (i + 1),
                    y == a * (j + 1),
                    x == p * (x / p) + x % p,
                    y == p * (y / p) + y % p,
                    x % p == y % p,
                    d == y / p - x / p,
            ;
            lemma_mod_multiples_basic(d, p);
            lemma_prime_divides_factor(p, j - i, a);
        }
    }
}

/// The product of the first `n` multiples of `a`, reduced or not, leaves
/// modulo `p` what `a` to the power `n` times the product of 1 to `n` leaves.
pub proof fn lemma_multiples_product(a: int, n: nat, p: int)
    requires
        0 < p,
    ensures
        product(multiples(a, n, p)) % p == (pow(a, n) * factorial(n)) % p,
    decreases n,
{
    if n == 0 {
        lemma_pow0(a);
    } else {
        let m = (n - 1) as nat;
        let t = multiples(a, n, p);
        lemma_multiples_product(a, m, p);
        assert(t.drop_last() =~= multiples(a, m, p));
        let head = product(multiples(a, m, p));
        let rest = pow(a, m) * factorial(m);
        // product(t) == head * ((a * n) % p)
        lemma_mul_mod_noop_general(head, a * n, p);
        lemma_mul_mod_noop_general(rest, a * n, p);
        assert((head * ((a * n) % p)) % p == (rest * (a * n)) % p);
        lemma_pow_adds(a, m, 1);
        lemma_pow1(a);
        assert(rest * (a * n) == (pow(a, m) * a) * (factorial(m) * n)) by (nonlinear_arith)
            requires
                rest == pow(a, m) * factorial(m),
        ;
    }
}

/// Modulo a prime `p`, a number that `p` does not divide, raised to the
/// power `p - 1`, leaves 1.
pub proof fn lemma_power_to_one(a: int, p: int)
    requires
        is_prime(p),
        0 <= a,
        a % p != 0,
    ensures
        pow(a, (p - 1) as nat) % p == 1,
{
    let n = (p - 1) as nat;
    let t = multiples(a, n, p);
    lemma_multiples_distinct(a, p);
    lemma_full_product(t, n);
    lemma_multiples_product(a, n, p);
    let f = factorial(n);
    let e = pow(a, n);
    assert(f % p == (e * f) % p);
    lemma_prime_not_in_factorial(p, n);
    if a == 0 {
        lemma_small_mod(0, p as nat);
    }
    lemma_pow_positive(a, n);
    // p divides (e - 1) * f, and so (f % p) * (e - 1)
    lemma_fundamental_div_mod(f, p);
    lemma_fundamental_div_mod(e * f, p);
    let d = (e * f) / p - f / p;
    assert((e - 1) * f == d * p) by (nonlinear_arith)
        requires
            f == p * (f / p) + f % p,
            e * f == p * ((e * f) / p) + (e * f) % p,
            f % p == (e * f) % p,
            d == (e * f) / p - f / p,
    ;
    lemma_mod_multiples_basic(d, p);
    lemma_mul_mod_noop_general(f, e - 1, p);
    assert(f * (e - 1) == (e - 1) * f) by (nonlinear_arith);
    lemma_mod_bound(f, p);
    lemma_prime_divides_factor(p, f % p, e - 1);
    // e - 1 is a multiple of p
    lemma_fundamental_div_mod(e - 1, p);
    let c = (e - 1) / p;
    assert(e == p * c + 1);
    vstd::arithmetic::div_mod::lemma_mod_multiples_vanish(c, 1, p);
    lemma_small_mod(1, p as nat);
}

/// Modulo a prime `p` above 2, the power `p - 2` of a number that `p` does
/// not divide is its inverse: their product leaves 1.
pub proof fn lemma_power_inverts(a: int, p: int)
    requires
        is_prime(p),
        2 < p,
        0 <= a,
        a % p != 0,
    ensures
        (a * (pow(a, (p - 2) as nat) % p)) % p == 1,
{
    let r = pow(a, (p - 2) as nat);
    lemma_power_to_one(a, p);
    lemma_pow_adds(a, 1, (p - 2) as nat);
    lemma_pow1(a);
    assert(pow(a, (p - 1) as nat) == a * r);
    lemma_mul_mod_noop_general(a, r, p);
}

/// Modulo a prime, a number that the prime does not divide is inverted by
/// 1 where the prime is 2, and by its power `p - 2` elsewhere.
pub proof fn lemma_inverse(a: int, p: int)
    requires
        is_prime(p),
        0 <= a,
        a % p != 0,
    ensures
        p == 2 ==> (a * 1) % p == 1,
        p > 2 ==> (a * (pow(a, (p - 2) as nat) % p)) % p == 1,
{
    if p == 2 {
        lemma_mod_bound(a, p);
    } else {
        lemma_power_inverts(a, p);
    }
}

/// The quotient taken with an inverse of the divisor is a quotient: times
/// the divisor it leaves what the dividend leaves.
pub proof fn lemma_quotient(dividend: int, divisor: int, inverse: int, p: int)
    requires
        0 < p,
        (divisor * inverse) % p == 1,
    ensures
        (divisor * ((dividend * inverse) % p)) % p == dividend % p,
{
    lemma_mul_mod_noop_general(divisor, dividend * inverse, p);
    assert(divisor * (dividend * inverse) == dividend * (divisor * inverse)) by (nonlinear_arith);
    lemma_mul_mod_noop_general(dividend, divisor * inverse, p);
}

/// Below a prime, a number has at most one inverse: whichever way an
/// inverse is found, it is the same one.
pub proof fn lemma_inverse_unique(a: int, p: int, r: int, s: int)
    requires
        is_prime(p),
        0 <= a,
        0 <= r < p,
        0 <= s < p,
        (a * r) % p == 1,
        (a * s) % p == 1,
    ensures
        r == s,
{
    if r != s {
        let (hi, lo) = if r > s {
            (r, s)
        } else {
            (s, r)
        };
        lemma_fundamental_div_mod(a * hi, p);
        lemma_fundamental_div_mod(a * lo, p);
        let d = (a * hi) / p - (a * lo) / p;
        assert((hi - lo) * a == d * p) by (nonlinear_arith)
            requires
                a * hi == p * ((a * hi) / p) + 1,
                a * lo == p * ((a * lo) / p) + 1,
                d == (a * hi) / p - (a * lo) / p,
        ;
        lemma_mod_multiples_basic(d, p);
        lemma_prime_divides_factor(p, hi - lo, a);
        // so p divides a, and a * r with it
        lemma_mul_mod_noop_general(a, r, p);
        assert((a % p) * r == 0) by (nonlinear_arith)
            requires
                a % p == 0,
        ;
        lemma_small_mod(0, p as nat);
    }
}

} // verus!
