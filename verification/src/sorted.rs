//! Lists of accounts brought into ascending order, each account once.

use vstd::prelude::*;
use crate::account::{
    lemma_account_by_bytes, lemma_lex_irreflexive, lemma_lex_total, lemma_lex_transitive,
    AccountId,
};

verus! {

/// Every account of `s` sorts strictly before all that follow it.
pub open spec fn strictly_increasing(s: Seq<AccountId>) -> bool {
    forall|i: int, j: int| 0 <= i < j < s.len() ==> s[i].precedes_spec(&s[j])
}

/// `r` lists exactly the accounts that occur in `s`, in ascending order and
/// each once.
pub open spec fn is_sorted_set_of(r: Seq<AccountId>, s: Seq<AccountId>) -> bool {
    &&& strictly_increasing(r)
    &&& forall|a: AccountId|
        #![trigger r.contains(a)]
        #![trigger s.contains(a)]
        r.contains(a) <==> s.contains(a)
}

/// The accounts that occur in `s`, in ascending order and each once.
pub open spec fn sorted_set(s: Seq<AccountId>) -> Seq<AccountId> {
    choose|r: Seq<AccountId>| is_sorted_set_of(r, s)
}

/// A list in strictly ascending order holds no account twice.
pub proof fn lemma_increasing_no_duplicates(s: Seq<AccountId>)
    requires
        strictly_increasing(s),
    ensures
        s.no_duplicates(),
{
    assert forall|i: int, j: int| 0 <= i < s.len() && 0 <= j < s.len() && i != j implies s[i]
        != s[j] by {
        lemma_lex_irreflexive(s[i]@);
        if i < j {
            assert(s[i].precedes_spec(&s[j]));
        } else {
            assert(s[j].precedes_spec(&s[i]));
        }
    }
}

/// Two lists in strictly ascending order that hold the same accounts are
/// the same list.
pub proof fn lemma_sorted_set_unique(a: Seq<AccountId>, b: Seq<AccountId>)
    requires
        strictly_increasing(a),
        strictly_increasing(b),
        forall|x: AccountId| a.contains(x) <==> b.contains(x),
    ensures
        a == b,
    decreases a.len(),
{
    if a.len() == 0 {
        if b.len() > 0 {
            assert(b.contains(b[0]));
        }
        assert(a =~= b);
    } else {
        assert(a.contains(a[0]));
        assert(b.len() > 0);
        assert(b.contains(b[0]));
        // The least account of each list is the least of the other.
        let i = choose|i: int| 0 <= i < b.len() && b[i] == a[0];
        let j = choose|j: int| 0 <= j < a.len() && a[j] == b[0];
        if i != 0 && j != 0 {
            assert(b[0].precedes_spec(&b[i]));
            assert(a[0].precedes_spec(&a[j]));
            lemma_lex_transitive(a[0]@, b[0]@, a[0]@);
            lemma_lex_irreflexive(a[0]@);
        }
        if i != 0 {
            assert(j == 0);
        }
        assert(a[0] == b[0]);
        let a1 = a.subrange(1, a.len() as int);
        let b1 = b.subrange(1, b.len() as int);
        lemma_increasing_no_duplicates(a);
        lemma_increasing_no_duplicates(b);
        assert forall|x: AccountId| a1.contains(x) <==> b1.contains(x) by {
            if a1.contains(x) {
                let k = choose|k: int| 0 <= k < a1.len() && a1[k] == x;
                assert(a[k + 1] == x);
                assert(a.contains(x));
                let m = choose|m: int| 0 <= m < b.len() && b[m] == x;
                assert(m != 0);
                assert(b1[m - 1] == x);
            }
            if b1.contains(x) {
                let k = choose|k: int| 0 <= k < b1.len() && b1[k] == x;
                assert(b[k + 1] == x);
                assert(b.contains(x));
                let m = choose|m: int| 0 <= m < a.len() && a[m] == x;
                assert(m != 0);
                assert(a1[m - 1] == x);
            }
        }
        assert(strictly_increasing(a1)) by {
            assert forall|p: int, q: int| 0 <= p < q < a1.len() implies a1[p].precedes_spec(
                &a1[q],
            ) by {
                assert(a[p + 1].precedes_spec(&a[q + 1]));
            }
        }
        assert(strictly_increasing(b1)) by {
            assert forall|p: int, q: int| 0 <= p < q < b1.len() implies b1[p].precedes_spec(
                &b1[q],
            ) by {
                assert(b[p + 1].precedes_spec(&b[q + 1]));
            }
        }
        lemma_sorted_set_unique(a1, b1);
        assert(a =~= seq![a[0]] + a1);
        assert(b =~= seq![b[0]] + b1);
    }
}

/// A list that is the sorted set of `s` is `sorted_set(s)`.
pub proof fn lemma_sorted_set_is(r: Seq<AccountId>, s: Seq<AccountId>)
    requires
        is_sorted_set_of(r, s),
    ensures
        r == sorted_set(s),
{
    lemma_sorted_set_unique(r, sorted_set(s));
}

/// The number of accounts at the head of `s`, from place `from` on, that
/// sort before `a`: where `s` is ascending, the place at which `a` belongs.
pub open spec fn place_for(s: Seq<AccountId>, a: AccountId, from: int) -> int
    decreases s.len() - from,
{
    if 0 <= from < s.len() && s[from].precedes_spec(&a) {
        place_for(s, a, from + 1)
    } else {
        from
    }
}

/// `place_for` stops at the first account that does not sort before `a`.
pub proof fn lemma_place_for(s: Seq<AccountId>, a: AccountId, from: int)
    requires
        0 <= from <= s.len(),
    ensures
        from <= place_for(s, a, from) <= s.len(),
        forall|j: int| from <= j < place_for(s, a, from) ==> s[j].precedes_spec(&a),
        place_for(s, a, from) < s.len() ==> !s[place_for(s, a, from)].precedes_spec(&a),
    decreases s.len() - from,
{
    if from < s.len() && s[from].precedes_spec(&a) {
        lemma_place_for(s, a, from + 1);
    }
}

/// An ascending list stays ascending when an account that it does not hold
/// is put in after all that sort before it, and then holds that account
/// besides its own.
pub proof fn lemma_insert_in_order(s: Seq<AccountId>, a: AccountId, i: int)
    requires
        strictly_increasing(s),
        0 <= i <= s.len(),
        forall|j: int| 0 <= j < i ==> s[j].precedes_spec(&a),
        i < s.len() ==> !s[i].precedes_spec(&a) && s[i] != a,
    ensures
        strictly_increasing(s.insert(i, a)),
        forall|x: AccountId|
            #![trigger s.insert(i, a).contains(x)]
            #![trigger s.contains(x)]
            s.insert(i, a).contains(x) <==> (s.contains(x) || x == a),
{
    if i < s.len() {
        lemma_lex_total(a@, s[i]@);
        if a@ == s[i]@ {
            lemma_account_by_bytes(a, s[i]);
        }
        assert(a.precedes_spec(&s[i]));
        assert forall|j: int| i <= j < s.len() implies a.precedes_spec(&s[j]) by {
            if i < j {
                assert(s[i].precedes_spec(&s[j]));
                lemma_lex_transitive(a@, s[i]@, s[j]@);
            }
        }
    }
    let t = s.insert(i, a);
    s.insert_ensures(i, a);
    assert forall|p: int, q: int| 0 <= p < q < t.len() implies t[p].precedes_spec(&t[q]) by {
        if q < i {
            assert(s[p].precedes_spec(&s[q]));
        } else if q == i {
        } else if p < i {
            assert(s[p].precedes_spec(&s[q - 1]));
        } else if p == i {
        } else {
            assert(s[p - 1].precedes_spec(&s[q - 1]));
        }
    }
    assert forall|x: AccountId| t.contains(x) <==> (s.contains(x) || x == a) by {
        if t.contains(x) {
            let k = choose|k: int| 0 <= k < t.len() && t[k] == x;
            if k < i {
                assert(s[k] == x);
            } else if k > i {
                assert(s[k - 1] == x);
            }
        }
        if s.contains(x) {
            let k = choose|k: int| 0 <= k < s.len() && s[k] == x;
            if k < i {
                assert(t[k] == x);
            } else {
                assert(t[k + 1] == x);
            }
        }
        if x == a {
            assert(t[i] == x);
        }
    }
}

/// Every list has its sorted set: `sorted_set(s)` lists exactly the
/// accounts that occur in `s`, in ascending order, and so each once.
pub proof fn lemma_sorted_set(s: Seq<AccountId>)
    ensures
        is_sorted_set_of(sorted_set(s), s),
        sorted_set(s).no_duplicates(),
    decreases s.len(),
{
    if s.len() == 0 {
        let r = Seq::<AccountId>::empty();
        assert(is_sorted_set_of(r, s));
    } else {
        let head = s.drop_last();
        let a = s.last();
        lemma_sorted_set(head);
        let r0 = sorted_set(head);
        assert forall|x: AccountId| s.contains(x) <==> (head.contains(x) || x == a) by {
            if s.contains(x) {
                let k = choose|k: int| 0 <= k < s.len() && s[k] == x;
                if k < s.len() - 1 {
                    assert(head[k] == x);
                }
            }
            if head.contains(x) {
                let k = choose|k: int| 0 <= k < head.len() && head[k] == x;
                assert(s[k] == x);
            }
            if x == a {
                assert(s[s.len() - 1] == x);
            }
        }
        if r0.contains(a) {
            assert(is_sorted_set_of(r0, s));
        } else {
            let i = place_for(r0, a, 0);
            lemma_place_for(r0, a, 0);
            if i < r0.len() {
                assert(r0.contains(r0[i]));
            }
            lemma_insert_in_order(r0, a, i);
            assert(is_sorted_set_of(r0.insert(i, a), s));
        }
    }
    lemma_increasing_no_duplicates(sorted_set(s));
}

/// Sorting a sorted set again changes nothing.
pub proof fn lemma_sorted_set_idempotent(s: Seq<AccountId>)
    ensures
        sorted_set(sorted_set(s)) == sorted_set(s),
{
    lemma_sorted_set(s);
    lemma_sorted_set_is(sorted_set(s), sorted_set(s));
}

/// Puts `a` into the ascending list `v` at its place, unless `v` holds it.
fn insert_sorted(v: &mut Vec<AccountId>, a: AccountId)
    requires
        strictly_increasing(old(v)@),
    ensures
        strictly_increasing(final(v)@),
        forall|x: AccountId|
            #![trigger final(v)@.contains(x)]
            #![trigger old(v)@.contains(x)]
            final(v)@.contains(x) <==> (old(v)@.contains(x) || x == a),
{
    let mut i: usize = 0;
    while i < v.len() && v[i].precedes(&a)
        invariant
            i <= v.len(),
            v@ == old(v)@,
            forall|j: int| 0 <= j < i ==> v[j].precedes_spec(&a),
        decreases v.len() - i,
    {
        i += 1;
    }
    if i < v.len() && v[i] == a {
        assert(v@.contains(a));
        return ;
    }
    proof {
        lemma_insert_in_order(v@, a, i as int);
    }
    v.insert(i, a);
}

/// The accounts of `v` in ascending order, each once.
pub fn sorted_unique(v: &Vec<AccountId>) -> (r: Vec<AccountId>)
    ensures
        is_sorted_set_of(r@, v@),
        r@ == sorted_set(v@),
{
    let mut r: Vec<AccountId> = Vec::new();
    let mut i: usize = 0;
    while i < v.len()
        invariant
            i <= v.len(),
            strictly_increasing(r@),
            forall|x: AccountId| r@.contains(x) <==> v@.subrange(0, i as int).contains(x),
        decreases v.len() - i,
    {
        insert_sorted(&mut r, v[i]);
        proof {
            let s0 = v@.subrange(0, i as int);
            let s1 = v@.subrange(0, i as int + 1);
            assert forall|x: AccountId| r@.contains(x) <==> s1.contains(x) by {
                if s1.contains(x) {
                    let k = choose|k: int| 0 <= k < s1.len() && s1[k] == x;
                    if k < i {
                        assert(s0[k] == x);
                    }
                }
                if s0.contains(x) {
                    let k = choose|k: int| 0 <= k < s0.len() && s0[k] == x;
                    assert(s1[k] == x);
                }
                if x == v[i as int] {
                    assert(s1[i as int] == x);
                }
            }
        }
        i += 1;
    }
    proof {
        assert(v@.subrange(0, i as int) =~= v@);
        lemma_sorted_set_is(r@, v@);
    }
    r
}

} // verus!
