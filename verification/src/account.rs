//! Account identifiers as the ledger hands them to a contract, and the
//! byte-wise order in which the contracts keep them.

use vstd::prelude::*;

verus! {

/// A 32-byte account identifier. Two identifiers are the same account
/// exactly when all their bytes agree.
#[derive(Clone, Copy, Debug, Eq, Hash)]
pub struct AccountId {
    pub bytes: [u8; 32],
}

/// `a` and `b` agree before position `k`, and there `a` holds the smaller byte.
pub open spec fn smaller_at(a: Seq<u8>, b: Seq<u8>, k: int) -> bool {
    &&& 0 <= k < a.len()
    &&& k < b.len()
    &&& a[k] < b[k]
    &&& forall|j: int| 0 <= j < k ==> a[j] == b[j]
}

/// Lexicographic order on byte strings: `a` comes before `b` when, at the
/// first position where they differ, `a` holds the smaller byte.
pub open spec fn lex_less(a: Seq<u8>, b: Seq<u8>) -> bool {
    exists|k: int| smaller_at(a, b, k)
}

impl View for AccountId {
    type V = Seq<u8>;

    open spec fn view(&self) -> Seq<u8> {
        self.bytes@
    }
}

impl AccountId {
    /// `self` sorts strictly before `other`.
    pub open spec fn precedes_spec(&self, other: &AccountId) -> bool {
        lex_less(self@, other@)
    }

    /// Compares the two identifiers byte by byte, the first byte weighing most.
    #[verifier::when_used_as_spec(precedes_spec)]
    pub fn precedes(&self, other: &AccountId) -> (r: bool)
        ensures
            r == self.precedes_spec(other),
    {
        let mut i: usize = 0;
        while i < 32
            invariant
                i <= 32,
                forall|j: int| 0 <= j < i ==> self.bytes[j] == other.bytes[j],
            decreases 32 - i,
        {
            if self.bytes[i] != other.bytes[i] {
                proof {
                    if self.bytes[i as int] < other.bytes[i as int] {
                        lemma_lex_first_difference(self@, other@, i as int);
                    } else {
                        lemma_lex_first_difference(other@, self@, i as int);
                    }
                }
                return self.bytes[i] < other.bytes[i];
            }
            i += 1;
        }
        proof {
            assert(self@ =~= other@);
            lemma_lex_irreflexive(self@);
        }
        false
    }
}

impl PartialEq for AccountId {
    fn eq(&self, other: &AccountId) -> (r: bool) {
        let mut i: usize = 0;
        while i < 32
            invariant
                i <= 32,
                forall|j: int| 0 <= j < i ==> self.bytes[j] == other.bytes[j],
            decreases 32 - i,
        {
            if self.bytes[i] != other.bytes[i] {
                return false;
            }
            i += 1;
        }
        assert(self.bytes =~= other.bytes);
        true
    }
}

impl vstd::std_specs::cmp::PartialEqSpecImpl for AccountId {
    open spec fn obeys_eq_spec() -> bool {
        true
    }

    open spec fn eq_spec(&self, other: &AccountId) -> bool {
        *self == *other
    }
}

impl From<[u8; 32]> for AccountId {
    fn from(bytes: [u8; 32]) -> (id: AccountId) {
        AccountId { bytes }
    }
}

impl vstd::std_specs::convert::FromSpecImpl<[u8; 32]> for AccountId {
    open spec fn obeys_from_spec() -> bool {
        true
    }

    open spec fn from_spec(bytes: [u8; 32]) -> AccountId {
        AccountId { bytes }
    }
}

/// Two identifiers with the same bytes are one identifier.
pub proof fn lemma_account_by_bytes(a: AccountId, b: AccountId)
    requires
        a@ == b@,
    ensures
        a == b,
{
    assert(a.bytes =~= b.bytes);
}

/// No byte string comes before itself.
pub proof fn lemma_lex_irreflexive(a: Seq<u8>)
    ensures
        !lex_less(a, a),
{
}

/// Where `a` and `b` agree up to `k` and `a` holds the smaller byte there,
/// `a` comes first and `b` does not.
pub proof fn lemma_lex_first_difference(a: Seq<u8>, b: Seq<u8>, k: int)
    requires
        smaller_at(a, b, k),
    ensures
        lex_less(a, b),
        !lex_less(b, a),
{
    if lex_less(b, a) {
        let m = choose|m: int| smaller_at(b, a, m);
        assert(m == k);
    }
}

/// The order is transitive.
pub proof fn lemma_lex_transitive(a: Seq<u8>, b: Seq<u8>, c: Seq<u8>)
    requires
        lex_less(a, b),
        lex_less(b, c),
    ensures
        lex_less(a, c),
{
    let k1 = choose|k: int| smaller_at(a, b, k);
    let k2 = choose|k: int| smaller_at(b, c, k);
    let k = if k1 <= k2 {
        k1
    } else {
        k2
    };
    assert(smaller_at(a, c, k));
}

/// Of two byte strings of one length, one comes first or they are equal.
pub proof fn lemma_lex_total(a: Seq<u8>, b: Seq<u8>)
    requires
        a.len() == b.len(),
    ensures
        lex_less(a, b) || lex_less(b, a) || a == b,
{
    lemma_lex_total_from(a, b, 0);
}

proof fn lemma_lex_total_from(a: Seq<u8>, b: Seq<u8>, n: int)
    requires
        a.len() == b.len(),
        0 <= n <= a.len(),
        forall|j: int| 0 <= j < n ==> a[j] == b[j],
    ensures
        lex_less(a, b) || lex_less(b, a) || a == b,
    decreases a.len() - n,
{
    if n == a.len() {
        assert(a =~= b);
    } else if a[n] < b[n] {
        assert(smaller_at(a, b, n));
    } else if b[n] < a[n] {
        assert(smaller_at(b, a, n));
    } else {
        lemma_lex_total_from(a, b, n + 1);
    }
}

} // verus!
