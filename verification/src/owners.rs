//! The canonical form of a set of owners: sorted by key, each owner once.

use vstd::prelude::*;
use crate::key::{key_lt, lemma_key_lt_irreflexive, lemma_key_lt_total, lemma_key_lt_transitive, AccountKey};

verus! {

/// Every key in `s` is smaller than all that follow it; so none occurs twice.
pub open spec fn strictly_sorted(s: Seq<AccountKey>) -> bool {
    forall|i: int, j: int| 0 <= i < j < s.len() ==> key_lt(#[trigger] s[i], #[trigger] s[j])
}

/// The two sequences hold the same keys, whatever their order and however often.
pub open spec fn same_keys(a: Seq<AccountKey>, b: Seq<AccountKey>) -> bool {
    forall|k: AccountKey| a.contains(k) <==> b.contains(k)
}

/// A set of keys has one canonical form only: two strictly sorted sequences that hold
/// the same keys are the same sequence.
pub proof fn lemma_canonical_form_unique(a: Seq<AccountKey>, b: Seq<AccountKey>)
    requires
        strictly_sorted(a),
        strictly_sorted(b),
        same_keys(a, b),
    ensures
        a == b,
    decreases a.len(),
{
    if a.len() == 0 {
        if b.len() > 0 {
            assert(b.contains(b[0]));
            assert(a.contains(b[0]));
        }
        assert(a =~= b);
    } else {
        assert(a.contains(a[0]));
        assert(b.contains(a[0]));
        let jb = choose|j: int| 0 <= j < b.len() && b[j] == a[0];
        assert(b.contains(b[0]));
        assert(a.contains(b[0]));
        let ja = choose|j: int| 0 <= j < a.len() && a[j] == b[0];
        // a[0] <= b[0] and b[0] <= a[0], so the two heads are equal
        if jb > 0 {
            assert(key_lt(b[0], b[jb]));
            if ja > 0 {
                assert(key_lt(a[0], a[ja]));
                lemma_key_lt_transitive(a[0], b[0], a[0]);
            }
            lemma_key_lt_irreflexive(a[0]);
        }
        assert(a[0] == b[0]);
        let ta = a.skip(1);
        let tb = b.skip(1);
        assert forall|k: AccountKey| ta.contains(k) <==> tb.contains(k) by {
            lemma_key_lt_irreflexive(k);
            if ta.contains(k) {
                let i = choose|i: int| 0 <= i < ta.len() && ta[i] == k;
                assert(a[i + 1] == k);
                assert(key_lt(a[0], a[i + 1]));
                assert(a.contains(k));
                assert(b.contains(k));
                let j = choose|j: int| 0 <= j < b.len() && b[j] == k;
                assert(j > 0);
                assert(tb[j - 1] == k);
            }
            if tb.contains(k) {
                let i = choose|i: int| 0 <= i < tb.len() && tb[i] == k;
                assert(b[i + 1] == k);
                assert(key_lt(b[0], b[i + 1]));
                assert(b.contains(k));
                assert(a.contains(k));
                let j = choose|j: int| 0 <= j < a.len() && a[j] == k;
                assert(j > 0);
                assert(ta[j - 1] == k);
            }
        }
        assert forall|i: int, j: int| 0 <= i < j < ta.len() implies key_lt(
            #[trigger] ta[i],
            #[trigger] ta[j],
        ) by {
            assert(key_lt(a[i + 1], a[j + 1]));
        }
        assert forall|i: int, j: int| 0 <= i < j < tb.len() implies key_lt(
            #[trigger] tb[i],
            #[trigger] tb[j],
        ) by {
            assert(key_lt(b[i + 1], b[j + 1]));
        }
        lemma_canonical_form_unique(ta, tb);
        assert(a =~= seq![a[0]] + ta);
        assert(b =~= seq![b[0]] + tb);
    }
}

/// Puts `key` into the strictly sorted `sorted` at its place, unless it is there.
pub fn insert_owner(sorted: &mut Vec<AccountKey>, key: AccountKey)
    requires
        strictly_sorted(old(sorted)@),
    ensures
        strictly_sorted(final(sorted)@),
        forall|k: AccountKey| final(sorted)@.contains(k) <==> (old(sorted)@.contains(k) || k == key),
{
    let ghost before = sorted@;
    let mut p: usize = 0;
    while p < sorted.len() && sorted[p].less_than(&key)
        invariant
            0 <= p <= sorted@.len(),
            sorted@ == before,
            forall|i: int| 0 <= i < p ==> key_lt(#[trigger] sorted@[i], key),
        decreases sorted@.len() - p,
    {
        p += 1;
    }
    if p < sorted.len() && !key.less_than(&sorted[p]) {
        proof {
            lemma_key_lt_total(before[p as int], key);
            assert(before.contains(key));
        }
        return ;
    }
    sorted.insert(p, key);
    proof {
        let after = sorted@;
        assert(after == before.insert(p as int, key));
        assert forall|i: int, j: int| 0 <= i < j < after.len() implies key_lt(
            #[trigger] after[i],
            #[trigger] after[j],
        ) by {
            if j < p {
                assert(key_lt(before[i], before[j]));
            } else if j == p {
                assert(key_lt(before[i], key));
            } else if i < p {
                assert(key_lt(before[i], before[j - 1]));
            } else if i == p {
                assert(key_lt(key, before[p as int]));
                if j - 1 > p {
                    assert(key_lt(before[p as int], before[j - 1]));
                    lemma_key_lt_transitive(key, before[p as int], before[j - 1]);
                }
            } else {
                assert(key_lt(before[i - 1], before[j - 1]));
            }
        }
        assert forall|k: AccountKey| after.contains(k) <==> (before.contains(k) || k == key) by {
            if after.contains(k) {
                let i = choose|i: int| 0 <= i < after.len() && after[i] == k;
                if i < p {
                    assert(before[i] == k);
                } else if i > p {
                    assert(before[i - 1] == k);
                }
            }
            if before.contains(k) {
                let i = choose|i: int| 0 <= i < before.len() && before[i] == k;
                if i < p {
                    assert(after[i] == k);
                } else {
                    assert(after[i + 1] == k);
                }
            }
            if k == key {
                assert(after[p as int] == k);
            }
        }
    }
}

/// The canonical form of the owners in `owners`: sorted by key, each owner once. It
/// depends on which owners occur only, not on their order or number.
pub fn canonical_owner_set(owners: &Vec<AccountKey>) -> (canonical: Vec<AccountKey>)
    ensures
        strictly_sorted(canonical@),
        same_keys(canonical@, owners@),
{
    let mut canonical: Vec<AccountKey> = Vec::new();
    let mut n: usize = 0;
    while n < owners.len()
        invariant
            0 <= n <= owners@.len(),
            strictly_sorted(canonical@),
            same_keys(canonical@, owners@.take(n as int)),
        decreases owners@.len() - n,
    {
        let ghost prev = canonical@;
        insert_owner(&mut canonical, owners[n]);
        proof {
            let done = owners@.take(n as int);
            let next = owners@.take(n + 1);
            assert(next =~= done.push(owners@[n as int]));
            assert forall|k: AccountKey| canonical@.contains(k) <==> next.contains(k) by {
                assert(prev.contains(k) <==> done.contains(k));
                if done.contains(k) {
                    let i = choose|i: int| 0 <= i < done.len() && done[i] == k;
                    assert(next[i] == k);
                }
                if k == owners@[n as int] {
                    assert(next[n as int] == k);
                }
                if next.contains(k) {
                    let i = choose|i: int| 0 <= i < next.len() && next[i] == k;
                    if i < n {
                        assert(done[i] == k);
                    }
                }
            }
        }
        n += 1;
    }
    assert(owners@.take(n as int) =~= owners@);
    canonical
}

/// Two collections that hold the same owners have the same canonical form.
pub proof fn lemma_canonical_owner_set_ignores_order(
    a: Seq<AccountKey>,
    b: Seq<AccountKey>,
    canonical_a: Seq<AccountKey>,
    canonical_b: Seq<AccountKey>,
)
    requires
        same_keys(a, b),
        strictly_sorted(canonical_a),
        same_keys(canonical_a, a),
        strictly_sorted(canonical_b),
        same_keys(canonical_b, b),
    ensures
        canonical_a == canonical_b,
{
    assert forall|k: AccountKey| canonical_a.contains(k) <==> canonical_b.contains(k) by {
        assert(canonical_a.contains(k) <==> a.contains(k));
        assert(a.contains(k) <==> b.contains(k));
        assert(canonical_b.contains(k) <==> b.contains(k));
    }
    lemma_canonical_form_unique(canonical_a, canonical_b);
}

} // verus!
