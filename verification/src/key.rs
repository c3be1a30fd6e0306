//! The 32-byte identifier of an account or of the program that owns it, and its order.

use vstd::prelude::*;

verus! {

/// Identifier of an account, or of the program that owns one.
#[derive(Clone, Copy, Debug, PartialEq, Eq, Hash)]
pub struct AccountKey {
    pub bytes: [u8; 32],
}

impl View for AccountKey {
    type V = Seq<u8>;

    open spec fn view(&self) -> Seq<u8> {
        self.bytes@
    }
}

/// Byte-wise lexicographic "less than" on the suffixes of two keys that start at `i`.
pub open spec fn bytes_lt_from(a: Seq<u8>, b: Seq<u8>, i: int) -> bool
    decreases 32 - i,
{
    if i < 0 || i >= 32 {
        false
    } else if a[i] != b[i] {
        a[i] < b[i]
    } else {
        bytes_lt_from(a, b, i + 1)
    }
}

/// The order of keys: lexicographic on their bytes.
pub open spec fn key_lt(a: AccountKey, b: AccountKey) -> bool {
    bytes_lt_from(a@, b@, 0)
}

/// No suffix is smaller than itself.
pub proof fn lemma_bytes_lt_irreflexive(a: Seq<u8>, i: int)
    ensures
        !bytes_lt_from(a, a, i),
    decreases 32 - i,
{
    if 0 <= i < 32 {
        lemma_bytes_lt_irreflexive(a, i + 1);
    }
}

/// The order on suffixes is transitive.
pub proof fn lemma_bytes_lt_transitive(a: Seq<u8>, b: Seq<u8>, c: Seq<u8>, i: int)
    requires
        bytes_lt_from(a, b, i),
        bytes_lt_from(b, c, i),
    ensures
        bytes_lt_from(a, c, i),
    decreases 32 - i,
{
    if 0 <= i < 32 && a[i] == b[i] && b[i] == c[i] {
        lemma_bytes_lt_transitive(a, b, c, i + 1);
    }
}

/// Two suffixes of which neither is smaller hold the same bytes.
pub proof fn lemma_bytes_lt_total(a: Seq<u8>, b: Seq<u8>, i: int)
    requires
        0 <= i,
        !bytes_lt_from(a, b, i),
        !bytes_lt_from(b, a, i),
    ensures
        forall|j: int| i <= j < 32 ==> a[j] == b[j],
    decreases 32 - i,
{
    if i < 32 {
        lemma_bytes_lt_total(a, b, i + 1);
    }
}

/// No key is smaller than itself.
pub proof fn lemma_key_lt_irreflexive(a: AccountKey)
    ensures
        !key_lt(a, a),
{
    lemma_bytes_lt_irreflexive(a@, 0);
}

/// The order of keys is transitive.
pub proof fn lemma_key_lt_transitive(a: AccountKey, b: AccountKey, c: AccountKey)
    requires
        key_lt(a, b),
        key_lt(b, c),
    ensures
        key_lt(a, c),
{
    lemma_bytes_lt_transitive(a@, b@, c@, 0);
}

/// Of two different keys one is smaller than the other.
pub proof fn lemma_key_lt_total(a: AccountKey, b: AccountKey)
    requires
        !key_lt(a, b),
        !key_lt(b, a),
    ensures
        a == b,
{
    lemma_bytes_lt_total(a@, b@, 0);
    assert(a.bytes@.len() == 32 && b.bytes@.len() == 32);
    assert(a.bytes =~= b.bytes);
}

impl AccountKey {
    /// A key from its bytes.
    pub fn new(bytes: [u8; 32]) -> (key: AccountKey)
        ensures
            key.bytes == bytes,
    {
        AccountKey { bytes }
    }

    /// Whether `self` comes before `other` in the order of keys.
    pub fn less_than(&self, other: &AccountKey) -> (less: bool)
        ensures
            less == key_lt(*self, *other),
    {
        let mut i: usize = 0;
        while i < 32
            invariant
                0 <= i <= 32,
                key_lt(*self, *other) == bytes_lt_from(self@, other@, i as int),
            decreases 32 - i,
        {
            let x: u8 = self.bytes[i];
            let y: u8 = other.bytes[i];
            if x != y {
                return x < y;
            }
            i += 1;
        }
        false
    }
}

} // verus!
