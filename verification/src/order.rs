//! The order of public keys, in which every signer of a federation lists them.
//!
//! Keys are compared by their choice of encoding first, then by their coordinates, `x` before
//! `y`, each read from its least significant byte on. A little-endian machine keeps the bytes of a
//! point in this order in `secp256k1`, and `bitcoin` orders public keys by them there.
use vstd::prelude::*;
#[allow(unused_imports)]
use vstd::relations::{sorted_by, total_ordering};

use crate::keys::PublicKey;

verus! {

/// Lexicographic order on byte strings.
pub open spec fn lexicographic(a: Seq<u8>, b: Seq<u8>) -> bool
    decreases a.len(),
{
    if a.len() == 0 {
        true
    } else if b.len() == 0 {
        false
    } else if a[0] == b[0] {
        lexicographic(a.drop_first(), b.drop_first())
    } else {
        a[0] < b[0]
    }
}

impl PublicKey {
    /// The bytes by which keys are compared.
    pub open spec fn order_bytes(self) -> Seq<u8> {
        seq![if self.compressed { 1u8 } else { 0u8 }] + self.x@.reverse() + self.y@.reverse()
    }

    /// The key stands before `other` in the list of keys, or is the same.
    pub open spec fn precedes(self, other: PublicKey) -> bool {
        lexicographic(self.order_bytes(), other.order_bytes())
    }

    fn order_byte(&self, i: usize) -> (byte: u8)
        requires
            i < 65,
        ensures
            byte == self.order_bytes()[i as int],
    {
        if i == 0 {
            if self.compressed {
                1
            } else {
                0
            }
        } else if i <= 32 {
            self.x[32 - i]
        } else {
            self.y[64 - i]
        }
    }

    /// Whether the key stands before `other` in the list of keys, or is the same.
    pub fn is_before(&self, other: &PublicKey) -> (before: bool)
        ensures
            before == self.precedes(*other),
    {
        let ghost a = self.order_bytes();
        let ghost b = other.order_bytes();
        let mut i: usize = 0;
        assert(a.skip(0) =~= a && b.skip(0) =~= b);
        while i < 65
            invariant
                i <= 65,
                a == self.order_bytes(),
                b == other.order_bytes(),
                a.len() == 65,
                b.len() == 65,
                lexicographic(a, b) == lexicographic(a.skip(i as int), b.skip(i as int)),
            decreases 65 - i,
        {
            let own: u8 = self.order_byte(i);
            let others: u8 = other.order_byte(i);
            if own != others {
                return own < others;
            }
            assert(a.skip(i as int).drop_first() =~= a.skip(i + 1));
            assert(b.skip(i as int).drop_first() =~= b.skip(i + 1));
            i = i + 1;
        }
        true
    }
}

/// The keys stand in order.
pub open spec fn in_order(keys: Seq<PublicKey>) -> bool {
    forall|i: int, j: int| 0 <= i < j < keys.len() ==> #[trigger] keys[i].precedes(#[trigger] keys[j])
}

proof fn lemma_lexicographic_reflexive(a: Seq<u8>)
    ensures
        lexicographic(a, a),
    decreases a.len(),
{
    if a.len() > 0 {
        lemma_lexicographic_reflexive(a.drop_first());
    }
}

proof fn lemma_lexicographic_total(a: Seq<u8>, b: Seq<u8>)
    ensures
        lexicographic(a, b) || lexicographic(b, a),
    decreases a.len(),
{
    if a.len() > 0 && b.len() > 0 {
        lemma_lexicographic_total(a.drop_first(), b.drop_first());
    }
}

proof fn lemma_lexicographic_transitive(a: Seq<u8>, b: Seq<u8>, c: Seq<u8>)
    requires
        lexicographic(a, b),
        lexicographic(b, c),
    ensures
        lexicographic(a, c),
    decreases a.len(),
{
    if a.len() > 0 && b.len() > 0 && c.len() > 0 && a[0] == b[0] && b[0] == c[0] {
        lemma_lexicographic_transitive(a.drop_first(), b.drop_first(), c.drop_first());
    }
}

proof fn lemma_lexicographic_antisymmetric(a: Seq<u8>, b: Seq<u8>)
    requires
        lexicographic(a, b),
        lexicographic(b, a),
    ensures
        a == b,
    decreases a.len(),
{
    if a.len() > 0 && b.len() > 0 {
        lemma_lexicographic_antisymmetric(a.drop_first(), b.drop_first());
        assert(a =~= seq![a[0]] + a.drop_first());
        assert(b =~= seq![b[0]] + b.drop_first());
    }
}

proof fn lemma_order_bytes_determine_key(a: PublicKey, b: PublicKey)
    requires
        a.order_bytes() == b.order_bytes(),
    ensures
        a == b,
{
    let (s, t) = (a.order_bytes(), b.order_bytes());
    assert(s[0] == t[0]);
    assert forall|i: int| 0 <= i < 32 implies a.x@[i] == b.x@[i] by {
        assert(s[32 - i] == a.x@[i] && t[32 - i] == b.x@[i]);
    }
    assert forall|i: int| 0 <= i < 32 implies a.y@[i] == b.y@[i] by {
        assert(s[64 - i] == a.y@[i] && t[64 - i] == b.y@[i]);
    }
    assert(a.x =~= b.x);
    assert(a.y =~= b.y);
}

/// The order of keys is total: of two keys one precedes the other, and both do only where they
/// are the same key.
pub proof fn law_key_order_is_total()
    ensures
        total_ordering(|a: PublicKey, b: PublicKey| a.precedes(b)),
{
    let leq = |a: PublicKey, b: PublicKey| a.precedes(b);
    assert forall|a: PublicKey| #[trigger] leq(a, a) by {
        lemma_lexicographic_reflexive(a.order_bytes());
    }
    assert forall|a: PublicKey, b: PublicKey| #[trigger] leq(a, b) && #[trigger] leq(
        b,
        a,
    ) implies a == b by {
        lemma_lexicographic_antisymmetric(a.order_bytes(), b.order_bytes());
        lemma_order_bytes_determine_key(a, b);
    }
    assert forall|a: PublicKey, b: PublicKey, c: PublicKey| #[trigger] leq(a, b) && #[trigger] leq(
        b,
        c,
    ) implies leq(a, c) by {
        lemma_lexicographic_transitive(a.order_bytes(), b.order_bytes(), c.order_bytes());
    }
    assert forall|a: PublicKey, b: PublicKey| #[trigger] leq(a, b) || #[trigger] leq(b, a) by {
        lemma_lexicographic_total(a.order_bytes(), b.order_bytes());
    }
}

proof fn lemma_first_difference_decides(a: Seq<u8>, b: Seq<u8>, k: int)
    requires
        0 <= k < a.len(),
        k < b.len(),
        forall|j: int| 0 <= j < k ==> a[j] == b[j],
        a[k] < b[k],
    ensures
        lexicographic(a, b),
        !lexicographic(b, a),
    decreases k,
{
    if k > 0 {
        lemma_first_difference_decides(a.drop_first(), b.drop_first(), k - 1);
    }
}

/// How two keys are ordered. An uncompressed key comes before a compressed one. Of keys with the
/// same encoding, the one comes first whose `x` is smaller at the last byte at which the two differ;
/// if they have the same `x`, this goes for `y`.
pub proof fn law_last_differing_byte_decides(a: PublicKey, b: PublicKey, k: int)
    requires
        0 <= k < 32,
    ensures
        !a.compressed && b.compressed ==> a.precedes(b) && !b.precedes(a),
        a.compressed == b.compressed && a.x@[k] < b.x@[k] && (forall|j: int|
            k < j < 32 ==> a.x@[j] == b.x@[j]) ==> a.precedes(b) && !b.precedes(a),
        a.compressed == b.compressed && a.x == b.x && a.y@[k] < b.y@[k] && (forall|j: int|
            k < j < 32 ==> a.y@[j] == b.y@[j]) ==> a.precedes(b) && !b.precedes(a),
        a == b ==> a.precedes(b),
{
    let (s, t) = (a.order_bytes(), b.order_bytes());
    if !a.compressed && b.compressed {
        lemma_first_difference_decides(s, t, 0);
    }
    if a.compressed == b.compressed && a.x@[k] < b.x@[k] && (forall|j: int|
        k < j < 32 ==> a.x@[j] == b.x@[j]) {
        assert forall|j: int| 0 <= j < 32 - k implies s[j] == t[j] by {
            if j > 0 {
                assert(s[j] == a.x@[32 - j] && t[j] == b.x@[32 - j]);
            }
        }
        assert(s[32 - k] == a.x@[k] && t[32 - k] == b.x@[k]);
        lemma_first_difference_decides(s, t, 32 - k);
    }
    if a.compressed == b.compressed && a.x == b.x && a.y@[k] < b.y@[k] && (forall|j: int|
        k < j < 32 ==> a.y@[j] == b.y@[j]) {
        assert forall|j: int| 0 <= j < 64 - k implies s[j] == t[j] by {
            if 0 < j <= 32 {
                assert(s[j] == a.x@[32 - j] && t[j] == b.x@[32 - j]);
            } else if j > 32 {
                assert(s[j] == a.y@[64 - j] && t[j] == b.y@[64 - j]);
            }
        }
        assert(s[64 - k] == a.y@[k] && t[64 - k] == b.y@[k]);
        lemma_first_difference_decides(s, t, 64 - k);
    }
    lemma_lexicographic_reflexive(s);
}

/// The order in which the keys are handed over is of no account: lists with the same keys, the
/// same number of times each, have only one sorted form.
pub proof fn law_sorted_keys_are_unique(a: Seq<PublicKey>, b: Seq<PublicKey>)
    requires
        in_order(a),
        in_order(b),
        a.to_multiset() == b.to_multiset(),
    ensures
        a == b,
{
    let leq = |a: PublicKey, b: PublicKey| a.precedes(b);
    law_key_order_is_total();
    assert(sorted_by(a, leq));
    assert(sorted_by(b, leq));
    vstd::seq_lib::lemma_sorted_unique(a, b, leq);
}

/// Inserts `key` into the sorted list `sorted`, where the order puts it.
fn insert_key(sorted: &mut Vec<PublicKey>, key: PublicKey)
    requires
        in_order(old(sorted)@),
    ensures
        in_order(final(sorted)@),
        final(sorted)@.to_multiset() == old(sorted)@.to_multiset().insert(key),
{
    let ghost before = sorted@;
    let mut at: usize = sorted.len();
    while at > 0 && !sorted[at - 1].is_before(&key)
        invariant
            at <= sorted.len(),
            sorted@ == before,
            forall|j: int| at <= j < before.len() ==> !(#[trigger] before[j]).precedes(key),
        decreases at,
    {
        at = at - 1;
    }
    sorted.insert(at, key);
    proof {
        let after = sorted@;
        let leq = |a: PublicKey, b: PublicKey| a.precedes(b);
        law_key_order_is_total();
        assert forall|i: int, j: int| 0 <= i < j < after.len() implies #[trigger] after[i].precedes(
            #[trigger] after[j],
        ) by {
            if j == at {
                assert(before[at - 1].precedes(key));
                if i < at - 1 {
                    assert(leq(before[i], before[at - 1]) && leq(before[at - 1], key));
                }
            } else if i == at {
                assert(leq(before[j - 1], key) || leq(key, before[j - 1]));
            }
        }
        assert(after.remove(at as int) =~= before);
        broadcast use vstd::seq_lib::group_to_multiset_ensures;
        assert(after.to_multiset().remove(key) == before.to_multiset());
        assert(after.contains(after[at as int]));
        assert(after.to_multiset() =~= before.to_multiset().insert(key));
    }
}

/// Sorts a list of keys.
pub fn sort_keys(keys: &Vec<PublicKey>) -> (sorted: Vec<PublicKey>)
    ensures
        in_order(sorted@),
        forall|i: int, j: int|
            0 <= i < j < sorted@.len() ==> #[trigger] sorted@[i].precedes(#[trigger] sorted@[j]),
        sorted@.to_multiset() == keys@.to_multiset(),
{
    let mut sorted: Vec<PublicKey> = Vec::new();
    let mut i: usize = 0;
    proof {
        assert(keys@.take(0) =~= sorted@);
    }
    while i < keys.len()
        invariant
            i <= keys.len(),
            in_order(sorted@),
            sorted@.to_multiset() == keys@.take(i as int).to_multiset(),
        decreases keys.len() - i,
    {
        insert_key(&mut sorted, keys[i]);
        proof {
            broadcast use vstd::seq_lib::group_to_multiset_ensures;
            assert(keys@.take(i + 1) =~= keys@.take(i as int).push(keys@[i as int]));
        }
        i = i + 1;
    }
    proof {
        assert(keys@.take(keys@.len() as int) =~= keys@);
    }
    sorted
}

} // verus!
