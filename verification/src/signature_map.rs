//! The signatures that a master has collected, by signer.
use vstd::prelude::*;
#[allow(unused_imports)]
use vstd::std_specs::cmp::PartialEqSpec;

use crate::keys::{Signature, SignerID};

verus! {

/// A signer occurs among the entries.
pub open spec fn has_signer(entries: Seq<(SignerID, Signature)>, id: SignerID) -> bool {
    exists|i: int| 0 <= i < entries.len() && (#[trigger] entries[i]).0 == id
}

/// No signer occurs twice among the entries.
pub open spec fn signers_distinct(entries: Seq<(SignerID, Signature)>) -> bool {
    forall|i: int, j: int|
        0 <= i < j < entries.len() ==> (#[trigger] entries[i]).0 != (#[trigger] entries[j]).0
}

/// The signatures of the entries, in their order.
pub open spec fn signatures_of(entries: Seq<(SignerID, Signature)>) -> Seq<Signature> {
    entries.map_values(|entry: (SignerID, Signature)| entry.1)
}

/// The entries after `signature` is entered for `id`: in the place of an earlier signature of the
/// same signer, or else as the last entry.
pub open spec fn with_signature(
    entries: Seq<(SignerID, Signature)>,
    id: SignerID,
    signature: Signature,
) -> Seq<(SignerID, Signature)> {
    if has_signer(entries, id) {
        entries.map_values(
            |entry: (SignerID, Signature)|
                if entry.0 == id {
                    (id, signature)
                } else {
                    entry
                },
        )
    } else {
        entries.push((id, signature))
    }
}

/// The same signers with the same signatures, in whatever order they came.
pub open spec fn same_entries(
    a: Seq<(SignerID, Signature)>,
    b: Seq<(SignerID, Signature)>,
) -> bool {
    forall|entry: (SignerID, Signature)| #[trigger] a.contains(entry) <==> b.contains(entry)
}

/// Afterwards `entry` is in, and the entries of the other signers are as before.
pub proof fn lemma_with_signature(
    entries: Seq<(SignerID, Signature)>,
    entry: (SignerID, Signature),
)
    ensures
        with_signature(entries, entry.0, entry.1).contains(entry),
        forall|e: (SignerID, Signature)| #[trigger]
            with_signature(entries, entry.0, entry.1).contains(e) <==> e == entry || (e.0 != entry.0
                && entries.contains(e)),
{
    let after = with_signature(entries, entry.0, entry.1);
    assert forall|e: (SignerID, Signature)| #[trigger] after.contains(e) <==> e == entry || (e.0
        != entry.0 && entries.contains(e)) by {
        if entries.contains(e) && e.0 != entry.0 {
            let i = choose|i: int| 0 <= i < entries.len() && entries[i] == e;
            assert(after[i] == e);
        }
        if has_signer(entries, entry.0) {
            let i = choose|i: int| 0 <= i < entries.len() && (#[trigger] entries[i]).0 == entry.0;
            assert(after[i] == entry);
        } else {
            assert(after[entries.len() as int] == entry);
        }
    }
    assert(after.contains(entry));
}

/// What is entered is found again, and nothing else is lost or added: the signer has the signature
/// that was entered last, and every other signer keeps its own. Equal collections are those in
/// which the same signers have the same signatures.
pub proof fn law_entered_signature_is_found(
    entries: Seq<(SignerID, Signature)>,
    id: SignerID,
    signature: Signature,
    other: SignerID,
    others: Signature,
)
    ensures
        ({
            let after = with_signature(entries, id, signature);
            &&& has_signer(after, id)
            &&& after.contains((id, others)) <==> others == signature
            &&& other != id ==> (after.contains((other, others)) <==> entries.contains(
                (other, others),
            ))
            &&& has_signer(after, other) <==> other == id || has_signer(entries, other)
        }),
        has_signer(entries, id) <==> exists|s: Signature| entries.contains((id, s)),
        signatures_of(entries).len() == entries.len(),
        forall|i: int|
            0 <= i < entries.len() ==> #[trigger] signatures_of(entries)[i] == entries[i].1,
        forall|b: Seq<(SignerID, Signature)>| #[trigger]
            same_entries(entries, b) <==> forall|i: SignerID, s: Signature| #[trigger]
                entries.contains((i, s)) <==> b.contains((i, s)),
{
    let entry = (id, signature);
    lemma_with_signature(entries, entry);
    lemma_has_signer(entries, id);
    lemma_has_signer(entries, other);
    let after = with_signature(entries, id, signature);
    lemma_has_signer(after, id);
    lemma_has_signer(after, other);
    assert(after.contains(entry));
    if other != id {
        assert forall|s: Signature| #[trigger] after.contains((other, s)) <==> entries.contains(
            (other, s),
        ) by {
            assert((other, s).0 != entry.0);
        }
        assert((exists|s: Signature| after.contains((other, s))) <==> exists|s: Signature|
            entries.contains((other, s))) by {
            if exists|s: Signature| entries.contains((other, s)) {
                let s = choose|s: Signature| entries.contains((other, s));
                assert(after.contains((other, s)));
            }
        }
    }
    assert forall|b: Seq<(SignerID, Signature)>| #[trigger]
        same_entries(entries, b) <==> (forall|i: SignerID, s: Signature| #[trigger]
            entries.contains((i, s)) <==> b.contains((i, s))) by {
        if forall|i: SignerID, s: Signature| #[trigger]
            entries.contains((i, s)) <==> b.contains((i, s)) {
            assert forall|entry: (SignerID, Signature)| #[trigger]
                entries.contains(entry) <==> b.contains(entry) by {
                assert(entry == (entry.0, entry.1));
                assert(entries.contains((entry.0, entry.1)) <==> b.contains((entry.0, entry.1)));
            }
        }
    }
}

proof fn lemma_has_signer(entries: Seq<(SignerID, Signature)>, id: SignerID)
    ensures
        has_signer(entries, id) <==> exists|s: Signature| entries.contains((id, s)),
{
    if has_signer(entries, id) {
        let i = choose|i: int| 0 <= i < entries.len() && (#[trigger] entries[i]).0 == id;
        assert(entries[i] == (id, entries[i].1));
        assert(entries.contains((id, entries[i].1)));
    }
}

/// Signatures by signer. Its view is the entries in the order in which the signers came; no
/// signer has two.
#[derive(Debug)]
pub struct SignatureMap {
    entries: Vec<(SignerID, Signature)>,
}

impl View for SignatureMap {
    type V = Seq<(SignerID, Signature)>;

    closed spec fn view(&self) -> Seq<(SignerID, Signature)> {
        self.entries@
    }
}

impl Clone for SignatureMap {
    fn clone(&self) -> (copy: Self)
        ensures
            copy@ == self@,
    {
        proof {
            use_type_invariant(self);
        }
        let mut entries: Vec<(SignerID, Signature)> = Vec::new();
        let mut i: usize = 0;
        while i < self.entries.len()
            invariant
                i <= self.entries.len(),
                entries@ == self.entries@.take(i as int),
            decreases self.entries.len() - i,
        {
            entries.push(self.entries[i]);
            i = i + 1;
        }
        assert(entries@ =~= self.entries@);
        SignatureMap { entries }
    }
}

/// Two maps are equal if they hold the same signatures of the same signers.
impl PartialEq for SignatureMap {
    fn eq(&self, other: &Self) -> (same: bool) {
        let holds = self.holds_all_of(other);
        let held = other.holds_all_of(self);
        holds && held
    }
}

impl vstd::std_specs::cmp::PartialEqSpecImpl for SignatureMap {
    open spec fn obeys_eq_spec() -> bool {
        true
    }

    open spec fn eq_spec(&self, other: &Self) -> bool {
        same_entries(self@, other@)
    }
}

impl SignatureMap {
    /// No signer has two signatures.
    #[verifier::type_invariant]
    pub open spec fn one_signature_each(self) -> bool {
        signers_distinct(self@)
    }

    /// The map without entries.
    pub fn new() -> (map: SignatureMap)
        ensures
            map@ == Seq::<(SignerID, Signature)>::empty(),
    {
        SignatureMap { entries: Vec::new() }
    }

    fn holds(&self, id: &SignerID, signature: &Signature) -> (found: bool)
        ensures
            found == self@.contains((*id, *signature)),
    {
        let mut i: usize = 0;
        while i < self.entries.len()
            invariant
                i <= self.entries.len(),
                forall|j: int| 0 <= j < i ==> #[trigger] self.entries@[j] != (*id, *signature),
            decreases self.entries.len() - i,
        {
            if self.entries[i].0 == *id && self.entries[i].1 == *signature {
                assert(self@[i as int] == (*id, *signature));
                return true;
            }
            i = i + 1;
        }
        false
    }

    fn holds_all_of(&self, other: &Self) -> (all: bool)
        ensures
            all == (forall|entry: (SignerID, Signature)| #[trigger]
                other@.contains(entry) ==> self@.contains(entry)),
    {
        let mut i: usize = 0;
        while i < other.entries.len()
            invariant
                i <= other.entries.len(),
                forall|j: int| 0 <= j < i ==> self@.contains(#[trigger] other@[j]),
                other@ == other.entries@,
            decreases other.entries.len() - i,
        {
            if !self.holds(&other.entries[i].0, &other.entries[i].1) {
                assert(other@.contains(other@[i as int]));
                return false;
            }
            i = i + 1;
        }
        true
    }

    /// The number of signers with a signature.
    pub fn len(&self) -> (len: usize)
        ensures
            len == self@.len(),
    {
        self.entries.len()
    }

    /// Whether the signer has a signature.
    pub fn contains_key(&self, id: &SignerID) -> (found: bool)
        ensures
            found == has_signer(self@, *id),
            found <==> exists|i: int| 0 <= i < self@.len() && (#[trigger] self@[i]).0 == *id,
    {
        let mut i: usize = 0;
        while i < self.entries.len()
            invariant
                i <= self.entries.len(),
                forall|j: int| 0 <= j < i ==> (#[trigger] self.entries@[j]).0 != *id,
            decreases self.entries.len() - i,
        {
            if self.entries[i].0 == *id {
                assert(self@[i as int].0 == *id);
                return true;
            }
            i = i + 1;
        }
        false
    }

    /// Enters the signature of a signer, in the place of an earlier one if there is one.
    pub fn insert(&mut self, id: SignerID, signature: Signature)
        ensures
            final(self)@ == with_signature(old(self)@, id, signature),
            final(self)@.contains((id, signature)),
            !has_signer(old(self)@, id) ==> final(self)@ == old(self)@.push((id, signature)),
            has_signer(old(self)@, id) ==> final(self)@.len() == old(self)@.len(),
            forall|i: int|
                0 <= i < old(self)@.len() && (#[trigger] old(self)@[i]).0 != id ==> final(self)@[i]
                    == old(self)@[i],
            signers_distinct(final(self)@),
    {
        proof {
            use_type_invariant(&*self);
        }
        let ghost before = self.entries@;
        let known = self.contains_key(&id);
        let mut entries: Vec<(SignerID, Signature)> = Vec::new();
        let mut i: usize = 0;
        while i < self.entries.len()
            invariant
                i <= self.entries.len(),
                self.entries@ == before,
                entries.len() == i,
                forall|j: int|
                    0 <= j < i ==> #[trigger] entries@[j] == (if before[j].0 == id {
                        (id, signature)
                    } else {
                        before[j]
                    }),
            decreases self.entries.len() - i,
        {
            if self.entries[i].0 == id {
                entries.push((id, signature));
            } else {
                entries.push(self.entries[i]);
            }
            i = i + 1;
        }
        if !known {
            entries.push((id, signature));
        }
        assert(entries@ =~= with_signature(before, id, signature));
        assert forall|i: int, j: int| 0 <= i < j < entries@.len() implies (
        #[trigger] entries@[i]).0 != (#[trigger] entries@[j]).0 by {
            if j < before.len() {
                assert(before[i].0 != before[j].0);
            }
        }
        proof {
            lemma_with_signature(before, (id, signature));
        }
        self.entries = entries;
    }

    /// The signatures, in the order in which their signers came.
    pub fn values(&self) -> (signatures: Vec<Signature>)
        ensures
            signatures@ == signatures_of(self@),
            signatures@.len() == self@.len(),
            forall|i: int| 0 <= i < self@.len() ==> #[trigger] signatures@[i] == self@[i].1,
    {
        let mut signatures: Vec<Signature> = Vec::new();
        let mut i: usize = 0;
        while i < self.entries.len()
            invariant
                i <= self.entries.len(),
                signatures.len() == i,
                forall|j: int| 0 <= j < i ==> #[trigger] signatures@[j] == self.entries@[j].1,
            decreases self.entries.len() - i,
        {
            signatures.push(self.entries[i].1);
            i = i + 1;
        }
        assert(signatures@ =~= signatures_of(self@));
        signatures
    }
}

/// Two maps are equal exactly if each signer has the same signature in both, or in neither.
pub proof fn law_equality_is_of_all_entries(a: SignatureMap, b: SignatureMap)
    ensures
        SignatureMap::obeys_eq_spec(),
        a.eq_spec(&b) <==> forall|id: SignerID, signature: Signature| #[trigger]
            a@.contains((id, signature)) <==> b@.contains((id, signature)),
{
    let id = arbitrary::<SignerID>();
    let signature = arbitrary::<Signature>();
    law_entered_signature_is_found(a@, id, signature, id, signature);
}

} // verus!
