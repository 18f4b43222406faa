//! A set of unspent outputs, keyed by the outpoint that names each.
use vstd::prelude::*;
use crate::transparent::{OrderedUtxo, OrderedUtxoView, OutPoint};

verus! {

/// The view of one entry of a [`UtxoSet`].
pub type UtxoEntryView = (OutPoint, OrderedUtxoView);

/// The views of a run of entries.
pub open spec fn entries_view(entries: Seq<(OutPoint, OrderedUtxo)>) -> Seq<UtxoEntryView> {
    Seq::new(entries.len(), |i: int| (entries[i].0, entries[i].1@))
}

/// Whether no outpoint names two entries.
pub open spec fn spec_distinct(entries: Seq<UtxoEntryView>) -> bool {
    forall|i: int, j: int|
        0 <= i < entries.len() && 0 <= j < entries.len() && i != j ==> entries[i].0 != entries[j].0
}

/// Whether some entry is named by `outpoint`.
pub open spec fn spec_contains(entries: Seq<UtxoEntryView>, outpoint: OutPoint) -> bool {
    exists|i: int| 0 <= i < entries.len() && entries[i].0 == outpoint
}

/// The unspent output that `outpoint` names, if any.
pub open spec fn spec_get(entries: Seq<UtxoEntryView>, outpoint: OutPoint) -> Option<
    OrderedUtxoView,
> {
    if spec_contains(entries, outpoint) {
        Some(entries[choose|i: int| 0 <= i < entries.len() && entries[i].0 == outpoint].1)
    } else {
        None
    }
}

/// Where nothing is named twice, an entry is what its outpoint names.
pub proof fn lemma_get_entry(entries: Seq<UtxoEntryView>, i: int)
    requires
        spec_distinct(entries),
        0 <= i < entries.len(),
    ensures
        spec_contains(entries, entries[i].0),
        spec_get(entries, entries[i].0) == Some(entries[i].1),
{
}

/// Unspent outputs by outpoint: no outpoint names two of them.
///
/// The view is the run of entries in the order in which they were inserted.
#[derive(Debug, PartialEq, Eq)]
pub struct UtxoSet {
    entries: Vec<(OutPoint, OrderedUtxo)>,
}

impl View for UtxoSet {
    type V = Seq<UtxoEntryView>;

    closed spec fn view(&self) -> Seq<UtxoEntryView> {
        entries_view(self.entries@)
    }
}

impl Clone for UtxoSet {
    fn clone(&self) -> (r: Self)
        ensures
            r@ == self@,
    {
        proof {
            use_type_invariant(self);
        }
        let mut entries: Vec<(OutPoint, OrderedUtxo)> = Vec::new();
        let mut i: usize = 0;
        while i < self.entries.len()
            invariant
                i <= self.entries.len(),
                entries.len() == i,
                forall|j: int|
                    0 <= j < i ==> entries@[j].0 == self.entries@[j].0 && entries@[j].1@
                        == self.entries@[j].1@,
            decreases self.entries.len() - i,
        {
            entries.push((self.entries[i].0, self.entries[i].1.clone()));
            i = i + 1;
        }
        assert(entries_view(entries@) =~= entries_view(self.entries@));
        UtxoSet { entries }
    }
}

impl UtxoSet {
    #[verifier::type_invariant]
    spec fn wf(self) -> bool {
        spec_distinct(entries_view(self.entries@))
    }

    /// The set that holds nothing.
    pub fn new() -> (r: UtxoSet)
        ensures
            r@ == Seq::<UtxoEntryView>::empty(),
    {
        let r = UtxoSet { entries: Vec::new() };
        assert(r@ =~= Seq::<UtxoEntryView>::empty());
        r
    }

    /// The number of unspent outputs in the set. No outpoint names two of
    /// them.
    pub fn len(&self) -> (r: usize)
        ensures
            r == self@.len(),
            spec_distinct(self@),
    {
        proof {
            use_type_invariant(self);
        }
        self.entries.len()
    }

    /// Where `outpoint` stands in the entries, if it names one.
    fn position(&self, outpoint: &OutPoint) -> (r: Option<usize>)
        ensures
            match r {
                Some(i) => i < self@.len() && self@[i as int].0 == *outpoint,
                None => !spec_contains(self@, *outpoint),
            },
    {
        let mut i: usize = 0;
        while i < self.entries.len()
            invariant
                i <= self.entries.len(),
                forall|j: int| 0 <= j < i ==> self.entries@[j].0 != *outpoint,
            decreases self.entries.len() - i,
        {
            if self.entries[i].0.same(outpoint) {
                return Some(i);
            }
            i = i + 1;
        }
        None
    }

    /// The unspent output that `outpoint` names, if the set holds one.
    pub fn get(&self, outpoint: &OutPoint) -> (r: Option<&OrderedUtxo>)
        ensures
            match r {
                Some(utxo) => spec_get(self@, *outpoint) == Some(utxo@),
                None => spec_get(self@, *outpoint) is None,
            },
    {
        proof {
            use_type_invariant(self);
        }
        match self.position(outpoint) {
            Some(i) => {
                proof {
                    lemma_get_entry(self@, i as int);
                }
                Some(&self.entries[i].1)
            },
            None => None,
        }
    }

    /// Whether `outpoint` names an unspent output of the set.
    pub fn contains(&self, outpoint: &OutPoint) -> (r: bool)
        ensures
            r == spec_contains(self@, *outpoint),
    {
        self.position(outpoint).is_some()
    }

    /// Puts `utxo` under `outpoint`, in place of what `outpoint` named before
    /// if it named anything, else as the last entry. Returns what it named
    /// before.
    pub fn insert(&mut self, outpoint: OutPoint, utxo: OrderedUtxo) -> (r: Option<OrderedUtxo>)
        ensures
            match r {
                Some(before) => spec_get(old(self)@, outpoint) == Some(before@),
                None => spec_get(old(self)@, outpoint) is None,
            },
            spec_get(final(self)@, outpoint) == Some(utxo@),
            forall|other: OutPoint|
                other != outpoint ==> spec_get(final(self)@, other) == spec_get(old(self)@, other),
            final(self)@.len() == old(self)@.len() + (if spec_contains(old(self)@, outpoint) {
                0int
            } else {
                1int
            }),
    {
        proof {
            use_type_invariant(&*self);
        }
        let found = self.position(&outpoint);
        let ghost before = self@;
        let ghost utxo_view = utxo@;
        match found {
            Some(i) => {
                let mut entries: Vec<(OutPoint, OrderedUtxo)> = Vec::new();
                core::mem::swap(&mut entries, &mut self.entries);
                entries.push((outpoint, utxo));
                let old_entry = entries.swap_remove(i);
                proof {
                    let after = entries_view(entries@);
                    assert(after =~= before.update(i as int, (outpoint, utxo_view)));
                    lemma_get_entry(before, i as int);
                    lemma_update_same_key(before, i as int, utxo_view);
                }
                self.entries = entries;
                Some(old_entry.1)
            },
            None => {
                let mut entries: Vec<(OutPoint, OrderedUtxo)> = Vec::new();
                core::mem::swap(&mut entries, &mut self.entries);
                entries.push((outpoint, utxo));
                proof {
                    let after = entries_view(entries@);
                    assert(after =~= before.push((outpoint, utxo_view)));
                    lemma_push_new_key(before, outpoint, utxo_view);
                }
                self.entries = entries;
                None
            },
        }
    }

    /// Takes out what `outpoint` names and returns it, if it names anything.
    pub fn remove(&mut self, outpoint: &OutPoint) -> (r: Option<OrderedUtxo>)
        ensures
            match r {
                Some(before) => spec_get(old(self)@, *outpoint) == Some(before@),
                None => spec_get(old(self)@, *outpoint) is None,
            },
            spec_get(final(self)@, *outpoint) is None,
            forall|other: OutPoint|
                other != *outpoint ==> spec_get(final(self)@, other) == spec_get(
                    old(self)@,
                    other,
                ),
            final(self)@.len() == old(self)@.len() - (if spec_contains(old(self)@, *outpoint) {
                1int
            } else {
                0int
            }),
    {
        proof {
            use_type_invariant(&*self);
        }
        let found = self.position(outpoint);
        let ghost before = self@;
        match found {
            Some(i) => {
                let mut entries: Vec<(OutPoint, OrderedUtxo)> = Vec::new();
                core::mem::swap(&mut entries, &mut self.entries);
                let old_entry = entries.remove(i);
                proof {
                    let after = entries_view(entries@);
                    assert(after =~= before.remove(i as int));
                    lemma_get_entry(before, i as int);
                    lemma_remove_key(before, i as int);
                }
                self.entries = entries;
                Some(old_entry.1)
            },
            None => None,
        }
    }
}

/// Replacing what an outpoint names changes what that outpoint names and
/// nothing else.
pub proof fn lemma_update_same_key(entries: Seq<UtxoEntryView>, i: int, utxo: OrderedUtxoView)
    requires
        spec_distinct(entries),
        0 <= i < entries.len(),
    ensures
        spec_distinct(entries.update(i, (entries[i].0, utxo))),
        spec_get(entries.update(i, (entries[i].0, utxo)), entries[i].0) == Some(utxo),
        forall|other: OutPoint|
            other != entries[i].0 ==> spec_get(entries.update(i, (entries[i].0, utxo)), other)
                == spec_get(entries, other),
{
    let key = entries[i].0;
    let after = entries.update(i, (key, utxo));
    assert(spec_distinct(after));
    lemma_get_entry(after, i);
    assert forall|other: OutPoint| other != key implies spec_get(after, other) == spec_get(
        entries,
        other,
    ) by {
        if spec_contains(entries, other) {
            let j = choose|j: int| 0 <= j < entries.len() && entries[j].0 == other;
            assert(after[j] == entries[j]);
            lemma_get_entry(after, j);
            lemma_get_entry(entries, j);
        } else {
            if spec_contains(after, other) {
                let j = choose|j: int| 0 <= j < after.len() && after[j].0 == other;
                assert(entries[j].0 == other);
            }
        }
    }
}

/// A new entry under an outpoint that named nothing changes what that
/// outpoint names and nothing else.
pub proof fn lemma_push_new_key(entries: Seq<UtxoEntryView>, key: OutPoint, utxo: OrderedUtxoView)
    requires
        spec_distinct(entries),
        !spec_contains(entries, key),
    ensures
        spec_distinct(entries.push((key, utxo))),
        spec_get(entries.push((key, utxo)), key) == Some(utxo),
        forall|other: OutPoint|
            other != key ==> spec_get(entries.push((key, utxo)), other) == spec_get(entries, other),
{
    let after = entries.push((key, utxo));
    assert(spec_distinct(after)) by {
        assert forall|a: int, b: int|
            0 <= a < after.len() && 0 <= b < after.len() && a != b implies after[a].0
            != after[b].0 by {
            if a < entries.len() {
                assert(after[a] == entries[a]);
            }
            if b < entries.len() {
                assert(after[b] == entries[b]);
            }
        }
    }
    lemma_get_entry(after, entries.len() as int);
    assert forall|other: OutPoint| other != key implies spec_get(after, other) == spec_get(
        entries,
        other,
    ) by {
        if spec_contains(entries, other) {
            let j = choose|j: int| 0 <= j < entries.len() && entries[j].0 == other;
            assert(after[j] == entries[j]);
            lemma_get_entry(after, j);
            lemma_get_entry(entries, j);
        } else {
            if spec_contains(after, other) {
                let j = choose|j: int| 0 <= j < after.len() && after[j].0 == other;
                assert(entries[j].0 == other);
            }
        }
    }
}

/// Taking an entry out changes what its outpoint names and nothing else.
pub proof fn lemma_remove_key(entries: Seq<UtxoEntryView>, i: int)
    requires
        spec_distinct(entries),
        0 <= i < entries.len(),
    ensures
        spec_distinct(entries.remove(i)),
        spec_get(entries.remove(i), entries[i].0) is None,
        forall|other: OutPoint|
            other != entries[i].0 ==> spec_get(entries.remove(i), other) == spec_get(
                entries,
                other,
            ),
{
    let key = entries[i].0;
    let after = entries.remove(i);
    assert forall|a: int| 0 <= a < after.len() implies after[a] == entries[if a < i {
        a
    } else {
        a + 1
    }] by {}
    assert(spec_distinct(after));
    assert(!spec_contains(after, key));
    assert forall|other: OutPoint| other != key implies spec_get(after, other) == spec_get(
        entries,
        other,
    ) by {
        if spec_contains(entries, other) {
            let j = choose|j: int| 0 <= j < entries.len() && entries[j].0 == other;
            let a = if j < i {
                j
            } else {
                j - 1
            };
            assert(after[a] == entries[j]);
            lemma_get_entry(after, a);
            lemma_get_entry(entries, j);
        } else {
            if spec_contains(after, other) {
                let a = choose|a: int| 0 <= a < after.len() && after[a].0 == other;
                let j = if a < i {
                    a
                } else {
                    a + 1
                };
                assert(entries[j].0 == other);
            }
        }
    }
}

} // verus!
