//! The storage container and the handles it issues.

use vstd::prelude::*;

use crate::key_gen::{Key, KeyGen};

verus! {

/// A cheap-to-duplicate handle naming one value stored in an [`OwnedData`]
/// table. Cloning a handle yields an equal handle addressing the same entry,
/// so a write through one clone is read back through every other.
#[derive(Debug)]
pub struct Ref<T> {
    key: Key<T>,
}

impl<T> View for Ref<T> {
    type V = nat;

    /// The position of the table entry this handle addresses.
    closed spec fn view(&self) -> nat {
        self.key@
    }
}

impl<T> Ref<T> {
    /// A handle for the entry named by `key`; only the container resolves
    /// keys to handles.
    pub fn new(key: Key<T>) -> (r: Self)
        ensures
            r@ == key@,
    {
        Ref { key }
    }

    /// Reads the entry this handle addresses.
    pub fn read<'a>(&self, table: &'a OwnedData<T>) -> (v: &'a T)
        requires
            self@ < table@.len(),
        ensures
            *v == table@[self@ as int],
    {
        &table.data[self.key.number()]
    }

    /// Overwrites the entry this handle addresses; every other handle with
    /// the same key reads the new value afterwards.
    pub fn write(&self, table: &mut OwnedData<T>, value: T)
        requires
            self@ < old(table)@.len(),
        ensures
            final(table)@ == old(table)@.update(self@ as int, value),
            old(table).wf() ==> final(table).wf(),
    {
        table.data.set(self.key.number(), value);
    }
}

impl<T> Clone for Ref<T> {
    fn clone(&self) -> (r: Self)
        ensures
            r == *self,
    {
        Ref { key: self.key }
    }
}

/// A table of values of type `T`, keyed by the identifiers its own generator
/// issued: the entry inserted by the `n`-th call to [`OwnedData::add`] sits
/// at position `n`, and no entry is ever removed.
pub struct OwnedData<T> {
    key_gen: KeyGen<T>,
    data: Vec<T>,
}

impl<T> View for OwnedData<T> {
    type V = Seq<T>;

    /// The stored values, in order of insertion.
    closed spec fn view(&self) -> Seq<T> {
        self.data@
    }
}

impl<T> OwnedData<T> {
    /// The generator's position agrees with the table's size, so the next
    /// issued key names the next free slot.
    pub closed spec fn wf(&self) -> bool {
        self.key_gen@ == self.data@.len()
    }

    /// An empty container with a fresh generator.
    pub fn new() -> (d: Self)
        ensures
            d.wf(),
            d@ == Seq::<T>::empty(),
    {
        OwnedData { key_gen: KeyGen::new(), data: Vec::new() }
    }

    /// How many entries the table holds.
    pub fn len(&self) -> (n: usize)
        ensures
            n == self@.len(),
    {
        self.data.len()
    }

    /// Every identifier the table currently tracks: the keys at positions
    /// `0` up to `len()`, each exactly once.
    pub fn keys(&self) -> (ks: Vec<Key<T>>)
        ensures
            ks@.len() == self@.len(),
            forall|i: int| 0 <= i < ks@.len() ==> #[trigger] ks@[i]@ == i,
    {
        let mut ks: Vec<Key<T>> = Vec::new();
        let mut i: usize = 0;
        while i < self.data.len()
            invariant
                i <= self.data@.len(),
                ks@.len() == i,
                forall|j: int| 0 <= j < i ==> #[trigger] ks@[j]@ == j,
            decreases self.data@.len() - i,
        {
            ks.push(Key::from_number(i));
            i = i + 1;
        }
        ks
    }

    /// Inserts a value: the fresh key names the new entry, the older entries
    /// are untouched, and the table grows by one.
    pub fn add(&mut self, value: T) -> (k: Key<T>)
        requires
            old(self).wf(),
            old(self)@.len() < usize::MAX,
        ensures
            final(self).wf(),
            k@ == old(self)@.len(),
            final(self)@ == old(self)@.push(value),
    {
        let k = self.key_gen.next();
        self.data.push(value);
        k
    }

    /// Resolves a key to a handle: a handle addressing the key's entry when
    /// the table holds one, and nothing otherwise — a miss is an expected
    /// outcome, not a fault.
    pub fn get(&self, key: Key<T>) -> (r: Option<Ref<T>>)
        ensures
            key@ < self@.len() ==> (r matches Some(h) && h@ == key@),
            key@ >= self@.len() ==> r is None,
    {
        if key.number() < self.data.len() {
            Some(Ref::new(key))
        } else {
            None
        }
    }
}

/// Identifiers issued by a run of insertions are pairwise distinct: each
/// insertion returns the key whose position equals the table's size at that
/// moment, and the size grows by one with every insertion, so the positions
/// in `ks` climb one by one from `start` and no two keys coincide.
pub proof fn lemma_issued_keys_distinct<T>(ks: Seq<Key<T>>, start: nat)
    requires
        forall|i: int| 0 <= i < ks.len() ==> #[trigger] ks[i]@ == start + i,
    ensures
        forall|i: int, j: int|
            0 <= i < ks.len() && 0 <= j < ks.len() && i != j ==> ks[i] != ks[j],
{
    assert forall|i: int, j: int|
        0 <= i < ks.len() && 0 <= j < ks.len() && i != j implies ks[i] != ks[j] by {
        assert(ks[i]@ == start + i);
        assert(ks[j]@ == start + j);
    };
}

/// An immediate lookup of a fresh insertion reads the inserted value back:
/// `add` leaves the table with the value appended and returns the key naming
/// the appended slot, so `get` on that key succeeds and the handle reads the
/// value.
pub proof fn lemma_get_after_add<T>(before: OwnedData<T>, after: OwnedData<T>, k: Key<T>, value: T)
    requires
        after@ == before@.push(value),
        k@ == before@.len(),
    ensures
        k@ < after@.len(),
        after@[k@ as int] == value,
{
}

/// Shared-aliasing law: cloning a handle yields an equal handle addressing
/// the same entry, so after a write through one handle, a read through the
/// clone returns the written value.
pub proof fn lemma_write_read_by_clone<T>(
    h1: Ref<T>,
    h2: Ref<T>,
    before: OwnedData<T>,
    after: OwnedData<T>,
    value: T,
)
    requires
        h2 == h1,
        h1@ < before@.len(),
        after@ == before@.update(h1@ as int, value),
    ensures
        h2@ < after@.len(),
        after@[h2@ as int] == value,
{
}

/// `keys` lists exactly the identifiers the insertions so far have produced:
/// a key appears in the listing exactly when its position is below the
/// table's size, whatever the order of the listing.
pub proof fn lemma_keys_exactly_issued<T>(ks: Seq<Key<T>>, n: nat)
    requires
        ks.len() == n,
        forall|i: int| 0 <= i < n ==> #[trigger] ks[i]@ == i,
    ensures
        forall|k: Key<T>| #[trigger] ks.contains(k) <==> k@ < n,
{
    assert forall|k: Key<T>| k@ < n implies #[trigger] ks.contains(k) by {
        let i = k@ as int;
        crate::key_gen::lemma_key_eq::<T>(ks[i], k);
        assert(ks[i] == k);
    };
    assert forall|k: Key<T>| ks.contains(k) implies k@ < n by {
        let i = choose|i: int| 0 <= i < ks.len() && ks[i] == k;
        assert(ks[i]@ == i);
    };
}

} // verus!
