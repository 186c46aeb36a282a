//! Identifiers and the generator that issues them.

use vstd::prelude::*;

use core::marker::PhantomData;

verus! {

/// An opaque, copyable identifier naming one stored value, tagged with the
/// type of the value it addresses so that identifiers of unrelated value
/// types cannot be interchanged.
///
/// Two identifiers are equal exactly when they were issued at the same
/// position of a generator's sequence; within the lifetime of one generator
/// the issued identifiers are pairwise distinct.
#[derive(Debug, Hash)]
pub struct Key<T> {
    number: usize,
    tag: PhantomData<T>,
}

impl<T> View for Key<T> {
    type V = nat;

    /// The position in the generator sequence at which this key was issued.
    closed spec fn view(&self) -> nat {
        self.number as nat
    }
}

impl<T> Key<T> {
    /// The key at a given sequence position; only the container and the
    /// generator fabricate keys.
    pub(crate) fn from_number(number: usize) -> (k: Self)
        ensures
            k@ == number,
    {
        Key { number, tag: PhantomData }
    }

    /// The sequence position, for table lookups inside the crate.
    pub(crate) fn number(&self) -> (n: usize)
        ensures
            n == self@,
    {
        self.number
    }
}

impl<T> Clone for Key<T> {
    fn clone(&self) -> (k: Self)
        ensures
            k == *self,
    {
        Key { number: self.number, tag: PhantomData }
    }
}

impl<T> Copy for Key<T> {

}

impl<T> PartialEq for Key<T> {
    fn eq(&self, other: &Key<T>) -> (r: bool) {
        self.number == other.number
    }
}

impl<T> vstd::std_specs::cmp::PartialEqSpecImpl for Key<T> {
    open spec fn obeys_eq_spec() -> bool {
        true
    }

    open spec fn eq_spec(&self, other: &Key<T>) -> bool {
        self@ == other@
    }
}

impl<T> Eq for Key<T> {

}

/// Two keys addressing the same value type are equal exactly when their
/// sequence positions agree.
pub proof fn lemma_key_eq<T>(k1: Key<T>, k2: Key<T>)
    ensures
        (k1 == k2) <==> (k1@ == k2@),
{
    if k1@ == k2@ {
        assert(k1.number == k2.number);
        assert(k1.tag == k2.tag);
    }
}

/// Issues identifiers for values of type `T`: each call to [`KeyGen::next`]
/// returns a key never returned before by this generator, and the issued
/// positions grow by one with every call.
pub struct KeyGen<T> {
    next_number: usize,
    tag: PhantomData<T>,
}

impl<T> View for KeyGen<T> {
    type V = nat;

    /// The position the next issued key will carry.
    closed spec fn view(&self) -> nat {
        self.next_number as nat
    }
}

impl<T> KeyGen<T> {
    /// A fresh generator, whose first key has position zero.
    pub fn new() -> (g: Self)
        ensures
            g@ == 0,
    {
        KeyGen { next_number: 0, tag: PhantomData }
    }

    /// Issues the next identifier: its position is the generator's current
    /// one, and the generator advances, so no two calls return equal keys.
    pub fn next(&mut self) -> (k: Key<T>)
        requires
            old(self)@ < usize::MAX,
        ensures
            k@ == old(self)@,
            final(self)@ == old(self)@ + 1,
    {
        let k = Key::from_number(self.next_number);
        self.next_number = self.next_number + 1;
        k
    }
}

} // verus!
