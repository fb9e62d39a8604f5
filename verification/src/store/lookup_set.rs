//! A set held in contract storage, of which only membership can be asked.

use vstd::prelude::*;

verus! {

/// A set whose elements live in contract storage under keys that start with
/// `prefix`. Elements are written lazily: each put is recorded here, in
/// order, until the recorded writes are taken out to be flushed to storage.
pub struct LookupSet<T> {
    prefix: Vec<u8>,
    writes: Vec<T>,
}

impl<T> View for LookupSet<T> {
    type V = Set<T>;

    /// The elements put into the set through this handle since its writes
    /// were last taken out.
    closed spec fn view(&self) -> Set<T> {
        self.writes@.to_set()
    }
}

impl<T> LookupSet<T> {
    /// The storage key prefix of the set.
    pub closed spec fn spec_prefix(&self) -> Seq<u8> {
        self.prefix@
    }

    /// The puts recorded so far, oldest first.
    pub closed spec fn pending(&self) -> Seq<T> {
        self.writes@
    }

    /// A set under `prefix` with no writes recorded.
    pub fn new(prefix: Vec<u8>) -> (s: LookupSet<T>)
        ensures
            s@ == Set::<T>::empty(),
            s.pending() == Seq::<T>::empty(),
            s.spec_prefix() == prefix@,
    {
        LookupSet { prefix, writes: Vec::new() }
    }

    /// The storage key prefix of the set.
    pub fn prefix(&self) -> (p: &[u8])
        ensures
            p@ == self.spec_prefix(),
    {
        self.prefix.as_slice()
    }

    /// Takes out the recorded writes, oldest first, to be flushed to storage;
    /// none stay recorded.
    pub fn take_writes(&mut self) -> (w: Vec<T>)
        ensures
            w@ == old(self).pending(),
            final(self).pending() == Seq::<T>::empty(),
            final(self)@ == Set::<T>::empty(),
            final(self).spec_prefix() == old(self).spec_prefix(),
    {
        let mut w: Vec<T> = Vec::new();
        std::mem::swap(&mut w, &mut self.writes);
        w
    }

    /// Puts `value` into the set.
    pub fn put(&mut self, value: T)
        ensures
            final(self)@ == old(self)@.insert(value),
            final(self).pending() == old(self).pending().push(value),
            final(self).spec_prefix() == old(self).spec_prefix(),
    {
        self.writes.push(value);
        proof {
            assert(self.writes@.to_set() =~= old(self).writes@.to_set().insert(value)) by {
                broadcast use vstd::seq_lib::group_seq_properties;
            }
        }
    }

    /// Puts every element of `iter` into the set, in order.
    pub fn extend(&mut self, iter: Vec<T>)
        ensures
            final(self)@ == old(self)@.union(iter@.to_set()),
            final(self).pending() == old(self).pending() + iter@,
            final(self).spec_prefix() == old(self).spec_prefix(),
    {
        let ghost items = iter@;
        for elem in it: iter
            invariant
                it.seq() == items,
                self.pending() == old(self).pending() + items.take(it.index() as int),
                self.spec_prefix() == old(self).spec_prefix(),
        {
            proof {
                assert(items.take(it.index() + 1) =~= items.take(it.index() as int).push(elem));
            }
            self.put(elem);
        }
        proof {
            assert(items.take(items.len() as int) =~= items);
            broadcast use vstd::seq_lib::group_seq_properties;
            assert(self.writes@.to_set() =~= old(self).writes@.to_set().union(items.to_set()));
        }
    }
}

/// Extending a set with `a` and then with `b` leaves it as extending it once
/// with `a` followed by `b` does: the same elements and the same puts, in the
/// same order.
pub proof fn lemma_extend_twice<T>(elements: Set<T>, pending: Seq<T>, a: Seq<T>, b: Seq<T>)
    ensures
        elements.union(a.to_set()).union(b.to_set()) == elements.union((a + b).to_set()),
        (pending + a) + b == pending + (a + b),
{
    broadcast use vstd::seq_lib::group_seq_properties;
    assert(elements.union(a.to_set()).union(b.to_set()) =~= elements.union((a + b).to_set()));
    assert((pending + a) + b =~= pending + (a + b));
}

/// Extending a set with elements it already holds leaves its elements as
/// they were; in particular, extending twice with the same elements gives the
/// elements that extending once gives.
pub proof fn lemma_extend_with_members<T>(elements: Set<T>, items: Seq<T>)
    ensures
        items.to_set().subset_of(elements) ==> elements.union(items.to_set()) == elements,
        elements.union(items.to_set()).union(items.to_set()) == elements.union(items.to_set()),
{
    assert(items.to_set().subset_of(elements) ==> elements.union(items.to_set()) =~= elements);
    assert(elements.union(items.to_set()).union(items.to_set()) =~= elements.union(items.to_set()));
}

} // verus!
