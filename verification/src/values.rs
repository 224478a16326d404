//! The multi-value container: an insertion-order-preserving collection of
//! canonical value entries kept under one header name.

use vstd::prelude::*;

use crate::value::{texts_of, FieldValue};

verus! {

/// An ordered collection of canonical value entries. Its view is the sequence
/// of the entries' texts, in insertion order.
pub struct HeaderValues {
    entries: Vec<FieldValue>,
}

impl View for HeaderValues {
    type V = Seq<Seq<char>>;

    closed spec fn view(&self) -> Seq<Seq<char>> {
        texts_of(self.entries@)
    }
}

impl HeaderValues {
    /// An empty collection.
    pub fn new() -> (r: HeaderValues)
        ensures
            r@ == Seq::<Seq<char>>::empty(),
    {
        let r = HeaderValues { entries: Vec::new() };
        proof {
            assert(r@ =~= Seq::<Seq<char>>::empty());
        }
        r
    }

    /// Appends one entry, keeping insertion order.
    pub fn append(&mut self, value: FieldValue)
        ensures
            final(self)@ == old(self)@.push(value@),
    {
        self.entries.push(value);
        proof {
            assert(self@ =~= old(self)@.push(value@));
        }
    }

    /// The number of entries held.
    pub fn len(&self) -> (n: usize)
        ensures
            n == self@.len(),
    {
        self.entries.len()
    }

    /// Borrows the entry at a position.
    pub fn get(&self, i: usize) -> (r: &FieldValue)
        requires
            i < self@.len(),
        ensures
            r@ == self@[i as int],
    {
        &self.entries[i]
    }

    /// Borrows the entries as a slice, in insertion order.
    pub fn as_slice(&self) -> (r: &[FieldValue])
        ensures
            texts_of(r@) == self@,
    {
        self.entries.as_slice()
    }
}

} // verus!
