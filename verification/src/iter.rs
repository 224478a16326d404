//! Pull-based sequences of canonical value entries: the lazy output form of
//! the conversion layer, and the single place where its consumers iterate.

use vstd::prelude::*;
use vstd::slice::slice_index_get;

use crate::value::{texts_of, FieldValue};

verus! {

/// A pull-based, order-preserving producer of canonical value entries.
/// `remaining` is the sequence of texts of the entries still to be yielded;
/// `next` yields the front entry and drops it from `remaining`.
pub trait HeaderValueIter {
    /// The texts of the entries still to be yielded, in order.
    spec fn remaining(&self) -> Seq<Seq<char>>;

    /// Yields the next entry, or `None` once the sequence is exhausted.
    fn next(&mut self) -> (r: Option<FieldValue>)
        ensures
            match r {
                Some(v) => old(self).remaining().len() > 0 && v@ == old(self).remaining()[0]
                    && final(self).remaining() == old(self).remaining().skip(1),
                None => old(self).remaining().len() == 0 && final(self).remaining()
                    == old(self).remaining(),
            },
    ;
}

/// The one-element sequence: wraps a single resolved or parsed entry.
/// Single-shot: it cannot be restarted once drained.
pub struct SingleValueIter {
    value: Option<FieldValue>,
}

impl SingleValueIter {
    /// Wraps one entry in a one-element sequence.
    pub fn new(value: FieldValue) -> (r: SingleValueIter)
        ensures
            r.remaining() == seq![value@],
    {
        SingleValueIter { value: Some(value) }
    }
}

impl HeaderValueIter for SingleValueIter {
    closed spec fn remaining(&self) -> Seq<Seq<char>> {
        match self.value {
            Some(v) => seq![v@],
            None => Seq::empty(),
        }
    }

    fn next(&mut self) -> (r: Option<FieldValue>) {
        let r = self.value.take();
        proof {
            if r is Some {
                let v = r->Some_0;
                assert(seq![v@].skip(1) =~= Seq::<Seq<char>>::empty());
            }
        }
        r
    }
}

/// The borrowing sequence over a slice of entries: clones each entry on
/// demand, in slice order, without consuming or mutating the source. It is
/// restartable by converting the same source again.
pub struct ClonedValuesIter<'a> {
    entries: &'a [FieldValue],
    pos: usize,
}

impl<'a> ClonedValuesIter<'a> {
    /// A sequence over all entries of a slice, front first.
    pub fn new(entries: &'a [FieldValue]) -> (r: ClonedValuesIter<'a>)
        ensures
            r.remaining() == texts_of(entries@),
    {
        let r = ClonedValuesIter { entries, pos: 0 };
        proof {
            assert(entries@.skip(0) =~= entries@);
        }
        r
    }
}

impl<'a> HeaderValueIter for ClonedValuesIter<'a> {
    closed spec fn remaining(&self) -> Seq<Seq<char>> {
        if self.pos <= self.entries@.len() {
            texts_of(self.entries@.skip(self.pos as int))
        } else {
            Seq::empty()
        }
    }

    fn next(&mut self) -> (r: Option<FieldValue>) {
        if self.pos < self.entries.len() {
            let v = slice_index_get(self.entries, self.pos).clone();
            self.pos = self.pos + 1;
            proof {
                let es = self.entries@;
                let p = (self.pos - 1) as int;
                assert(es.skip(p)[0] == es[p]);
                assert(es.skip(p + 1) =~= es.skip(p).skip(1));
                assert(texts_of(es.skip(p + 1)) =~= texts_of(es.skip(p)).skip(1));
            }
            Some(v)
        } else {
            None
        }
    }
}

/// Drains a sequence of entries into a vector, front first. Fully draining a
/// conversion's output yields exactly the resolved entries, in source order.
pub fn collect_values<I: HeaderValueIter>(mut it: I) -> (r: Vec<FieldValue>)
    ensures
        texts_of(r@) == it.remaining(),
{
    let ghost init = it.remaining();
    let mut out: Vec<FieldValue> = Vec::new();
    loop
        invariant
            texts_of(out@) + it.remaining() == init,
        ensures
            it.remaining().len() == 0,
            texts_of(out@) + it.remaining() == init,
        decreases it.remaining().len(),
    {
        let ghost rem0 = it.remaining();
        let ghost out0 = out@;
        match it.next() {
            Some(v) => {
                out.push(v);
                proof {
                    assert(texts_of(out@) =~= texts_of(out0).push(v@));
                    assert(texts_of(out0).push(v@) + rem0.skip(1) =~= texts_of(out0) + rem0);
                }
            },
            None => {
                break ;
            },
        }
    }
    proof {
        assert(texts_of(out@) =~= init);
    }
    out
}

} // verus!
