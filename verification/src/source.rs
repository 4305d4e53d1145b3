use vstd::prelude::*;

use crate::errors::KvError;

verus! {

/// Pair-Visitor capability: a sink for one key/value pair at a time.
///
/// A traversal hands the visitor every pair of a record in presentation
/// order. Each impl chooses an abstract model of itself: `accepted()` is the
/// sequence of pairs taken so far, `frame()` is whatever surrounding state one
/// traversal must leave untouched, `wf()` is the impl's own well-formedness,
/// and `reliable()` marks visitors that never reject a pair.
pub trait Visitor: Sized {
    /// The impl's well-formedness; every visit keeps it.
    spec fn wf(&self) -> bool;

    /// The pairs this visitor has accepted so far, in the order they came.
    spec fn accepted(&self) -> Seq<(Seq<char>, Seq<char>)>;

    /// Impl-chosen surrounding state that no visit may disturb.
    spec fn frame(&self) -> Seq<char>;

    /// True of visitors that accept every pair.
    spec fn reliable(&self) -> bool;

    /// Take one pair, or reject it and change nothing.
    fn visit_pair(&mut self, key: &str, value: &str) -> (r: Result<(), KvError>)
        requires
            old(self).wf(),
        ensures
            final(self).wf(),
            final(self).frame() == old(self).frame(),
            final(self).reliable() == old(self).reliable(),
            r is Ok ==> final(self).accepted() == old(self).accepted().push((key@, value@)),
            r is Err ==> final(self).accepted() == old(self).accepted(),
            old(self).reliable() ==> r is Ok,
    ;
}

/// Field-Source capability: a read-only view over one record's structured
/// attributes.
///
/// `pairs()` is the attribute set in presentation order; `visit` drives a
/// visitor over exactly those pairs, in that order, halting at the first
/// rejection.
pub trait Source {
    /// The record's key/value pairs, in presentation order.
    spec fn pairs(&self) -> Seq<(Seq<char>, Seq<char>)>;

    /// Drive `visitor` over every pair in presentation order. The first
    /// rejection halts the traversal and is propagated; a reliable visitor is
    /// never rejected, so the traversal then takes every pair.
    fn visit<V: Visitor>(&self, visitor: &mut V) -> (r: Result<(), KvError>)
        requires
            old(visitor).wf(),
        ensures
            final(visitor).wf(),
            final(visitor).frame() == old(visitor).frame(),
            final(visitor).reliable() == old(visitor).reliable(),
            r is Ok ==> final(visitor).accepted() == old(visitor).accepted() + self.pairs(),
            r is Err ==> exists|j: int|
                0 <= j < self.pairs().len() && final(visitor).accepted() == old(
                    visitor,
                ).accepted() + self.pairs().take(j),
            old(visitor).reliable() ==> r is Ok,
    ;
}

/// A Field-Source over an owned list of pairs, kept in insertion order.
pub struct VecSource {
    items: Vec<(String, String)>,
}

impl VecSource {
    /// A source with no pairs.
    pub fn new() -> (r: VecSource)
        ensures
            r.pairs() == Seq::<(Seq<char>, Seq<char>)>::empty(),
    {
        VecSource { items: Vec::new() }
    }

    /// Attach one pair after the ones already present.
    pub fn push_pair(&mut self, key: String, value: String)
        ensures
            final(self).pairs() == old(self).pairs().push((key@, value@)),
    {
        let ghost k = key@;
        let ghost v = value@;
        self.items.push((key, value));
        assert(self.pairs() =~= old(self).pairs().push((k, v)));
    }
}

impl Source for VecSource {
    closed spec fn pairs(&self) -> Seq<(Seq<char>, Seq<char>)> {
        self.items@.map_values(|p: (String, String)| (p.0@, p.1@))
    }

    fn visit<V: Visitor>(&self, visitor: &mut V) -> (r: Result<(), KvError>) {
        let n = self.items.len();
        let mut i: usize = 0;
        while i < n
            invariant
                n == self.items.len(),
                i <= n,
                visitor.wf(),
                visitor.frame() == old(visitor).frame(),
                visitor.reliable() == old(visitor).reliable(),
                visitor.accepted() == old(visitor).accepted() + self.pairs().take(i as int),
            decreases n - i,
        {
            let pair = &self.items[i];
            match visitor.visit_pair(pair.0.as_str(), pair.1.as_str()) {
                Ok(()) => {
                    proof {
                        assert(self.pairs()[i as int] == (pair.0@, pair.1@));
                        assert((old(visitor).accepted() + self.pairs().take(i as int)).push(
                            self.pairs()[i as int],
                        ) =~= old(visitor).accepted() + self.pairs().take(i + 1));
                    }
                    i = i + 1;
                },
                Err(e) => {
                    proof {
                        assert(0 <= i < self.pairs().len());
                        assert(visitor.accepted() == old(visitor).accepted() + self.pairs().take(
                            i as int,
                        ));
                    }
                    return Err(e);
                },
            }
        }
        assert(self.pairs().take(n as int) =~= self.pairs());
        Ok(())
    }
}

} // verus!
