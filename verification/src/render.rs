use vstd::prelude::*;

use crate::errors::{kv_error_from_sink, render_error_from_kv, KvError, RenderError};
use crate::sink::Sink;
use crate::source::{Source, Visitor};

verus! {

/// The text the default policy writes for one pair: a single leading space,
/// the key, `=`, the value.
pub open spec fn render_pair(key: Seq<char>, value: Seq<char>) -> Seq<char> {
    seq![' '] + key + seq!['='] + value
}

/// The text the default policy writes for a whole field set: every pair in
/// presentation order, each preceded by exactly one space, nothing after the
/// last.
pub open spec fn render_pairs(ps: Seq<(Seq<char>, Seq<char>)>) -> Seq<char>
    decreases ps.len(),
{
    if ps.len() == 0 {
        Seq::empty()
    } else {
        render_pair(ps[0].0, ps[0].1) + render_pairs(ps.drop_first())
    }
}

/// Rendering one more pair appends its text after the text of the pairs
/// already rendered: pair order and pair text survive unchanged, so the
/// rendered field set is exactly the pairs' texts laid out in presentation
/// order.
pub proof fn lemma_render_pairs_push(ps: Seq<(Seq<char>, Seq<char>)>, p: (Seq<char>, Seq<char>))
    ensures
        render_pairs(ps.push(p)) == render_pairs(ps) + render_pair(p.0, p.1),
    decreases ps.len(),
{
    if ps.len() == 0 {
        assert(ps.push(p).drop_first() =~= Seq::<(Seq<char>, Seq<char>)>::empty());
        assert(render_pairs(ps.push(p).drop_first()) == Seq::<char>::empty());
        assert(ps.push(p)[0] == p);
        assert(render_pairs(ps.push(p)) == render_pair(p.0, p.1) + Seq::<char>::empty());
        assert(render_pairs(ps.push(p)) =~= render_pairs(ps) + render_pair(p.0, p.1));
    } else {
        lemma_render_pairs_push(ps.drop_first(), p);
        assert(ps.push(p).drop_first() =~= ps.drop_first().push(p));
        assert(render_pairs(ps.push(p)) =~= render_pairs(ps) + render_pair(p.0, p.1));
    }
}

/// Pairs are written in presentation order, never reordered: at every cut
/// `j`, the text of the first `j` pairs stands, unchanged and in order,
/// before the text of the remaining pairs.
pub proof fn lemma_render_pairs_split(ps: Seq<(Seq<char>, Seq<char>)>, j: int)
    requires
        0 <= j <= ps.len(),
    ensures
        render_pairs(ps) == render_pairs(ps.take(j)) + render_pairs(ps.skip(j)),
    decreases j,
{
    if j == 0 {
        assert(ps.take(0) =~= Seq::<(Seq<char>, Seq<char>)>::empty());
        assert(ps.skip(0) =~= ps);
        assert(render_pairs(ps) =~= render_pairs(ps.take(0)) + render_pairs(ps.skip(0)));
    } else {
        lemma_render_pairs_split(ps.drop_first(), j - 1);
        assert(ps.take(j).drop_first() =~= ps.drop_first().take(j - 1));
        assert(ps.skip(j) =~= ps.drop_first().skip(j - 1));
        assert(ps.take(j)[0] == ps[0]);
        assert(render_pairs(ps) =~= render_pairs(ps.take(j)) + render_pairs(ps.skip(j)));
    }
}

/// The single formatted write for one pair, composed before it is handed to
/// the sink so that a rejected write leaves no partial pair behind.
fn pair_text(key: &str, value: &str) -> (r: String)
    ensures
        r@ == render_pair(key@, value@),
{
    let mut s = String::from_str(" ");
    s.append(key);
    s.append("=");
    s.append(value);
    proof {
        reveal_strlit(" ");
        reveal_strlit("=");
        assert(s@ =~= render_pair(key@, value@));
    }
    s
}

/// Visitor adapter of the default policy: owned by one render call, it
/// forwards each pair to the sink as one formatted write and wraps a rejected
/// write as a traversal failure.
struct DefaultVisitor<S: Sink> {
    sink: S,
    base: Ghost<Seq<char>>,
    history: Ghost<Seq<(Seq<char>, Seq<char>)>>,
}

impl<S: Sink> Visitor for DefaultVisitor<S> {
    closed spec fn wf(&self) -> bool {
        self.sink.out() == self.base@ + render_pairs(self.history@)
    }

    closed spec fn accepted(&self) -> Seq<(Seq<char>, Seq<char>)> {
        self.history@
    }

    closed spec fn frame(&self) -> Seq<char> {
        self.base@
    }

    closed spec fn reliable(&self) -> bool {
        self.sink.reliable()
    }

    fn visit_pair(&mut self, key: &str, value: &str) -> (r: Result<(), KvError>) {
        let text = pair_text(key, value);
        match self.sink.write_str(text.as_str()) {
            Ok(()) => {
                self.history = Ghost(self.history@.push((key@, value@)));
                proof {
                    lemma_render_pairs_push(old(self).history@, (key@, value@));
                    assert(self.sink.out() =~= self.base@ + render_pairs(self.history@));
                }
                Ok(())
            },
            Err(e) => Err(kv_error_from_sink(e)),
        }
    }
}

/// Null render policy: ignores the field set, writes nothing, always
/// succeeds. Selected when structured fields are suppressed from the output.
pub fn hidden_kv_format<S: Sink, F: Source>(sink: S, _fields: &F) -> (r: (
    S,
    Result<(), RenderError>,
))
    ensures
        r.0 == sink,
        r.1 is Ok,
{
    (sink, Ok(()))
}

/// Default render policy: drives the field set over a transient visitor that
/// writes every pair as `" key=value"`, in presentation order.
///
/// On success the sink has taken exactly the rendered field set. The first
/// rejected write halts the traversal: the sink has then taken the rendered
/// text of some strict prefix of the pairs, whole pairs only, and the call
/// reports the failure. A sink that never rejects a write cannot fail, and an
/// empty field set succeeds on any sink, with nothing written.
pub fn default_kv_format<S: Sink, F: Source>(sink: S, fields: &F) -> (r: (
    S,
    Result<(), RenderError>,
))
    ensures
        r.0.reliable() == sink.reliable(),
        sink.reliable() ==> r.1 is Ok,
        r.1 is Ok ==> r.0.out() == sink.out() + render_pairs(fields.pairs()),
        r.1 is Err ==> exists|j: int|
            0 <= j < fields.pairs().len() && r.0.out() == sink.out() + render_pairs(
                fields.pairs().take(j),
            ),
        fields.pairs().len() == 0 ==> r.1 is Ok && r.0.out() == sink.out(),
{
    let ghost base = sink.out();
    let mut visitor = DefaultVisitor {
        sink,
        base: Ghost(base),
        history: Ghost(Seq::empty()),
    };
    proof {
        assert(visitor.sink.out() =~= visitor.base@ + render_pairs(visitor.history@));
    }
    let ghost acc0 = visitor.accepted();
    let outcome = fields.visit(&mut visitor);
    let ghost vfin = visitor;
    let DefaultVisitor { sink: done, base: _, history: _ } = visitor;
    match outcome {
        Ok(()) => {
            proof {
                assert(vfin.history@ =~= fields.pairs());
            }
            (done, Ok(()))
        },
        Err(e) => {
            proof {
                let j = choose|j: int|
                    0 <= j < fields.pairs().len() && vfin.accepted() == acc0 + fields.pairs().take(
                        j,
                    );
                assert(vfin.history@ =~= fields.pairs().take(j));
                assert(done.out() == base + render_pairs(fields.pairs().take(j)));
            }
            (done, Err(render_error_from_kv(e)))
        },
    }
}

} // verus!
