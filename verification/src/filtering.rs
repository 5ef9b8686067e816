//! Facts about filtered sequences.

use vstd::prelude::*;

verus! {

/// One more item makes the filtered sequence longer by that item, or leaves it as it is.
pub(crate) proof fn lemma_filter_next<A>(s: Seq<A>, i: int, pred: spec_fn(A) -> bool)
    requires
        0 <= i < s.len(),
    ensures
        s.take(i + 1).filter(pred) == if pred(s[i]) {
            s.take(i).filter(pred).push(s[i])
        } else {
            s.take(i).filter(pred)
        },
{
    reveal(Seq::filter);
    assert(s.take(i + 1).drop_last() =~= s.take(i));
}

/// An item's place in the filtered sequence is the number of items before it that pass.
pub(crate) proof fn lemma_filter_rank<A>(s: Seq<A>, i: int, pred: spec_fn(A) -> bool)
    requires
        s.no_duplicates(),
        0 <= i < s.len(),
        pred(s[i]),
    ensures
        s.filter(pred).contains(s[i]),
        s.filter(pred).index_of(s[i]) == s.take(i).filter(pred).len(),
{
    let head = s.take(i + 1);
    let tail = s.skip(i + 1);
    let found = s.filter(pred);
    let rank = s.take(i).filter(pred).len() as int;
    lemma_filter_next(s, i, pred);
    assert(s =~= head + tail);
    Seq::filter_distributes_over_add(head, tail, pred);
    assert(found[rank] == s[i]);
    lemma_filter_distinct(s, pred);
}

/// Filtering keeps items apart.
pub(crate) proof fn lemma_filter_distinct<A>(s: Seq<A>, pred: spec_fn(A) -> bool)
    requires
        s.no_duplicates(),
    ensures
        s.filter(pred).no_duplicates(),
    decreases s.len(),
{
    reveal(Seq::filter);
    if s.len() > 0 {
        let rest = s.drop_last();
        lemma_filter_distinct(rest, pred);
        if rest.filter(pred).contains(s.last()) {
            rest.lemma_filter_contains_rev(pred, s.last());
        }
    }
}

/// A filter that every item passes changes nothing.
pub(crate) proof fn lemma_filter_all<A>(s: Seq<A>, pred: spec_fn(A) -> bool)
    requires
        forall|i: int| 0 <= i < s.len() ==> pred(#[trigger] s[i]),
    ensures
        s.filter(pred) == s,
    decreases s.len(),
{
    reveal(Seq::filter);
    if s.len() > 0 {
        assert forall|i: int| 0 <= i < s.len() - 1 implies pred(#[trigger] s.drop_last()[i]) by {
            assert(s.drop_last()[i] == s[i]);
        }
        lemma_filter_all(s.drop_last(), pred);
        assert(pred(s[s.len() - 1]));
        assert(s.drop_last().push(s.last()) =~= s);
    } else {
        assert(s.filter(pred) =~= s);
    }
}

} // verus!
