//! Facts about sequences that the laws rest on.

use crate::text::lemma_prefix_index;
use vstd::prelude::*;

verus! {

/// Nothing is left of nothing.
pub proof fn lemma_filter_empty(pred: spec_fn(Seq<char>) -> bool)
    ensures
        Seq::<Seq<char>>::empty().filter(pred) == Seq::<Seq<char>>::empty(),
{
    reveal(Seq::filter);
}

/// Of one target, that one is left where it passes the test.
pub proof fn lemma_filter_one(target: Seq<char>, pred: spec_fn(Seq<char>) -> bool)
    ensures
        seq![target].filter(pred) == if pred(target) {
            seq![target]
        } else {
            Seq::<Seq<char>>::empty()
        },
{
    let none = Seq::<Seq<char>>::empty();
    lemma_filter_empty(pred);
    none.lemma_filter_push(target, pred);
    assert(none.push(target) =~= seq![target]);
}

/// Filtering and mapping one list after another is filtering and mapping the
/// two as one.
pub proof fn lemma_filter_map_add<A, B>(a: Seq<A>, b: Seq<A>, f: spec_fn(A) -> Option<B>)
    ensures
        (a + b).filter_map(f) == a.filter_map(f) + b.filter_map(f),
    decreases b.len(),
{
    if b.len() == 0 {
        assert(a + b =~= a);
        assert(a.filter_map(f) + b.filter_map(f) =~= a.filter_map(f));
    } else {
        assert((a + b).drop_last() =~= a + b.drop_last());
        assert((a + b).last() == b.last());
        lemma_filter_map_add(a, b.drop_last(), f);
        let front = a.filter_map(f);
        let back = b.drop_last().filter_map(f);
        match f(b.last()) {
            Some(value) => {
                assert((front + back) + seq![value] =~= front + (back + seq![value]));
            },
            None => {},
        }
    }
}

/// A beginning of a beginning is a beginning.
pub proof fn lemma_prefix_transitive(a: Seq<char>, b: Seq<char>, c: Seq<char>)
    requires
        a.is_prefix_of(b),
        b.is_prefix_of(c),
    ensures
        a.is_prefix_of(c),
{
    assert(a =~= c.subrange(0, a.len() as int)) by {
        assert forall|k: int| 0 <= k < a.len() implies a[k] == c[k] by {
            lemma_prefix_index(a, b, k);
            lemma_prefix_index(b, c, k);
        }
    }
}

} // verus!
