//! What a processor reports of its capabilities, as a list of feature names,
//! and the target string that names every reported capability.

use crate::text::{contains_name, joined, lemma_joined_push};
use vstd::prelude::*;

verus! {

/// A feature counts as reported when it is one of the `known` names and the
/// processor's list `detected` holds it.
pub open spec fn reported(known: Seq<Seq<char>>, detected: Seq<Seq<char>>, name: Seq<char>) -> bool {
    known.contains(name) && detected.contains(name)
}

/// [`reported`] as a predicate on names.
pub open spec fn reported_pred(known: Seq<Seq<char>>, detected: Seq<Seq<char>>) -> spec_fn(
    Seq<char>,
) -> bool {
    |name: Seq<char>| reported(known, detected, name)
}

/// The architecture tag followed by each reported candidate, in the
/// candidates' order, joined by `+`.
pub open spec fn target_string(
    tag: Seq<char>,
    known: Seq<Seq<char>>,
    candidates: Seq<Seq<char>>,
    detected: Seq<Seq<char>>,
) -> Seq<char> {
    joined(seq![tag] + candidates.filter(reported_pred(known, detected)), "+"@)
}

/// Whether `name` is a known feature that the processor reported.
pub fn is_reported(known: &[&str], detected: &[&str], name: &str) -> (found: bool)
    ensures
        found == reported(known.deep_view(), detected.deep_view(), name@),
{
    contains_name(known, name) && contains_name(detected, name)
}

/// Builds the target string of a processor: `tag`, then every candidate that
/// it reported.
pub fn compose_target_string(tag: &str, known: &[&str], candidates: &[&str], detected: &[&str]) -> (out:
    String)
    ensures
        out@ == target_string(tag@, known.deep_view(), candidates.deep_view(), detected.deep_view()),
{
    let ghost pred = reported_pred(known.deep_view(), detected.deep_view());
    let ghost all = candidates.deep_view();
    let mut out = tag.to_owned();
    let mut i: usize = 0;
    proof {
        assert(all.take(0).filter(pred) =~= Seq::empty()) by {
            reveal(Seq::filter);
        }
        assert(seq![tag@] + Seq::<Seq<char>>::empty() =~= seq![tag@]);
    }
    while i < candidates.len()
        invariant
            i <= candidates.len(),
            all == candidates.deep_view(),
            pred == reported_pred(known.deep_view(), detected.deep_view()),
            out@ == joined(seq![tag@] + all.take(i as int).filter(pred), "+"@),
        decreases candidates.len() - i,
    {
        let name = candidates[i];
        proof {
            let seen = all.take(i as int);
            let kept = seen.filter(pred);
            assert(all.take(i + 1) =~= seen.push(name@));
            seen.lemma_filter_push(name@, pred);
            if pred(name@) {
                assert(seq![tag@] + kept.push(name@) =~= (seq![tag@] + kept).push(name@));
                lemma_joined_push(seq![tag@] + kept, "+"@, name@);
            }
        }
        if is_reported(known, detected, name) {
            out.append("+");
            out.append(name);
        }
        i += 1;
    }
    assert(all.take(candidates.len() as int) =~= all);
    out
}

} // verus!
