//! Facts about filtered sequences that the wallet state rests on.

use vstd::prelude::*;

verus! {

/// Filtering one element more: the element is kept at the end, or dropped.
pub proof fn lemma_filter_step<A>(s: Seq<A>, keep: spec_fn(A) -> bool, i: int)
    requires
        0 <= i < s.len(),
    ensures
        s.take(i + 1).filter(keep) == if keep(s[i]) {
            s.take(i).filter(keep).push(s[i])
        } else {
            s.take(i).filter(keep)
        },
{
    reveal(Seq::filter);
    assert(s.take(i + 1).drop_last() == s.take(i));
    assert(s.take(i + 1).last() == s[i]);
}

/// A filter that keeps every element changes nothing, and one that drops
/// an element gives a shorter sequence.
pub proof fn lemma_filter_all_or_shorter<A>(s: Seq<A>, keep: spec_fn(A) -> bool)
    ensures
        (forall|i: int| 0 <= i < s.len() ==> keep(#[trigger] s[i])) ==> s.filter(keep) == s,
        (exists|i: int| 0 <= i < s.len() && !keep(#[trigger] s[i])) ==> s.filter(keep).len()
            < s.len(),
    decreases s.len(),
{
    reveal(Seq::filter);
    if s.len() > 0 {
        let front = s.drop_last();
        lemma_filter_all_or_shorter(front, keep);
        front.lemma_filter_len(keep);
        if forall|i: int| 0 <= i < s.len() ==> keep(#[trigger] s[i]) {
            assert forall|i: int| 0 <= i < front.len() implies keep(#[trigger] front[i]) by {
                assert(front[i] == s[i]);
            }
            assert(keep(s[s.len() - 1]));
            assert(front.push(s.last()) == s);
        }
        if exists|i: int| 0 <= i < s.len() && !keep(#[trigger] s[i]) {
            let i = choose|i: int| 0 <= i < s.len() && !keep(#[trigger] s[i]);
            if i < front.len() {
                assert(front[i] == s[i]);
            }
        }
    }
}

/// Every element of a filtered sequence stood in the sequence and is one
/// that the filter keeps.
pub proof fn lemma_filter_subset<A>(s: Seq<A>, keep: spec_fn(A) -> bool)
    ensures
        forall|k: int|
            0 <= k < s.filter(keep).len() ==> keep(#[trigger] s.filter(keep)[k]) && s.contains(
                s.filter(keep)[k],
            ),
{
    let kept = s.filter(keep);
    assert forall|k: int| 0 <= k < kept.len() implies keep(#[trigger] kept[k]) && s.contains(
        kept[k],
    ) by {
        s.lemma_filter_pred(keep, k);
        assert(kept.contains(kept[k]));
        s.lemma_filter_contains_rev(keep, kept[k]);
    }
}

} // verus!
