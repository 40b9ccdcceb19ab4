//! General lemmas about filtered sequences.
//!
//! The suite filters (`reduce_given_version`, `reduce_given_sigalg`,
//! `resolve_sig_schemes`) are all specified with `Seq::filter`; the
//! lemmas here supply the loop step for their implementations and the
//! facts the filtering laws need: idempotence and order preservation.

use vstd::prelude::*;

verus! {

/// Filtering one more element extends the filtered prefix by the element
/// exactly when the predicate accepts it.
pub proof fn lemma_filter_take_step<A>(s: Seq<A>, pred: spec_fn(A) -> bool, i: int)
    requires
        0 <= i < s.len(),
    ensures
        s.take(i + 1).filter(pred) == if pred(s[i]) {
            s.take(i).filter(pred).push(s[i])
        } else {
            s.take(i).filter(pred)
        },
{
    reveal(Seq::filter);
    assert(s.take(i + 1).drop_last() =~= s.take(i));
    assert(s.take(i + 1).last() == s[i]);
}

/// A sequence whose elements all satisfy the predicate is left unchanged
/// by filtering.
pub proof fn lemma_filter_all_accepted<A>(s: Seq<A>, pred: spec_fn(A) -> bool)
    requires
        forall|i: int| 0 <= i < s.len() ==> pred(#[trigger] s[i]),
    ensures
        s.filter(pred) == s,
    decreases s.len(),
{
    reveal(Seq::filter);
    if s.len() > 0 {
        lemma_filter_all_accepted(s.drop_last(), pred);
        assert(s.drop_last().push(s.last()) =~= s);
    }
}

/// Filtering is idempotent: filtering an already-filtered sequence by the
/// same predicate yields the same sequence.
pub proof fn lemma_filter_idempotent<A>(s: Seq<A>, pred: spec_fn(A) -> bool)
    ensures
        s.filter(pred).filter(pred) == s.filter(pred),
{
    let out = s.filter(pred);
    assert forall|i: int| 0 <= i < out.len() implies pred(#[trigger] out[i]) by {
        s.lemma_filter_pred(pred, i);
    }
    lemma_filter_all_accepted(out, pred);
}

/// Every element of a filtered sequence has a position in the original.
pub proof fn lemma_filter_element_index<A>(s: Seq<A>, pred: spec_fn(A) -> bool, i: int)
    requires
        0 <= i < s.filter(pred).len(),
    ensures
        exists|a: int| 0 <= a < s.len() && s[a] == s.filter(pred)[i],
    decreases s.len(),
{
    reveal(Seq::filter);
    if s.len() > 0 {
        let sub = s.drop_last().filter(pred);
        if i < sub.len() {
            lemma_filter_element_index(s.drop_last(), pred, i);
            let a = choose|a: int| 0 <= a < s.drop_last().len() && s.drop_last()[a] == sub[i];
            assert(s[a] == s.filter(pred)[i]);
        } else {
            assert(s[s.len() - 1] == s.filter(pred)[i]);
        }
    }
}

/// Filtering preserves relative order: two elements of the filtered
/// sequence stand at positions of the original in the same order.
pub proof fn lemma_filter_preserves_order<A>(s: Seq<A>, pred: spec_fn(A) -> bool, i: int, j: int)
    requires
        0 <= i < j < s.filter(pred).len(),
    ensures
        exists|a: int, b: int|
            0 <= a < b < s.len() && s[a] == s.filter(pred)[i] && s[b] == s.filter(pred)[j],
    decreases s.len(),
{
    reveal(Seq::filter);
    if s.len() > 0 {
        let rest = s.drop_last();
        let sub = rest.filter(pred);
        if j < sub.len() {
            lemma_filter_preserves_order(rest, pred, i, j);
            let (a, b) = choose|a: int, b: int|
                0 <= a < b < rest.len() && rest[a] == sub[i] && rest[b] == sub[j];
            assert(s[a] == s.filter(pred)[i] && s[b] == s.filter(pred)[j]);
        } else {
            // the later element is the last of s, accepted by the predicate
            lemma_filter_element_index(rest, pred, i);
            let a = choose|a: int| 0 <= a < rest.len() && rest[a] == sub[i];
            assert(s[a] == s.filter(pred)[i] && s[s.len() - 1] == s.filter(pred)[j]);
        }
    }
}

} // verus!
