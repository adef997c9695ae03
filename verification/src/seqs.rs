//! Facts about sequences that are advanced element by element and then culled.

use vstd::prelude::*;

verus! {

/// The views of the elements, in order.
pub open spec fn views_of<T: View>(things: Seq<T>) -> Seq<T::V> {
    things.map_values(|t: T| t@)
}

/// Every element is moved by `step`; those for which `keep` then holds stay, in order.
pub open spec fn advance_and_keep<A>(s: Seq<A>, step: spec_fn(A) -> A, keep: spec_fn(A) -> bool) -> Seq<
    A,
> {
    s.map_values(step).filter(keep)
}

/// Nothing comes out of an empty sequence.
pub proof fn lemma_advance_nothing<A>(step: spec_fn(A) -> A, keep: spec_fn(A) -> bool)
    ensures
        advance_and_keep(Seq::<A>::empty(), step, keep) == Seq::<A>::empty(),
{
    reveal(Seq::filter);
    assert(Seq::<A>::empty().map_values(step) =~= Seq::<A>::empty());
}

/// One more element at the end adds its moved self to the result, or nothing.
pub proof fn lemma_advance_one_more<A>(
    s: Seq<A>,
    a: A,
    step: spec_fn(A) -> A,
    keep: spec_fn(A) -> bool,
)
    ensures
        advance_and_keep(s.push(a), step, keep) == if keep(step(a)) {
            advance_and_keep(s, step, keep).push(step(a))
        } else {
            advance_and_keep(s, step, keep)
        },
{
    reveal(Seq::filter);
    let moved = s.push(a).map_values(step);
    assert(moved =~= s.map_values(step).push(step(a)));
    assert(moved.drop_last() =~= s.map_values(step));
}

/// Whatever stays satisfies `keep`.
pub proof fn lemma_kept_satisfy<A>(s: Seq<A>, step: spec_fn(A) -> A, keep: spec_fn(A) -> bool)
    ensures
        forall|i: int|
            0 <= i < advance_and_keep(s, step, keep).len() ==> keep(
                #[trigger] advance_and_keep(s, step, keep)[i],
            ),
        advance_and_keep(s, step, keep).len() <= s.len(),
{
    let moved = s.map_values(step);
    assert forall|i: int| 0 <= i < moved.filter(keep).len() implies keep(
        #[trigger] moved.filter(keep)[i],
    ) by {
        moved.lemma_filter_pred(keep, i);
    }
    moved.lemma_filter_len(keep);
}

/// What holds of every element after its move holds of whatever stays.
pub proof fn lemma_kept_inherit<A>(
    s: Seq<A>,
    step: spec_fn(A) -> A,
    keep: spec_fn(A) -> bool,
    before: spec_fn(A) -> bool,
    after: spec_fn(A) -> bool,
)
    requires
        forall|i: int| 0 <= i < s.len() ==> before(#[trigger] s[i]),
        forall|a: A| before(a) ==> #[trigger] after(step(a)),
    ensures
        forall|i: int|
            0 <= i < advance_and_keep(s, step, keep).len() ==> after(
                #[trigger] advance_and_keep(s, step, keep)[i],
            ),
    decreases s.len(),
{
    if s.len() == 0 {
        lemma_advance_nothing(step, keep);
    } else {
        let shorter = s.drop_last();
        assert(s =~= shorter.push(s.last()));
        assert forall|i: int| 0 <= i < shorter.len() implies before(#[trigger] shorter[i]) by {
            assert(shorter[i] == s[i]);
        }
        lemma_kept_inherit(shorter, step, keep, before, after);
        lemma_advance_one_more(shorter, s.last(), step, keep);
        assert(before(s[s.len() - 1]));
    }
}

/// The first `i + 1` elements are the first `i` and the one at `i`.
pub proof fn lemma_take_one_more<A>(s: Seq<A>, i: int)
    requires
        0 <= i < s.len(),
    ensures
        s.take(i + 1) == s.take(i).push(s[i]),
{
    assert(s.take(i + 1) =~= s.take(i).push(s[i]));
}

/// `a` is what is left of `b` when some of its elements are taken out: the elements
/// of `a` are elements of `b`, in the order they have there.
pub open spec fn is_subsequence<A>(a: Seq<A>, b: Seq<A>) -> bool
    decreases b.len(),
{
    if a.len() == 0 {
        true
    } else if b.len() == 0 {
        false
    } else {
        (a.first() == b.first() && is_subsequence(a.drop_first(), b.drop_first()))
            || is_subsequence(a, b.drop_first())
    }
}

/// Every sequence is left of itself.
pub proof fn lemma_subsequence_is_whole<A>(a: Seq<A>)
    ensures
        is_subsequence(a, a),
    decreases a.len(),
{
    if a.len() > 0 {
        lemma_subsequence_is_whole(a.drop_first());
    }
}

/// A sequence with one element put in front is left of the other with the same
/// element put in front.
pub proof fn lemma_subsequence_with_first<A>(first: A, a: Seq<A>, b: Seq<A>)
    requires
        is_subsequence(a, b),
    ensures
        is_subsequence(seq![first] + a, seq![first] + b),
        is_subsequence(a, seq![first] + b),
{
    assert((seq![first] + a).drop_first() =~= a);
    assert((seq![first] + b).drop_first() =~= b);
}

/// What is left of a sequence without one of its elements is left of the sequence.
pub proof fn lemma_subsequence_after_removal<A>(a: Seq<A>, b: Seq<A>, k: int)
    requires
        0 <= k < b.len(),
        is_subsequence(a, b.remove(k)),
    ensures
        is_subsequence(a, b),
    decreases b.len(),
{
    if a.len() > 0 {
        if k == 0 {
            assert(b.remove(0) =~= b.drop_first());
        } else {
            let shorter = b.remove(k);
            assert(shorter.first() == b.first());
            assert(shorter.drop_first() =~= b.drop_first().remove(k - 1));
            if a.first() == shorter.first() && is_subsequence(
                a.drop_first(),
                shorter.drop_first(),
            ) {
                lemma_subsequence_after_removal(a.drop_first(), b.drop_first(), k - 1);
            } else {
                lemma_subsequence_after_removal(a, b.drop_first(), k - 1);
            }
        }
    }
}

/// What is left of what is left is left.
pub proof fn lemma_subsequence_of_subsequence<A>(a: Seq<A>, b: Seq<A>, c: Seq<A>)
    requires
        is_subsequence(a, b),
        is_subsequence(b, c),
    ensures
        is_subsequence(a, c),
    decreases c.len(),
{
    if a.len() > 0 {
        if b.first() == c.first() && is_subsequence(b.drop_first(), c.drop_first()) {
            if a.first() == b.first() && is_subsequence(a.drop_first(), b.drop_first()) {
                lemma_subsequence_of_subsequence(a.drop_first(), b.drop_first(), c.drop_first());
            } else {
                lemma_subsequence_of_subsequence(a, b.drop_first(), c.drop_first());
            }
        } else {
            lemma_subsequence_of_subsequence(a, b, c.drop_first());
        }
    }
}

} // verus!
