//! Generic facts about selecting and ordering catalogue entries.
use vstd::prelude::*;
use vstd::multiset::Multiset;

verus! {

/// Inserting an element anywhere adds it to the multiset of elements.
pub proof fn lemma_insert_to_multiset<A>(s: Seq<A>, p: int, x: A)
    requires
        0 <= p <= s.len(),
    ensures
        s.insert(p, x).to_multiset() == s.to_multiset().insert(x),
{
    broadcast use vstd::multiset::group_multiset_axioms;
    let a = s.subrange(0, p);
    let b = s.subrange(p, s.len() as int);
    assert(s =~= a + b);
    assert(s.insert(p, x) =~= a.push(x) + b);
    vstd::seq_lib::lemma_multiset_commutative(a, b);
    vstd::seq_lib::lemma_multiset_commutative(a.push(x), b);
    a.to_multiset_ensures();
    assert(a.push(x).to_multiset() == a.to_multiset().insert(x));
    assert((a.to_multiset().insert(x)).add(b.to_multiset()) =~= (a.to_multiset().add(
        b.to_multiset(),
    )).insert(x));
}

/// Taking one more element of a sequence extends the filtered prefix by that element
/// when it satisfies the predicate.
pub proof fn lemma_filter_take_step<A>(s: Seq<A>, i: int, pred: spec_fn(A) -> bool)
    requires
        0 <= i < s.len(),
    ensures
        s.take(i + 1).filter(pred) == if pred(s[i]) {
            s.take(i).filter(pred).push(s[i])
        } else {
            s.take(i).filter(pred)
        },
{
    assert(s.take(i + 1) =~= s.take(i).push(s[i]));
    s.take(i).lemma_filter_push(s[i], pred);
}

/// Pushing an element adds it to the multiset of elements.
pub proof fn lemma_push_to_multiset<A>(s: Seq<A>, x: A)
    ensures
        s.push(x).to_multiset() == s.to_multiset().insert(x),
{
    s.to_multiset_ensures();
}

/// The empty sequence has the empty multiset.
pub proof fn lemma_empty_to_multiset<A>(s: Seq<A>)
    requires
        s.len() == 0,
    ensures
        s.to_multiset() == Multiset::<A>::empty(),
{
    broadcast use vstd::multiset::group_multiset_axioms;
    s.to_multiset_ensures();
    assert(s.to_multiset() =~= Multiset::<A>::empty());
}

} // verus!
