//! Sets of strings kept as sorted vectors, ordered as `String`'s `Ord` orders them.
//!
//! `String` compares the UTF-8 bytes; UTF-8 keeps the order of code points, so that
//! order is the lexicographic order of the characters.
use vstd::prelude::*;
use crate::text::{chars_of, views_of};

verus! {

/// Whether `a` comes before `b` in lexicographic order of characters.
pub open spec fn char_seq_lt(a: Seq<char>, b: Seq<char>) -> bool
    decreases a.len(),
{
    if a.len() == 0 {
        b.len() > 0
    } else if b.len() == 0 {
        false
    } else if a[0] != b[0] {
        a[0] < b[0]
    } else {
        char_seq_lt(a.drop_first(), b.drop_first())
    }
}

/// No sequence comes before itself.
pub proof fn lemma_lt_irreflexive(a: Seq<char>)
    ensures
        !char_seq_lt(a, a),
    decreases a.len(),
{
    if a.len() > 0 {
        lemma_lt_irreflexive(a.drop_first());
    }
}

/// Of two different sequences, one comes before the other, and not both.
pub proof fn lemma_lt_trichotomy(a: Seq<char>, b: Seq<char>)
    ensures
        a != b ==> (char_seq_lt(a, b) || char_seq_lt(b, a)),
        !(char_seq_lt(a, b) && char_seq_lt(b, a)),
    decreases a.len(),
{
    if a.len() > 0 && b.len() > 0 {
        if a[0] == b[0] {
            lemma_lt_trichotomy(a.drop_first(), b.drop_first());
            if a != b {
                assert(a.drop_first() != b.drop_first()) by {
                    if a.drop_first() == b.drop_first() {
                        assert(a =~= seq![a[0]] + a.drop_first());
                        assert(b =~= seq![b[0]] + b.drop_first());
                    }
                }
            }
        }
    } else if a.len() == 0 && b.len() == 0 {
        assert(a =~= b);
    }
}

/// The order is transitive.
pub proof fn lemma_lt_transitive(a: Seq<char>, b: Seq<char>, c: Seq<char>)
    requires
        char_seq_lt(a, b),
        char_seq_lt(b, c),
    ensures
        char_seq_lt(a, c),
    decreases a.len(),
{
    if a.len() > 0 && b.len() > 0 && c.len() > 0 {
        if a[0] == b[0] && b[0] == c[0] {
            lemma_lt_transitive(a.drop_first(), b.drop_first(), c.drop_first());
        }
    }
}

/// Whether `s` is in strictly increasing order, so without repeats.
pub open spec fn strictly_sorted(s: Seq<Seq<char>>) -> bool {
    forall|i: int, j: int| 0 <= i < j < s.len() ==> char_seq_lt(#[trigger] s[i], #[trigger] s[j])
}

/// Whether `a` comes before `b`, as `a < b` on strings decides.
pub fn str_lt(a: &str, b: &str) -> (r: bool)
    ensures
        r == char_seq_lt(a@, b@),
{
    let va = chars_of(a);
    let vb = chars_of(b);
    let n = if va.len() < vb.len() { va.len() } else { vb.len() };
    let mut i: usize = 0;
    assert(a@.skip(0) =~= a@);
    assert(b@.skip(0) =~= b@);
    while i < n
        invariant
            va@ == a@,
            vb@ == b@,
            n <= va@.len(),
            n <= vb@.len(),
            n == va@.len() || n == vb@.len(),
            i <= n,
            forall|j: int| 0 <= j < i ==> va@[j] == vb@[j],
            char_seq_lt(a@, b@) == char_seq_lt(a@.skip(i as int), b@.skip(i as int)),
        decreases n - i,
    {
        assert(a@.skip(i as int)[0] == va@[i as int]);
        assert(b@.skip(i as int)[0] == vb@[i as int]);
        if va[i] != vb[i] {
            return va[i] < vb[i];
        }
        assert(a@.skip(i as int).drop_first() =~= a@.skip(i + 1));
        assert(b@.skip(i as int).drop_first() =~= b@.skip(i + 1));
        i = i + 1;
    }
    va.len() < vb.len()
}

/// Inserts `x` into the sorted `v` unless it is there already.
pub fn insert_sorted_unique(v: &mut Vec<String>, x: String)
    requires
        strictly_sorted(views_of(old(v)@)),
    ensures
        strictly_sorted(views_of(final(v)@)),
        views_of(final(v)@).to_set() == views_of(old(v)@).to_set().insert(x@),
{
    let ghost old_v = views_of(v@);
    let n = v.len();
    let mut p: usize = 0;
    let mut found = false;
    while p < n && !found
        invariant
            n == v@.len(),
            old_v == views_of(v@),
            strictly_sorted(old_v),
            p <= n,
            found ==> p < n && !char_seq_lt(old_v[p as int], x@),
            forall|j: int| 0 <= j < p ==> char_seq_lt(#[trigger] old_v[j], x@),
        decreases n - p, if found { 0int } else { 1int },
    {
        assert(old_v[p as int] == v@[p as int]@);
        if !str_lt(v[p].as_str(), x.as_str()) {
            found = true;
        } else {
            p = p + 1;
        }
    }
    if p < n {
        assert(old_v[p as int] == v@[p as int]@);
        if crate::text::str_eq(v[p].as_str(), x.as_str()) {
            assert(old_v.to_set().insert(x@) =~= old_v.to_set()) by {
                assert(old_v.contains(x@));
            }
            return;
        }
        proof {
            lemma_lt_trichotomy(old_v[p as int], x@);
        }
    }
    let ghost xv = x@;
    v.insert(p, x);
    proof {
        let nv = views_of(v@);
        assert(nv =~= old_v.insert(p as int, xv));
        assert forall|i: int, j: int| 0 <= i < j < nv.len() implies char_seq_lt(
            #[trigger] nv[i],
            #[trigger] nv[j],
        ) by {
            if i < p && j < p {
                assert(nv[i] == old_v[i] && nv[j] == old_v[j]);
            } else if i < p && j == p {
                assert(nv[i] == old_v[i]);
            } else if i < p {
                assert(nv[i] == old_v[i] && nv[j] == old_v[j - 1]);
                lemma_lt_transitive(old_v[i], xv, old_v[p as int]);
                if j - 1 > p {
                    lemma_lt_transitive(old_v[i], old_v[p as int], old_v[j - 1]);
                }
            } else if i == p {
                assert(nv[j] == old_v[j - 1]);
                if j - 1 > p {
                    lemma_lt_transitive(xv, old_v[p as int], old_v[j - 1]);
                }
            } else {
                assert(nv[i] == old_v[i - 1] && nv[j] == old_v[j - 1]);
            }
        }
        assert(nv.to_set() =~= old_v.to_set().insert(xv)) by {
            assert forall|s: Seq<char>| nv.to_set().contains(s) implies old_v.to_set().insert(
                xv,
            ).contains(s) by {
                let k = choose|k: int| 0 <= k < nv.len() && nv[k] == s;
                if k < p {
                    assert(nv[k] == old_v[k]);
                } else if k > p {
                    assert(nv[k] == old_v[k - 1]);
                }
            }
            assert forall|s: Seq<char>| old_v.to_set().insert(xv).contains(s) implies nv.to_set().contains(
                s,
            ) by {
                if s == xv {
                    assert(nv[p as int] == xv);
                } else {
                    let k = choose|k: int| 0 <= k < old_v.len() && old_v[k] == s;
                    if k < p {
                        assert(nv[k] == s);
                    } else {
                        assert(nv[k + 1] == s);
                    }
                }
            }
        }
    }
}

/// The distinct strings of `v`, sorted.
pub fn sorted_unique(v: Vec<String>) -> (r: Vec<String>)
    ensures
        strictly_sorted(views_of(r@)),
        views_of(r@).to_set() == views_of(v@).to_set(),
{
    let mut out: Vec<String> = Vec::new();
    let ghost all = views_of(v@);
    let mut rest = v;
    let ghost done: Seq<Seq<char>> = Seq::empty();
    assert(views_of(out@).to_set() =~= Set::<Seq<char>>::empty());
    let n = rest.len();
    let mut i: usize = 0;
    while i < n
        invariant
            n == all.len(),
            rest@.len() == n,
            views_of(rest@) == all,
            i <= n,
            strictly_sorted(views_of(out@)),
            views_of(out@).to_set() == all.take(i as int).to_set(),
        decreases n - i,
    {
        let s = crate::text::copy_string(&rest[i]);
        assert(all[i as int] == s@);
        insert_sorted_unique(&mut out, s);
        assert(all.take(i + 1) =~= all.take(i as int).push(all[i as int]));
        assert(all.take(i + 1).to_set() =~= all.take(i as int).to_set().insert(all[i as int])) by {
            all.take(i as int).lemma_push_to_set_commute(all[i as int]);
        }
        i = i + 1;
    }
    assert(all.take(n as int) =~= all);
    out
}

} // verus!
