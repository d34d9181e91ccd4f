//! What is read back from stored tuples: names taken from their users and objects, and
//! their keys.
use vstd::prelude::*;
use crate::text::{strip_prefix, strip_prefix_spec, views_of, copy_string, owned};
use super::types::{Tuple, TupleKey, TupleKeyView, TupleKeyFilter, keys_view, opt_view, push_key};

verus! {

/// The keys of a sequence of tuples.
pub open spec fn tuple_keys_view(ts: Seq<Tuple>) -> Seq<TupleKeyView> {
    ts.map_values(|t: Tuple| t.key@)
}

/// The abstract value of a filter: (user, relation, object), each optional.
pub open spec fn filter_view(f: TupleKeyFilter) -> (Option<Seq<char>>, Option<Seq<char>>, Option<Seq<char>>) {
    (opt_view(f.user), opt_view(f.relation), opt_view(f.object))
}

/// A filter on the given parts.
pub fn make_filter(user: Option<&str>, relation: Option<&str>, object: Option<&str>) -> (r: TupleKeyFilter)
    ensures
        filter_view(r) == (
            match user { Some(u) => Some(u@), None => None },
            match relation { Some(u) => Some(u@), None => None },
            match object { Some(u) => Some(u@), None => None },
        ),
{
    TupleKeyFilter {
        user: match user { Some(u) => Some(owned(u)), None => None },
        relation: match relation { Some(u) => Some(owned(u)), None => None },
        object: match object { Some(u) => Some(owned(u)), None => None },
    }
}

/// The names that `f` finds in the first `n` keys, in order.
pub open spec fn collect_names(
    keys: Seq<TupleKeyView>,
    f: spec_fn(TupleKeyView) -> Option<Seq<char>>,
    n: nat,
) -> Seq<Seq<char>>
    decreases n,
{
    if n == 0 || n > keys.len() {
        Seq::empty()
    } else {
        let prev = collect_names(keys, f, (n - 1) as nat);
        match f(keys[n - 1]) {
            Some(name) => prev.push(name),
            None => prev,
        }
    }
}

/// The object of a key without `prefix`, when it starts with it.
pub open spec fn object_after(prefix: Seq<char>) -> spec_fn(TupleKeyView) -> Option<Seq<char>> {
    |k: TupleKeyView| strip_prefix_spec(k.2, prefix)
}

/// The user of a key without `prefix`, when it starts with it.
pub open spec fn user_after(prefix: Seq<char>) -> spec_fn(TupleKeyView) -> Option<Seq<char>> {
    |k: TupleKeyView| strip_prefix_spec(k.0, prefix)
}

/// The objects of `tuples` that start with `prefix`, without it, in order.
pub fn objects_after(tuples: &Vec<Tuple>, prefix: &str) -> (r: Vec<String>)
    ensures
        views_of(r@) == collect_names(tuple_keys_view(tuples@), object_after(prefix@), tuples@.len()),
{
    let ghost keys = tuple_keys_view(tuples@);
    let mut out: Vec<String> = Vec::new();
    let n = tuples.len();
    for i in 0..n
        invariant
            n == tuples@.len(),
            keys == tuple_keys_view(tuples@),
            views_of(out@) == collect_names(keys, object_after(prefix@), i as nat),
    {
        assert(keys[i as int] == tuples@[i as int].key@);
        match strip_prefix(tuples[i].key.object.as_str(), prefix) {
            Some(name) => {
                let s = owned(name);
                assert(views_of(out@.push(s)) =~= views_of(out@).push(s@));
                out.push(s);
            },
            None => {},
        }
    }
    out
}

/// The users of `tuples` that start with `prefix`, without it, in order.
pub fn users_after(tuples: &Vec<Tuple>, prefix: &str) -> (r: Vec<String>)
    ensures
        views_of(r@) == collect_names(tuple_keys_view(tuples@), user_after(prefix@), tuples@.len()),
{
    let ghost keys = tuple_keys_view(tuples@);
    let mut out: Vec<String> = Vec::new();
    let n = tuples.len();
    for i in 0..n
        invariant
            n == tuples@.len(),
            keys == tuple_keys_view(tuples@),
            views_of(out@) == collect_names(keys, user_after(prefix@), i as nat),
    {
        assert(keys[i as int] == tuples@[i as int].key@);
        match strip_prefix(tuples[i].key.user.as_str(), prefix) {
            Some(name) => {
                let s = owned(name);
                assert(views_of(out@.push(s)) =~= views_of(out@).push(s@));
                out.push(s);
            },
            None => {},
        }
    }
    out
}

/// The keys of the tuples of `a` and then of `b`.
pub fn keys_of(a: &Vec<Tuple>, b: &Vec<Tuple>) -> (r: Vec<TupleKey>)
    ensures
        keys_view(r@) == tuple_keys_view(a@) + tuple_keys_view(b@),
{
    let mut out: Vec<TupleKey> = Vec::new();
    let n = a.len();
    for i in 0..n
        invariant
            n == a@.len(),
            keys_view(out@) == tuple_keys_view(a@).take(i as int),
    {
        assert(tuple_keys_view(a@).take(i + 1) =~= tuple_keys_view(a@).take(i as int).push(
            a@[i as int].key@,
        ));
        push_key(&mut out, a[i].key.duplicate());
    }
    assert(tuple_keys_view(a@).take(n as int) =~= tuple_keys_view(a@));
    let m = b.len();
    for j in 0..m
        invariant
            m == b@.len(),
            keys_view(out@) == tuple_keys_view(a@) + tuple_keys_view(b@).take(j as int),
    {
        assert(tuple_keys_view(a@) + tuple_keys_view(b@).take(j + 1) =~= (tuple_keys_view(a@)
            + tuple_keys_view(b@).take(j as int)).push(b@[j as int].key@));
        push_key(&mut out, b[j].key.duplicate());
    }
    assert(tuple_keys_view(b@).take(m as int) =~= tuple_keys_view(b@));
    out
}

} // verus!
