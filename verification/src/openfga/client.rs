//! The decisions of the OpenFGA HTTP client: URLs, request bodies, errors, paging of
//! reads, the store to use at start-up and the batches of initial tuples.
use vstd::prelude::*;
use crate::text::{views_of, concat2, concat3, concat4, owned, str_eq, copy_string};
use super::types::{Tuple, TupleKey, TupleKeyView, TupleKeyFilter, CheckRequest, WriteRequest,
    TupleKeys, ReadRequest, ReadResponse, ListObjectsRequest, Store, CreateStoreRequest,
    keys_view, opt_view};
use super::reads::{tuple_keys_view, filter_view};
use super::schema::{get_initial_tuples, initial_tuples_spec};
use super::error::Error;

verus! {

/// The URL of the stores collection: "{api_url}/stores".
pub fn stores_url(api_url: &str) -> (r: String)
    ensures
        r@ == api_url@ + "/stores"@,
{
    concat2(api_url, "/stores")
}

/// The URL of an operation on a store: "{api_url}/stores/{store_id}/{operation}".
pub fn store_url(api_url: &str, store_id: &str, operation: &str) -> (r: String)
    ensures
        r@ == api_url@ + "/stores/"@ + store_id@ + "/"@ + operation@,
{
    let a = concat3(api_url, "/stores/", store_id);
    concat3(a.as_str(), "/", operation)
}

/// Requests on a store need one: `StoreNotFound` when no store ID is configured.
pub fn require_store(store_id: &str) -> (r: Result<(), Error>)
    ensures
        r == (if store_id@.len() == 0 { Err::<(), Error>(Error::StoreNotFound) } else { Ok(()) }),
{
    if store_id.is_empty() {
        Err(Error::StoreNotFound)
    } else {
        Ok(())
    }
}

/// A copy of an optional string.
fn copy_opt(s: &Option<String>) -> (r: Option<String>)
    ensures
        opt_view(r) == opt_view(*s),
{
    match s {
        Some(t) => Some(copy_string(t)),
        None => None,
    }
}

/// The body of a check of `key` under the configured model.
pub fn check_request(key: &TupleKey, model_id: &Option<String>) -> (r: CheckRequest)
    ensures
        r.tuple_key@ == key@,
        opt_view(r.authorization_model_id) == opt_view(*model_id),
{
    CheckRequest { tuple_key: key.duplicate(), authorization_model_id: copy_opt(model_id) }
}

/// The body of a write: the tuples to write and to delete, each list left out when
/// empty, under the configured model.
pub fn write_request(writes: Vec<TupleKey>, deletes: Vec<TupleKey>, model_id: &Option<String>) -> (r: WriteRequest)
    ensures
        match r.writes {
            Some(w) => writes@.len() > 0 && w.tuple_keys == writes,
            None => writes@.len() == 0,
        },
        match r.deletes {
            Some(d) => deletes@.len() > 0 && d.tuple_keys == deletes,
            None => deletes@.len() == 0,
        },
        opt_view(r.authorization_model_id) == opt_view(*model_id),
{
    let w = if writes.len() == 0 {
        None
    } else {
        Some(TupleKeys { tuple_keys: writes })
    };
    let d = if deletes.len() == 0 {
        None
    } else {
        Some(TupleKeys { tuple_keys: deletes })
    };
    WriteRequest { writes: w, deletes: d, authorization_model_id: copy_opt(model_id) }
}

/// Whether a change of tuples needs a request: not when there is nothing to write and
/// nothing to delete.
pub fn needs_write(writes: &Vec<TupleKey>, deletes: &Vec<TupleKey>) -> (r: bool)
    ensures
        r == (writes@.len() > 0 || deletes@.len() > 0),
{
    writes.len() > 0 || deletes.len() > 0
}

/// The body of a request listing the objects of type `object_type` on which `user` has
/// `relation`, under the configured model.
pub fn list_objects_request(user: &str, relation: &str, object_type: &str, model_id: &Option<String>) -> (r: ListObjectsRequest)
    ensures
        r.user@ == user@,
        r.relation@ == relation@,
        r.type_@ == object_type@,
        opt_view(r.authorization_model_id) == opt_view(*model_id),
{
    ListObjectsRequest {
        user: owned(user),
        relation: owned(relation),
        type_: owned(object_type),
        authorization_model_id: copy_opt(model_id),
    }
}

/// The error for a request that OpenFGA answered with a failure status:
/// "{operation}: {status} - {body}".
pub fn request_failure(operation: &str, status: &str, body: &str) -> (r: Error)
    ensures
        r matches Error::OpenFGA(m) && m@ == operation@ + ": "@ + status@ + " - "@ + body@,
{
    let a = concat3(operation, ": ", status);
    Error::OpenFGA(concat3(a.as_str(), " - ", body))
}

/// A copy of a filter.
fn copy_filter(f: &TupleKeyFilter) -> (r: TupleKeyFilter)
    ensures
        filter_view(r) == filter_view(*f),
{
    TupleKeyFilter { user: copy_opt(&f.user), relation: copy_opt(&f.relation), object: copy_opt(&f.object) }
}

/// Whether a key passes a filter: each part the filter names is equal.
pub open spec fn key_passes(k: TupleKeyView, f: (Option<Seq<char>>, Option<Seq<char>>, Option<Seq<char>>)) -> bool {
    &&& (f.0 matches Some(u) ==> k.0 == u)
    &&& (f.1 matches Some(r) ==> k.1 == r)
    &&& (f.2 matches Some(o) ==> k.2 == o)
}

/// Whether a key passes a filter.
pub fn tuple_matches(k: &TupleKey, f: &TupleKeyFilter) -> (r: bool)
    ensures
        r == key_passes(k@, filter_view(*f)),
{
    let user_ok = match &f.user {
        Some(u) => str_eq(k.user.as_str(), u.as_str()),
        None => true,
    };
    let relation_ok = match &f.relation {
        Some(x) => str_eq(k.relation.as_str(), x.as_str()),
        None => true,
    };
    let object_ok = match &f.object {
        Some(o) => str_eq(k.object.as_str(), o.as_str()),
        None => true,
    };
    user_ok && relation_ok && object_ok
}

/// The tuples of `ts` whose keys pass the filter, in order.
pub open spec fn passing(ts: Seq<Tuple>, f: (Option<Seq<char>>, Option<Seq<char>>, Option<Seq<char>>)) -> Seq<Tuple> {
    ts.filter(|t: Tuple| key_passes(t.key@, f))
}

/// The state of a read that is answered in pages.
///
/// OpenFGA accepts a filter only when it names an object; any other filter is applied
/// here to all the tuples read. Pages are requested 100 tuples at a time until a page
/// comes back without a continuation token, or with an empty one.
pub struct ReadPager {
    api_filter: Option<TupleKeyFilter>,
    memory_filter: Option<TupleKeyFilter>,
    collected: Vec<Tuple>,
    token: Option<String>,
    done: bool,
}

impl ReadPager {
    /// The filter sent to OpenFGA.
    pub closed spec fn api_filter(&self) -> Option<(Option<Seq<char>>, Option<Seq<char>>, Option<Seq<char>>)> {
        match self.api_filter {
            Some(f) => Some(filter_view(f)),
            None => None,
        }
    }

    /// The filter applied to the tuples read.
    pub closed spec fn memory_filter(&self) -> Option<(Option<Seq<char>>, Option<Seq<char>>, Option<Seq<char>>)> {
        match self.memory_filter {
            Some(f) => Some(filter_view(f)),
            None => None,
        }
    }

    /// The tuples read so far, in the order of the pages.
    pub closed spec fn collected(&self) -> Seq<Tuple> {
        self.collected@
    }

    /// The continuation token of the next request.
    pub closed spec fn token(&self) -> Option<Seq<char>> {
        opt_view(self.token)
    }

    /// Whether the last page was read.
    pub closed spec fn done(&self) -> bool {
        self.done
    }

    /// A read with the given filter, before its first page: a filter that names no
    /// object is applied to the tuples read instead of being sent.
    pub fn new(filter: Option<TupleKeyFilter>) -> (r: Self)
        ensures
            !r.done(),
            r.collected() == Seq::<Tuple>::empty(),
            r.token() is None,
            match filter {
                Some(f) => if f.object is None {
                    r.api_filter() is None && r.memory_filter() == Some(filter_view(f))
                } else {
                    r.api_filter() == Some(filter_view(f)) && r.memory_filter() is None
                },
                None => r.api_filter() is None && r.memory_filter() is None,
            },
    {
        let (api_filter, memory_filter) = match filter {
            Some(f) => if f.object.is_none() {
                (None, Some(f))
            } else {
                (Some(f), None)
            },
            None => (None, None),
        };
        ReadPager { api_filter, memory_filter, collected: Vec::new(), token: None, done: false }
    }

    /// The request for the next page: the filter sent to OpenFGA, pages of 100, and the
    /// continuation token; `None` when the last page was read.
    pub fn next_request(&self) -> (r: Option<ReadRequest>)
        ensures
            match r {
                Some(req) => !self.done() && match req.tuple_key {
                    Some(f) => self.api_filter() == Some(filter_view(f)),
                    None => self.api_filter() is None,
                } && req.page_size == Some(100i32) && opt_view(req.continuation_token)
                    == self.token(),
                None => self.done(),
            },
    {
        if self.done {
            return None;
        }
        let tuple_key = match &self.api_filter {
            Some(f) => Some(copy_filter(f)),
            None => None,
        };
        Some(ReadRequest { tuple_key, page_size: Some(100), continuation_token: copy_opt(&self.token) })
    }

    /// Takes in a page: its tuples are added, and the read is over unless the page has a
    /// non-empty continuation token, which the next request sends.
    pub fn receive(&mut self, page: ReadResponse)
        requires
            !old(self).done(),
        ensures
            final(self).collected() == old(self).collected() + page.tuples@,
            final(self).api_filter() == old(self).api_filter(),
            final(self).memory_filter() == old(self).memory_filter(),
            final(self).done() == !(opt_view(page.continuation_token) matches Some(t) && t.len() > 0),
            !final(self).done() ==> final(self).token() == opt_view(page.continuation_token),
    {
        let mut tuples = page.tuples;
        self.collected.append(&mut tuples);
        let more = match &page.continuation_token {
            Some(t) => t.as_str().is_empty() == false,
            None => false,
        };
        if more {
            self.token = page.continuation_token;
        } else {
            self.done = true;
        }
        proof {
            match opt_view(page.continuation_token) {
                Some(t) => {
                    if t.len() == 0 {
                        assert(t =~= Seq::<char>::empty());
                    }
                },
                None => {},
            }
        }
    }

    /// The tuples read, filtered here when the filter was not sent.
    pub fn finish(self) -> (r: Vec<Tuple>)
        ensures
            r@ == match self.memory_filter() {
                Some(f) => passing(self.collected(), f),
                None => self.collected(),
            },
    {
        match &self.memory_filter {
            Some(f) => retain_passing(self.collected, f),
            None => self.collected,
        }
    }
}

/// The tuples of `ts` that pass `f`, in order.
fn retain_passing(ts: Vec<Tuple>, f: &TupleKeyFilter) -> (r: Vec<Tuple>)
    ensures
        r@ == passing(ts@, filter_view(*f)),
{
    let ghost fv = filter_view(*f);
    let ghost pred = |t: Tuple| key_passes(t.key@, fv);
    let mut out: Vec<Tuple> = Vec::new();
    let ghost all = ts@;
    for t in it: ts.into_iter()
        invariant
            it.seq() == all,
            fv == filter_view(*f),
            pred == (|t: Tuple| key_passes(t.key@, fv)),
            out@ == all.take(it.index() as int).filter(pred),
    {
        proof {
            crate::openfga::catalog::lemma_filter_take_step(all, it.index() as int, pred);
        }
        if tuple_matches(&t.key, f) {
            out.push(t);
        }
    }
    assert(all.take(all.len() as int) =~= all);
    out
}

/// The first store named `name`.
pub fn find_store(stores: &Vec<Store>, name: &str) -> (r: Option<usize>)
    ensures
        match r {
            Some(i) => i < stores@.len() && stores@[i as int].name@ == name@ && forall|j: int|
                0 <= j < i ==> (#[trigger] stores@[j]).name@ != name@,
            None => forall|j: int| 0 <= j < stores@.len() ==> (#[trigger] stores@[j]).name@ != name@,
        },
{
    let n = stores.len();
    for i in 0..n
        invariant
            n == stores@.len(),
            forall|j: int| 0 <= j < i ==> (#[trigger] stores@[j]).name@ != name@,
    {
        if str_eq(stores[i].name.as_str(), name) {
            return Some(i);
        }
    }
    None
}

/// The store to use at start-up: the first store named like the configured one, or a
/// new store of that name.
pub enum StoreChoice {
    /// Use the store with this ID.
    Existing(String),
    /// Create a store with this request; its initial tuples are then written.
    Create(CreateStoreRequest),
}

/// Chooses the store to use among `stores`.
pub fn choose_store(stores: &Vec<Store>, store_name: &str) -> (r: StoreChoice)
    ensures
        match r {
            StoreChoice::Existing(id) => exists|i: int|
                0 <= i < stores@.len() && (#[trigger] stores@[i]).name@ == store_name@ && id@
                    == stores@[i].id@ && forall|j: int| 0 <= j < i ==> (#[trigger] stores@[j]).name@
                    != store_name@,
            StoreChoice::Create(req) => req.name@ == store_name@ && forall|j: int|
                0 <= j < stores@.len() ==> (#[trigger] stores@[j]).name@ != store_name@,
        },
{
    match find_store(stores, store_name) {
        Some(i) => StoreChoice::Existing(copy_string(&stores[i].id)),
        None => StoreChoice::Create(CreateStoreRequest { name: owned(store_name) }),
    }
}

/// The ID of the latest model among the listed ones: the first.
pub fn latest_model_id(ids: &Vec<String>) -> (r: Option<String>)
    ensures
        opt_view(r) == if ids@.len() > 0 { Some(ids@[0]@) } else { None },
{
    if ids.len() > 0 {
        Some(copy_string(&ids[0]))
    } else {
        None
    }
}

/// The keys of `s` in batches of `size`, in order; the last batch may be shorter.
pub open spec fn batches_spec(s: Seq<TupleKeyView>, size: nat) -> Seq<Seq<TupleKeyView>>
    decreases s.len(),
{
    if s.len() == 0 || size == 0 {
        Seq::empty()
    } else if s.len() <= size {
        seq![s]
    } else {
        seq![s.take(size as int)] + batches_spec(s.skip(size as int), size)
    }
}

/// The keys of all the batches, one batch after another.
pub open spec fn flatten_batches(b: Seq<Seq<TupleKeyView>>) -> Seq<TupleKeyView>
    decreases b.len(),
{
    if b.len() == 0 {
        Seq::empty()
    } else {
        b[0] + flatten_batches(b.drop_first())
    }
}

/// Law: splitting keys into batches of `size` loses, repeats and reorders none of them:
/// the batches, one after another, are the keys; each batch holds between 1 and `size`
/// keys.
pub proof fn law_batches_keep_every_key(s: Seq<TupleKeyView>, size: nat)
    requires
        size > 0,
    ensures
        flatten_batches(batches_spec(s, size)) == s,
        forall|i: int|
            0 <= i < batches_spec(s, size).len() ==> 0 < (#[trigger] batches_spec(s, size)[i]).len()
                <= size,
    decreases s.len(),
{
    if s.len() == 0 {
    } else if s.len() <= size {
        assert(batches_spec(s, size) == seq![s]);
        assert(seq![s].drop_first() =~= Seq::<Seq<TupleKeyView>>::empty());
        assert(flatten_batches(Seq::<Seq<TupleKeyView>>::empty()) == Seq::<TupleKeyView>::empty());
        assert(seq![s][0] == s);
        assert(flatten_batches(seq![s]) =~= s + Seq::<TupleKeyView>::empty());
        assert(s + Seq::<TupleKeyView>::empty() =~= s);
    } else {
        let rest = s.skip(size as int);
        law_batches_keep_every_key(rest, size);
        let b = batches_spec(s, size);
        assert(b == seq![s.take(size as int)] + batches_spec(rest, size));
        assert(b.drop_first() =~= batches_spec(rest, size));
        assert(s.take(size as int) + rest =~= s);
        assert forall|i: int| 0 <= i < b.len() implies 0 < (#[trigger] b[i]).len() <= size by {
            if i > 0 {
                assert(b[i] == batches_spec(rest, size)[i - 1]);
            }
        }
    }
}

/// Splits tuples into batches of `size`, as `chunks(size)` does.
pub fn chunk_tuples(tuples: Vec<TupleKey>, size: usize) -> (r: Vec<Vec<TupleKey>>)
    requires
        size > 0,
    ensures
        r@.map_values(|b: Vec<TupleKey>| keys_view(b@)) == batches_spec(keys_view(tuples@), size as nat),
{
    let ghost all = keys_view(tuples@);
    let ghost elems = tuples@;
    let mut out: Vec<Vec<TupleKey>> = Vec::new();
    let mut batch: Vec<TupleKey> = Vec::new();
    let n = tuples.len();
    proof {
        assert(all.skip(0) =~= all);
        assert(out@.map_values(|b: Vec<TupleKey>| keys_view(b@)) + batches_spec(all.skip(0), size as nat) =~= batches_spec(all, size as nat));
    }
    for t in it: tuples.into_iter()
        invariant
            it.seq() == elems,
            all == keys_view(elems),
            n == all.len(),
            size > 0,
            batch@.len() < size,
            batch@.len() <= it.index(),
            keys_view(batch@) == all.subrange(it.index() - batch@.len(), it.index() as int),
            out@.map_values(|b: Vec<TupleKey>| keys_view(b@)) + batches_spec(
                all.skip(it.index() - batch@.len()),
                size as nat,
            ) == batches_spec(all, size as nat),
    {
        let ghost i = it.index();
        assert(i < all.len());
        assert(t@ == all[i as int]);
        let ghost start = i - batch@.len();
        proof {
            crate::openfga::types::lemma_keys_view_push(batch@, t);
        }
        batch.push(t);
        assert(keys_view(batch@) =~= all.subrange(start, i + 1));
        if batch.len() == size {
            let full = batch;
            batch = Vec::new();
            proof {
                assert(start + size == i + 1);
                let s = all.skip(start);
                assert(s.len() >= size);
                if s.len() == size {
                    assert(s.take(size as int) =~= s);
                    assert(batches_spec(s, size as nat) == seq![s]);
                    assert(all.skip(i + 1) =~= Seq::<TupleKeyView>::empty());
                } else {
                    assert(batches_spec(s, size as nat) == seq![s.take(size as int)] + batches_spec(
                        s.skip(size as int),
                        size as nat,
                    ));
                    assert(s.skip(size as int) =~= all.skip(i + 1));
                }
                assert(s.take(size as int) =~= keys_view(full@));
                assert(out@.push(full).map_values(|b: Vec<TupleKey>| keys_view(b@)) =~= out@.map_values(
                    |b: Vec<TupleKey>| keys_view(b@),
                ).push(keys_view(full@)));
            }
            out.push(full);
            proof {
                assert(out@.map_values(|b: Vec<TupleKey>| keys_view(b@)) + batches_spec(
                    all.skip(i + 1),
                    size as nat,
                ) =~= batches_spec(all, size as nat));
            }
        }
    }
    if batch.len() > 0 {
        proof {
            let start = n - batch@.len();
            let s = all.skip(start);
            assert(s =~= keys_view(batch@));
            assert(batches_spec(s, size as nat) == seq![s]);
            assert(out@.push(batch).map_values(|b: Vec<TupleKey>| keys_view(b@)) =~= out@.map_values(
                |b: Vec<TupleKey>| keys_view(b@),
            ).push(keys_view(batch@)));
        }
        out.push(batch);
    } else {
        proof {
            assert(all.skip(n as int) =~= Seq::<TupleKeyView>::empty());
            assert(out@.map_values(|b: Vec<TupleKey>| keys_view(b@)) + Seq::empty() =~= out@.map_values(
                |b: Vec<TupleKey>| keys_view(b@),
            ));
        }
    }
    out
}

/// The initial tuples of a new store, in the batches of 50 in which they are written; a
/// batch that fails to be written does not stop the others.
pub fn initial_tuple_batches() -> (r: Vec<Vec<TupleKey>>)
    ensures
        r@.map_values(|b: Vec<TupleKey>| keys_view(b@)) == batches_spec(initial_tuples_spec(), 50),
{
    chunk_tuples(get_initial_tuples(), 50)
}

} // verus!
