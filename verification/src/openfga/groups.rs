//! Groups: the tuples that create and change them, and what is read back from the
//! stored tuples.
use vstd::prelude::*;
use crate::text::{views_of, concat2, concat3, owned, str_eq, strip_prefix, strip_prefix_spec,
    capitalize, capitalize_spec, copy_string};
use crate::sorted::{strictly_sorted, sorted_unique};
use super::types::{Tuple, TupleKey, TupleKeyView, TupleKeyFilter, GroupResponse, keys_view,
    push_key, opt_view};
use super::schema::{group_type, group_type_spec, user_type, user_type_spec};
use super::tuples::{get_group_member_tuple, group_member_spec, get_group_role_tuple,
    group_role_spec};
use super::reads::{tuple_keys_view, filter_view, make_filter, collect_names, objects_after,
    object_after};
use super::roles::{any_equal_ignoring_case, contains_ignoring_case, role_prefix};
use super::error::Error;

verus! {

/// The tuple that creates a group: "org:{org_id}" owns the group object.
pub open spec fn group_creation_spec(org_id: Seq<char>, name: Seq<char>) -> TupleKeyView {
    ("org:"@ + org_id, "owningOrg"@, group_type_spec(org_id, name))
}

/// What creating a group writes, given the groups of the organization: the creation
/// tuple; an error when a group of that name exists, ignoring ASCII case.
pub fn plan_create_group(existing: &Vec<String>, org_id: &str, name: &str) -> (r: Result<
    TupleKey,
    Error,
>)
    ensures
        match r {
            Ok(t) => !contains_ignoring_case(views_of(existing@), name@) && t@
                == group_creation_spec(org_id@, name@),
            Err(Error::DuplicateEntry(m)) => contains_ignoring_case(views_of(existing@), name@)
                && m@ == "Group '"@ + name@ + "' already exists"@,
            Err(_) => false,
        },
{
    if any_equal_ignoring_case(existing, name) {
        return Err(Error::DuplicateEntry(concat3("Group '", name, "' already exists")));
    }
    let group_object = group_type(org_id, name);
    let org_object = concat2("org:", org_id);
    Ok(TupleKey::new(org_object.as_str(), "owningOrg", group_object.as_str()))
}

/// The prefix of the group objects of an organization: "group:{org_id}_".
pub open spec fn group_prefix(org_id: Seq<char>) -> Seq<char> {
    "group:"@ + org_id + "_"@
}

/// The group that a key records in the organization: an "owningOrg" key from
/// "org:{org_id}" on "group:{org_id}_{name}", or any "member" key on such an object.
pub open spec fn recorded_group(org_id: Seq<char>) -> spec_fn(TupleKeyView) -> Option<Seq<char>> {
    |k: TupleKeyView|
        if (k.1 == "owningOrg"@ && k.0 == "org:"@ + org_id) || k.1 == "member"@ {
            strip_prefix_spec(k.2, group_prefix(org_id))
        } else {
            None
        }
}

/// The groups of an organization recorded in `tuples`, sorted, each once.
pub fn group_names(tuples: &Vec<Tuple>, org_id: &str) -> (r: Vec<String>)
    ensures
        strictly_sorted(views_of(r@)),
        views_of(r@).to_set() == collect_names(
            tuple_keys_view(tuples@),
            recorded_group(org_id@),
            tuples@.len(),
        ).to_set(),
{
    let ghost keys = tuple_keys_view(tuples@);
    let prefix = concat3("group:", org_id, "_");
    let org_user = concat2("org:", org_id);
    let mut names: Vec<String> = Vec::new();
    let n = tuples.len();
    for i in 0..n
        invariant
            n == tuples@.len(),
            keys == tuple_keys_view(tuples@),
            prefix@ == group_prefix(org_id@),
            org_user@ == "org:"@ + org_id@,
            views_of(names@) == collect_names(keys, recorded_group(org_id@), i as nat),
    {
        let key = &tuples[i].key;
        assert(keys[i as int] == key@);
        let created = str_eq(key.relation.as_str(), "owningOrg") && str_eq(
            key.user.as_str(),
            org_user.as_str(),
        );
        if created || str_eq(key.relation.as_str(), "member") {
            match strip_prefix(key.object.as_str(), prefix.as_str()) {
                Some(name) => {
                    let s = owned(name);
                    assert(views_of(names@.push(s)) =~= views_of(names@).push(s@));
                    names.push(s);
                },
                None => {},
            }
        }
    }
    sorted_unique(names)
}

/// The read that finds the members of a group.
pub fn group_member_filter(org_id: &str, name: &str) -> (r: TupleKeyFilter)
    ensures
        filter_view(r) == (None::<Seq<char>>, Some("member"@), Some(group_type_spec(org_id@, name@))),
{
    let group_object = group_type(org_id, name);
    make_filter(None, Some("member"), Some(group_object.as_str()))
}

/// The read that finds the roles assigned to a group.
pub fn group_roles_filter(org_id: &str, name: &str) -> (r: TupleKeyFilter)
    ensures
        filter_view(r) == (
            Some(group_type_spec(org_id@, name@)),
            Some("grp_assigned"@),
            None::<Seq<char>>,
        ),
{
    let group_object = group_type(org_id, name);
    make_filter(Some(group_object.as_str()), Some("grp_assigned"), None)
}

/// The read that finds every tuple on a group object.
pub fn group_tuples_filter(org_id: &str, name: &str) -> (r: TupleKeyFilter)
    ensures
        filter_view(r) == (None::<Seq<char>>, None::<Seq<char>>, Some(group_type_spec(org_id@, name@))),
{
    let group_object = group_type(org_id, name);
    make_filter(None, None, Some(group_object.as_str()))
}

/// The read that finds the role assignments whose user is the group's members,
/// "{group object}#member".
pub fn group_member_grants_filter(org_id: &str, name: &str) -> (r: TupleKeyFilter)
    ensures
        filter_view(r) == (
            Some(group_type_spec(org_id@, name@) + "#member"@),
            None::<Seq<char>>,
            None::<Seq<char>>,
        ),
{
    let group_object = group_type(org_id, name);
    let member = concat2(group_object.as_str(), "#member");
    make_filter(Some(member.as_str()), None, None)
}

/// The role names that keys on "role:{org_id}_{name}" objects give, in order.
pub fn org_role_names(tuples: &Vec<Tuple>, org_id: &str) -> (r: Vec<String>)
    ensures
        views_of(r@) == collect_names(
            tuple_keys_view(tuples@),
            object_after(role_prefix(org_id@)),
            tuples@.len(),
        ),
{
    let prefix = concat3("role:", org_id, "_");
    objects_after(tuples, prefix.as_str())
}

/// The group names that keys on "group:{org_id}_{name}" objects give, in order.
pub fn org_group_names(tuples: &Vec<Tuple>, org_id: &str) -> (r: Vec<String>)
    ensures
        views_of(r@) == collect_names(
            tuple_keys_view(tuples@),
            object_after(group_prefix(org_id@)),
            tuples@.len(),
        ),
{
    let prefix = concat3("group:", org_id, "_");
    objects_after(tuples, prefix.as_str())
}

/// Whether looking a group up must read every tuple on it to tell whether it exists:
/// when it has neither members nor roles.
pub fn needs_existence_check(users: &Vec<String>, roles: &Vec<String>) -> (r: bool)
    ensures
        r == (users@.len() == 0 && roles@.len() == 0),
{
    users.len() == 0 && roles.len() == 0
}

/// The answer of a group lookup: not found when it had neither members nor roles and no
/// tuple is on it; otherwise its details, displayed under its capitalized name, with the
/// given identifier and time for both timestamps.
pub fn group_lookup_result(
    name: &str,
    users: Vec<String>,
    roles: Vec<String>,
    any_tuple_on_group: bool,
    id: String,
    now: i64,
) -> (r: Result<GroupResponse, Error>)
    ensures
        match r {
            Ok(g) => !(users@.len() == 0 && roles@.len() == 0 && !any_tuple_on_group) && g.id == id
                && g.name@ == name@ && opt_view(g.display_name) == Some(capitalize_spec(name@))
                && g.description is None && g.roles == roles && g.users == users && g.created_at
                == now && g.updated_at == now,
            Err(Error::GroupNotFound(m)) => users@.len() == 0 && roles@.len() == 0
                && !any_tuple_on_group && m@ == name@,
            Err(_) => false,
        },
{
    if users.len() == 0 && roles.len() == 0 && !any_tuple_on_group {
        return Err(Error::GroupNotFound(owned(name)));
    }
    Ok(GroupResponse {
        id,
        name: owned(name),
        display_name: Some(capitalize(name)),
        description: None,
        roles,
        users,
        created_at: now,
        updated_at: now,
    })
}

/// The tuples that add (or, deleted, remove) each of `users` as members of a group.
pub fn group_user_tuples(org_id: &str, name: &str, users: &Vec<String>) -> (r: Vec<TupleKey>)
    ensures
        keys_view(r@) == views_of(users@).map_values(
            |u: Seq<char>| group_member_spec(org_id@, name@, u),
        ),
{
    let mut out: Vec<TupleKey> = Vec::new();
    let n = users.len();
    for i in 0..n
        invariant
            n == users@.len(),
            keys_view(out@) == views_of(users@).take(i as int).map_values(
                |u: Seq<char>| group_member_spec(org_id@, name@, u),
            ),
    {
        assert(views_of(users@).take(i + 1) =~= views_of(users@).take(i as int).push(
            users@[i as int]@,
        ));
        push_key(&mut out, get_group_member_tuple(org_id, name, users[i].as_str()));
        assert(keys_view(out@) =~= views_of(users@).take(i + 1).map_values(
            |u: Seq<char>| group_member_spec(org_id@, name@, u),
        ));
    }
    assert(views_of(users@).take(n as int) =~= views_of(users@));
    out
}

/// The tuples that assign (or, deleted, unassign) each of `roles` to a group.
pub fn group_role_tuples(org_id: &str, name: &str, roles: &Vec<String>) -> (r: Vec<TupleKey>)
    ensures
        keys_view(r@) == views_of(roles@).map_values(
            |x: Seq<char>| group_role_spec(org_id@, name@, x),
        ),
{
    let mut out: Vec<TupleKey> = Vec::new();
    let n = roles.len();
    for i in 0..n
        invariant
            n == roles@.len(),
            keys_view(out@) == views_of(roles@).take(i as int).map_values(
                |x: Seq<char>| group_role_spec(org_id@, name@, x),
            ),
    {
        assert(views_of(roles@).take(i + 1) =~= views_of(roles@).take(i as int).push(
            roles@[i as int]@,
        ));
        push_key(&mut out, get_group_role_tuple(org_id, name, roles[i].as_str()));
        assert(keys_view(out@) =~= views_of(roles@).take(i + 1).map_values(
            |x: Seq<char>| group_role_spec(org_id@, name@, x),
        ));
    }
    assert(views_of(roles@).take(n as int) =~= views_of(roles@));
    out
}

/// The read that finds the groups a user is a member of.
pub fn user_groups_filter(user_email: &str) -> (r: TupleKeyFilter)
    ensures
        filter_view(r) == (Some(user_type_spec(user_email@)), Some("member"@), None::<Seq<char>>),
{
    let user = user_type(user_email);
    make_filter(Some(user.as_str()), Some("member"), None)
}

/// The read that finds the roles assigned to a user directly.
pub fn user_roles_filter(user_email: &str) -> (r: TupleKeyFilter)
    ensures
        filter_view(r) == (Some(user_type_spec(user_email@)), Some("assigned"@), None::<Seq<char>>),
{
    let user = user_type(user_email);
    make_filter(Some(user.as_str()), Some("assigned"), None)
}

/// The role names of all the first `n` reads, each read's in order.
pub open spec fn roles_of_reads(reads: Seq<Seq<TupleKeyView>>, org_id: Seq<char>, n: nat) -> Seq<
    Seq<char>,
>
    decreases n,
{
    if n == 0 || n > reads.len() {
        Seq::empty()
    } else {
        roles_of_reads(reads, org_id, (n - 1) as nat) + collect_names(
            reads[n - 1],
            object_after(role_prefix(org_id)),
            reads[n - 1].len(),
        )
    }
}

/// The roles of a user: those of the direct assignments and those of the groups' role
/// assignments, sorted, each once.
pub fn user_role_names(direct: &Vec<Tuple>, group_reads: &Vec<Vec<Tuple>>, org_id: &str) -> (r: Vec<
    String,
>)
    ensures
        strictly_sorted(views_of(r@)),
        views_of(r@).to_set() == (collect_names(
            tuple_keys_view(direct@),
            object_after(role_prefix(org_id@)),
            direct@.len(),
        ) + roles_of_reads(
            group_reads@.map_values(|ts: Vec<Tuple>| tuple_keys_view(ts@)),
            org_id@,
            group_reads@.len(),
        )).to_set(),
{
    let ghost reads = group_reads@.map_values(|ts: Vec<Tuple>| tuple_keys_view(ts@));
    let ghost first = collect_names(
        tuple_keys_view(direct@),
        object_after(role_prefix(org_id@)),
        direct@.len(),
    );
    let mut names = org_role_names(direct, org_id);
    let n = group_reads.len();
    for i in 0..n
        invariant
            n == group_reads@.len(),
            reads == group_reads@.map_values(|ts: Vec<Tuple>| tuple_keys_view(ts@)),
            views_of(names@) == first + roles_of_reads(reads, org_id@, i as nat),
    {
        assert(reads[i as int] == tuple_keys_view(group_reads@[i as int]@));
        let more = org_role_names(&group_reads[i], org_id);
        let ghost before = views_of(names@);
        let m = more.len();
        for j in 0..m
            invariant
                m == more@.len(),
                views_of(names@) == before + views_of(more@).take(j as int),
        {
            let s = copy_string(&more[j]);
            assert(views_of(more@)[j as int] == s@);
            assert(views_of(more@).take(j + 1) =~= views_of(more@).take(j as int).push(s@));
            assert(views_of(names@.push(s)) =~= views_of(names@).push(s@));
            assert(views_of(names@.push(s)) =~= before + views_of(more@).take(j + 1));
            names.push(s);
        }
        assert(views_of(more@).take(m as int) =~= views_of(more@));
        assert(first + roles_of_reads(reads, org_id@, (i + 1) as nat) =~= before + views_of(more@));
    }
    sorted_unique(names)
}

} // verus!
