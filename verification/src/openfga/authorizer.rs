//! The decisions of the authorizer API: which roles and groups a caller may see, the
//! details of a role, and the tuple changes that updating a role or a group makes.
use vstd::prelude::*;
use crate::text::{eq_ignore_ascii_case_spec, views_of, owned, capitalize, capitalize_spec,
    copy_string};
use super::types::{TupleKey, TupleKeyView, PermissionEntry, RoleResponse, UserRoleOption,
    keys_view};
use super::roles::{any_equal_ignoring_case, contains_ignoring_case, role_permission_tuples,
    grant_keys, entry_view, role_user_tuples, list_system_roles, custom_role_options,
    option_view, custom_options_spec};
use super::tuples::user_crole_spec;
use super::groups::{group_user_tuples, group_role_tuples};
use super::tuples::{group_member_spec, group_role_spec};

verus! {

/// The names of `all` that the caller may see: all of them without a restriction,
/// otherwise those equal, ignoring ASCII case, to a permitted name; in order.
pub open spec fn permitted_names(all: Seq<Seq<char>>, permitted: Option<Seq<Seq<char>>>) -> Seq<
    Seq<char>,
> {
    match permitted {
        None => all,
        Some(p) => all.filter(|n: Seq<char>| contains_ignoring_case(p, n)),
    }
}

/// The names of `all` that the caller may see.
pub fn filter_permitted(all: Vec<String>, permitted: Option<Vec<String>>) -> (r: Vec<String>)
    ensures
        views_of(r@) == permitted_names(
            views_of(all@),
            match permitted {
                Some(p) => Some(views_of(p@)),
                None => None,
            },
        ),
{
    match permitted {
        None => all,
        Some(allowed) => {
            let ghost pv = views_of(allowed@);
            let ghost pred = |n: Seq<char>| contains_ignoring_case(pv, n);
            let ghost av = views_of(all@);
            let mut out: Vec<String> = Vec::new();
            let n = all.len();
            for i in 0..n
                invariant
                    n == all@.len(),
                    av == views_of(all@),
                    pv == views_of(allowed@),
                    pred == (|n: Seq<char>| contains_ignoring_case(pv, n)),
                    views_of(out@) == av.take(i as int).filter(pred),
            {
                proof {
                    crate::openfga::catalog::lemma_filter_take_step(av, i as int, pred);
                }
                assert(av[i as int] == all@[i as int]@);
                if any_equal_ignoring_case(&allowed, all[i].as_str()) {
                    let s = copy_string(&all[i]);
                    assert(views_of(out@.push(s)) =~= views_of(out@).push(s@));
                    out.push(s);
                }
            }
            assert(av.take(n as int) =~= av);
            out
        },
    }
}

/// The details of a role: its name, its capitalized name as label, its users, and the
/// given time for both timestamps.
pub fn role_details(role_name: &str, users: Vec<String>, now: i64) -> (r: RoleResponse)
    ensures
        r.name@ == role_name@,
        r.label@ == capitalize_spec(role_name@),
        r.users == users,
        r.created_at == now,
        r.updated_at == now,
{
    RoleResponse { name: owned(role_name), label: capitalize(role_name), users, created_at: now, updated_at: now }
}

/// Every role option of an organization: the system roles, then the custom roles among
/// `roles`.
pub fn all_role_options(org_id: &str, roles: &Vec<String>) -> (r: Vec<UserRoleOption>)
    ensures
        r@.map_values(|o: UserRoleOption| option_view(o)) == seq![
            (capitalize_spec("admin"@), "admin"@),
            (capitalize_spec("editor"@), "editor"@),
            (capitalize_spec("viewer"@), "viewer"@),
        ] + custom_options_spec(views_of(roles@), roles@.len()),
{
    let mut options = list_system_roles(org_id);
    let mut custom = custom_role_options(roles);
    let ghost a = options@;
    let ghost b = custom@;
    options.append(&mut custom);
    assert(options@.map_values(|o: UserRoleOption| option_view(o)) =~= a.map_values(
        |o: UserRoleOption| option_view(o),
    ) + b.map_values(|o: UserRoleOption| option_view(o)));
    options
}

/// One change of tuples: the tuples to write and the tuples to delete.
pub type TupleChange = (Vec<TupleKey>, Vec<TupleKey>);

/// The abstract value of a sequence of changes.
pub open spec fn changes_view(c: Seq<TupleChange>) -> Seq<(Seq<TupleKeyView>, Seq<TupleKeyView>)> {
    c.map_values(|x: TupleChange| (keys_view(x.0@), keys_view(x.1@)))
}

/// `seq![w]` as a write when `w` is not empty, else nothing.
pub open spec fn write_step(w: Seq<TupleKeyView>) -> Seq<(Seq<TupleKeyView>, Seq<TupleKeyView>)> {
    if w.len() > 0 {
        seq![(w, Seq::empty())]
    } else {
        Seq::empty()
    }
}

/// `seq![d]` as a deletion when `d` is not empty, else nothing.
pub open spec fn delete_step(d: Seq<TupleKeyView>) -> Seq<(Seq<TupleKeyView>, Seq<TupleKeyView>)> {
    if d.len() > 0 {
        seq![(Seq::empty(), d)]
    } else {
        Seq::empty()
    }
}

/// Appends a write of `w` when it is not empty.
fn push_write(out: &mut Vec<TupleChange>, w: Vec<TupleKey>)
    ensures
        changes_view(final(out)@) == changes_view(old(out)@) + write_step(keys_view(w@)),
{
    if w.len() > 0 {
        let c: TupleChange = (w, Vec::new());
        assert(keys_view(c.1@) =~= Seq::<TupleKeyView>::empty());
        assert(changes_view(out@.push(c)) =~= changes_view(out@) + write_step(keys_view(c.0@)));
        out.push(c);
    } else {
        assert(changes_view(out@) + write_step(keys_view(w@)) =~= changes_view(out@));
    }
}

/// Appends a deletion of `d` when it is not empty.
fn push_delete(out: &mut Vec<TupleChange>, d: Vec<TupleKey>)
    ensures
        changes_view(final(out)@) == changes_view(old(out)@) + delete_step(keys_view(d@)),
{
    if d.len() > 0 {
        let c: TupleChange = (Vec::new(), d);
        assert(keys_view(c.0@) =~= Seq::<TupleKeyView>::empty());
        assert(changes_view(out@.push(c)) =~= changes_view(out@) + delete_step(keys_view(c.1@)));
        out.push(c);
    } else {
        assert(changes_view(out@) + delete_step(keys_view(d@)) =~= changes_view(out@));
    }
}

/// The abstract value of optional permission entries.
pub open spec fn entries_view(e: Option<Vec<PermissionEntry>>) -> Seq<(Seq<char>, Seq<char>)> {
    match e {
        Some(v) => v@.map_values(|x: PermissionEntry| entry_view(x)),
        None => Seq::empty(),
    }
}

/// The abstract value of optional names.
pub open spec fn names_view(n: Option<Vec<String>>) -> Seq<Seq<char>> {
    match n {
        Some(v) => views_of(v@),
        None => Seq::empty(),
    }
}

/// The grant keys of optional permission entries.
fn grants_of(org_id: &str, role_name: &str, e: &Option<Vec<PermissionEntry>>) -> (r: Vec<TupleKey>)
    ensures
        keys_view(r@) == grant_keys(org_id@, role_name@, entries_view(*e), entries_view(*e).len()),
{
    match e {
        Some(v) => role_permission_tuples(org_id, role_name, v),
        None => Vec::new(),
    }
}

/// The role-assignment keys of optional users.
fn assignments_of(org_id: &str, role_name: &str, users: &Option<Vec<String>>) -> (r: Vec<TupleKey>)
    ensures
        keys_view(r@) == names_view(*users).map_values(
            |u: Seq<char>| user_crole_spec(org_id@, role_name@, u),
        ),
{
    match users {
        Some(v) => role_user_tuples(org_id, role_name, v),
        None => {
            let r: Vec<TupleKey> = Vec::new();
            assert(keys_view(r@) =~= names_view(*users).map_values(
                |u: Seq<char>| user_crole_spec(org_id@, role_name@, u),
            ));
            r
        },
    }
}

/// The changes that updating a role makes, one request each, in order: granting the
/// added permissions, revoking the removed ones, assigning the added users, unassigning
/// the removed ones; a step with no tuples is left out.
pub fn role_update_changes(
    org_id: &str,
    role_name: &str,
    add: &Option<Vec<PermissionEntry>>,
    remove: &Option<Vec<PermissionEntry>>,
    add_users: &Option<Vec<String>>,
    remove_users: &Option<Vec<String>>,
) -> (r: Vec<TupleChange>)
    ensures
        changes_view(r@) == write_step(
            grant_keys(org_id@, role_name@, entries_view(*add), entries_view(*add).len()),
        ) + delete_step(
            grant_keys(org_id@, role_name@, entries_view(*remove), entries_view(*remove).len()),
        ) + write_step(
            names_view(*add_users).map_values(|u: Seq<char>| user_crole_spec(org_id@, role_name@, u)),
        ) + delete_step(
            names_view(*remove_users).map_values(
                |u: Seq<char>| user_crole_spec(org_id@, role_name@, u),
            ),
        ),
{
    let mut out: Vec<TupleChange> = Vec::new();
    assert(changes_view(out@) =~= Seq::<(Seq<TupleKeyView>, Seq<TupleKeyView>)>::empty());
    push_write(&mut out, grants_of(org_id, role_name, add));
    push_delete(&mut out, grants_of(org_id, role_name, remove));
    push_write(&mut out, assignments_of(org_id, role_name, add_users));
    push_delete(&mut out, assignments_of(org_id, role_name, remove_users));
    out
}

/// The membership keys of optional users.
fn memberships_of(org_id: &str, name: &str, users: &Option<Vec<String>>) -> (r: Vec<TupleKey>)
    ensures
        keys_view(r@) == names_view(*users).map_values(
            |u: Seq<char>| group_member_spec(org_id@, name@, u),
        ),
{
    match users {
        Some(v) => group_user_tuples(org_id, name, v),
        None => {
            let r: Vec<TupleKey> = Vec::new();
            assert(keys_view(r@) =~= names_view(*users).map_values(
                |u: Seq<char>| group_member_spec(org_id@, name@, u),
            ));
            r
        },
    }
}

/// The group role-assignment keys of optional roles.
fn group_roles_of(org_id: &str, name: &str, roles: &Option<Vec<String>>) -> (r: Vec<TupleKey>)
    ensures
        keys_view(r@) == names_view(*roles).map_values(
            |x: Seq<char>| group_role_spec(org_id@, name@, x),
        ),
{
    match roles {
        Some(v) => group_role_tuples(org_id, name, v),
        None => {
            let r: Vec<TupleKey> = Vec::new();
            assert(keys_view(r@) =~= names_view(*roles).map_values(
                |x: Seq<char>| group_role_spec(org_id@, name@, x),
            ));
            r
        },
    }
}

/// The changes that updating a group makes, one request each, in order: adding users,
/// removing users, assigning roles, unassigning roles; a step with no tuples is left out.
pub fn group_update_changes(
    org_id: &str,
    name: &str,
    add_users: &Option<Vec<String>>,
    remove_users: &Option<Vec<String>>,
    add_roles: &Option<Vec<String>>,
    remove_roles: &Option<Vec<String>>,
) -> (r: Vec<TupleChange>)
    ensures
        changes_view(r@) == write_step(
            names_view(*add_users).map_values(|u: Seq<char>| group_member_spec(org_id@, name@, u)),
        ) + delete_step(
            names_view(*remove_users).map_values(|u: Seq<char>| group_member_spec(org_id@, name@, u)),
        ) + write_step(
            names_view(*add_roles).map_values(|x: Seq<char>| group_role_spec(org_id@, name@, x)),
        ) + delete_step(
            names_view(*remove_roles).map_values(|x: Seq<char>| group_role_spec(org_id@, name@, x)),
        ),
{
    let mut out: Vec<TupleChange> = Vec::new();
    assert(changes_view(out@) =~= Seq::<(Seq<TupleKeyView>, Seq<TupleKeyView>)>::empty());
    push_write(&mut out, memberships_of(org_id, name, add_users));
    push_delete(&mut out, memberships_of(org_id, name, remove_users));
    push_write(&mut out, group_roles_of(org_id, name, add_roles));
    push_delete(&mut out, group_roles_of(org_id, name, remove_roles));
    out
}

} // verus!
