//! What the reads of roles and groups give back of the tuples that were written.
//!
//! Each law takes the keys that a read returned (`keys`), which hold the written key,
//! and states that the read's filter passes the written key and that the names the
//! library collects from the read include the written name.
use vstd::prelude::*;
use crate::text::{strip_prefix_spec, has_prefix, lemma_first_index_of_props};
use super::types::TupleKeyView;
use super::schema::{user_type_spec, role_type_spec, group_type_spec};
use super::tuples::{user_crole_spec, group_member_spec, group_role_spec};
use super::reads::{collect_names, user_after, object_after};
use super::client::key_passes;
use super::roles::{role_creation_spec, created_role, role_prefix, is_system_role_spec, grant_key,
    granted_entry, granted_entries, law_permission_relation_round_trip};
use super::types::{Permission, permission_name_spec};
use super::resources::parse_object_spec;
use super::schema::{resource_object_spec, resource_object_all_spec};
use super::groups::{group_creation_spec, recorded_group, group_prefix};

verus! {

/// Stripping a prefix from a string that starts with it leaves the rest.
pub proof fn lemma_strip_prefix_concat(p: Seq<char>, x: Seq<char>)
    ensures
        strip_prefix_spec(p + x, p) == Some(x),
{
    assert((p + x).subrange(0, p.len() as int) =~= p);
    assert(has_prefix(p + x, p));
    assert((p + x).subrange(p.len() as int, (p + x).len() as int) =~= x);
}

/// A name that `f` gives for one of the first `n` keys is among the names collected
/// from them.
pub proof fn lemma_collect_names_contains(
    keys: Seq<TupleKeyView>,
    f: spec_fn(TupleKeyView) -> Option<Seq<char>>,
    n: nat,
    i: int,
    x: Seq<char>,
)
    requires
        0 <= i < n <= keys.len(),
        f(keys[i]) == Some(x),
    ensures
        collect_names(keys, f, n).contains(x),
    decreases n,
{
    let prev = collect_names(keys, f, (n - 1) as nat);
    if i == n - 1 {
        assert(collect_names(keys, f, n) == prev.push(x));
        assert(collect_names(keys, f, n)[prev.len() as int] == x);
    } else {
        lemma_collect_names_contains(keys, f, (n - 1) as nat, i, x);
        let j = choose|j: int| 0 <= j < prev.len() && prev[j] == x;
        match f(keys[n - 1]) {
            Some(y) => assert(prev.push(y)[j] == x),
            None => {},
        }
    }
}

/// A created custom role is listed: when the keys hold the tuple that creates role
/// `name` in organization `org_id`, and the name is not a system role's, the roles
/// collected from the keys include it.
pub proof fn law_created_role_is_listed(org_id: Seq<char>, name: Seq<char>, keys: Seq<TupleKeyView>)
    requires
        !is_system_role_spec(name),
        keys.contains(role_creation_spec(org_id, name)),
    ensures
        collect_names(keys, created_role(org_id), keys.len()).contains(name),
{
    let i = choose|i: int| 0 <= i < keys.len() && keys[i] == role_creation_spec(org_id, name);
    assert(role_type_spec(org_id, name) == role_prefix(org_id) + name);
    lemma_strip_prefix_concat(role_prefix(org_id), name);
    lemma_collect_names_contains(keys, created_role(org_id), keys.len(), i, name);
}

/// A created group is listed: when the keys hold the tuple that creates group `name` in
/// organization `org_id`, the groups collected from the keys include it.
pub proof fn law_created_group_is_listed(org_id: Seq<char>, name: Seq<char>, keys: Seq<TupleKeyView>)
    requires
        keys.contains(group_creation_spec(org_id, name)),
    ensures
        collect_names(keys, recorded_group(org_id), keys.len()).contains(name),
{
    let i = choose|i: int| 0 <= i < keys.len() && keys[i] == group_creation_spec(org_id, name);
    assert(group_type_spec(org_id, name) == group_prefix(org_id) + name);
    lemma_strip_prefix_concat(group_prefix(org_id), name);
    lemma_collect_names_contains(keys, recorded_group(org_id), keys.len(), i, name);
}

/// Assigning a role to a user is read back from both sides: the read of the role's users
/// and the read of the user's roles both pass the assignment; the users read from the
/// role include the user, and the roles read from the user include the role.
pub proof fn law_role_assignment_read_back(
    org_id: Seq<char>,
    role_name: Seq<char>,
    user_email: Seq<char>,
    keys: Seq<TupleKeyView>,
)
    requires
        keys.contains(user_crole_spec(org_id, role_name, user_email)),
    ensures
        key_passes(
            user_crole_spec(org_id, role_name, user_email),
            (None, Some("assigned"@), Some(role_type_spec(org_id, role_name))),
        ),
        key_passes(
            user_crole_spec(org_id, role_name, user_email),
            (Some(user_type_spec(user_email)), Some("assigned"@), None),
        ),
        collect_names(keys, user_after("user:"@), keys.len()).contains(user_email),
        collect_names(keys, object_after(role_prefix(org_id)), keys.len()).contains(role_name),
{
    let k = user_crole_spec(org_id, role_name, user_email);
    let i = choose|i: int| 0 <= i < keys.len() && keys[i] == k;
    lemma_strip_prefix_concat("user:"@, user_email);
    lemma_collect_names_contains(keys, user_after("user:"@), keys.len(), i, user_email);
    assert(role_type_spec(org_id, role_name) == role_prefix(org_id) + role_name);
    lemma_strip_prefix_concat(role_prefix(org_id), role_name);
    lemma_collect_names_contains(keys, object_after(role_prefix(org_id)), keys.len(), i, role_name);
}

/// Adding a user to a group is read back from both sides: the read of the group's members
/// and the read of the user's groups both pass the membership; the members read include
/// the user, and the groups read from the user include the group.
pub proof fn law_group_membership_read_back(
    org_id: Seq<char>,
    group_name: Seq<char>,
    user_email: Seq<char>,
    keys: Seq<TupleKeyView>,
)
    requires
        keys.contains(group_member_spec(org_id, group_name, user_email)),
    ensures
        key_passes(
            group_member_spec(org_id, group_name, user_email),
            (None, Some("member"@), Some(group_type_spec(org_id, group_name))),
        ),
        key_passes(
            group_member_spec(org_id, group_name, user_email),
            (Some(user_type_spec(user_email)), Some("member"@), None),
        ),
        collect_names(keys, user_after("user:"@), keys.len()).contains(user_email),
        collect_names(keys, object_after(group_prefix(org_id)), keys.len()).contains(group_name),
{
    let k = group_member_spec(org_id, group_name, user_email);
    let i = choose|i: int| 0 <= i < keys.len() && keys[i] == k;
    lemma_strip_prefix_concat("user:"@, user_email);
    lemma_collect_names_contains(keys, user_after("user:"@), keys.len(), i, user_email);
    assert(group_type_spec(org_id, group_name) == group_prefix(org_id) + group_name);
    lemma_strip_prefix_concat(group_prefix(org_id), group_name);
    lemma_collect_names_contains(keys, object_after(group_prefix(org_id)), keys.len(), i, group_name);
}

/// Assigning a role to a group is read back: the read of the group's roles passes the
/// assignment, and the roles read include the role.
pub proof fn law_group_role_read_back(
    org_id: Seq<char>,
    group_name: Seq<char>,
    role_name: Seq<char>,
    keys: Seq<TupleKeyView>,
)
    requires
        keys.contains(group_role_spec(org_id, group_name, role_name)),
    ensures
        key_passes(
            group_role_spec(org_id, group_name, role_name),
            (Some(group_type_spec(org_id, group_name)), Some("grp_assigned"@), None),
        ),
        collect_names(keys, object_after(role_prefix(org_id)), keys.len()).contains(role_name),
{
    let k = group_role_spec(org_id, group_name, role_name);
    let i = choose|i: int| 0 <= i < keys.len() && keys[i] == k;
    assert(role_type_spec(org_id, role_name) == role_prefix(org_id) + role_name);
    lemma_strip_prefix_concat(role_prefix(org_id), role_name);
    lemma_collect_names_contains(keys, object_after(role_prefix(org_id)), keys.len(), i, role_name);
}

/// An entry that one of the first `n` keys gives is among the entries read from them.
pub proof fn lemma_granted_entries_contains(
    resource_type: Seq<char>,
    keys: Seq<TupleKeyView>,
    n: nat,
    i: int,
    e: (Seq<char>, Seq<char>),
)
    requires
        0 <= i < n <= keys.len(),
        granted_entry(resource_type, keys[i]) == Some(e),
    ensures
        granted_entries(resource_type, keys, n).contains(e),
    decreases n,
{
    let prev = granted_entries(resource_type, keys, (n - 1) as nat);
    if i == n - 1 {
        assert(granted_entries(resource_type, keys, n)[prev.len() as int] == e);
    } else {
        lemma_granted_entries_contains(resource_type, keys, (n - 1) as nat, i, e);
        let j = choose|j: int| 0 <= j < prev.len() && prev[j] == e;
        match granted_entry(resource_type, keys[n - 1]) {
            Some(y) => assert(prev.push(y)[j] == e),
            None => {},
        }
    }
}

/// A permission granted to a role is read back: for an object "{type}:{entity}" whose
/// entity is a single entity or the organization's "_all_{org_id}", and a permission
/// named as `Permission::as_str` names it, the grant tuple passes the read of the role's
/// grants, and the permissions read for the type from any keys that hold it include the
/// granted entry, unchanged.
pub proof fn law_role_permission_read_back(
    org_id: Seq<char>,
    role_name: Seq<char>,
    object: Seq<char>,
    p: Permission,
    keys: Seq<TupleKeyView>,
)
    requires
        match parse_object_spec(object) {
            Some((_, entity)) => !has_prefix(entity, "_all"@) || entity == "_all_"@ + org_id,
            None => false,
        },
        match grant_key(org_id, role_name, (object, permission_name_spec(p))) {
            Some(k) => keys.contains(k),
            None => true,
        },
    ensures
        match (parse_object_spec(object), grant_key(org_id, role_name, (object, permission_name_spec(p)))) {
            (Some((resource_type, _)), Some(k)) => {
                &&& key_passes(k, (Some(role_type_spec(org_id, role_name) + "#has"@), None, None))
                &&& granted_entry(resource_type, k) == Some((object, permission_name_spec(p)))
                &&& granted_entries(resource_type, keys, keys.len()).contains(
                    (object, permission_name_spec(p)),
                )
            },
            _ => false,
        },
{
    reveal_strlit(":");
    reveal_strlit("_all");
    reveal_strlit("_all_");
    reveal_strlit(":_all_");
    lemma_first_index_of_props(object, ':');
    let (resource_type, entity) = parse_object_spec(object).unwrap();
    assert(object =~= resource_type + ":"@ + entity);
    let k = grant_key(org_id, role_name, (object, permission_name_spec(p))).unwrap();
    law_permission_relation_round_trip(p);
    if has_prefix(entity, "_all"@) {
        assert(k.2 == resource_object_all_spec(org_id, resource_type));
        assert(k.2 =~= resource_type + ":"@ + entity);
    } else {
        assert(k.2 == resource_object_spec(resource_type, entity));
    }
    assert(k.2 == object);
    lemma_strip_prefix_concat(resource_type + ":"@, entity);
    assert(resource_type + ":"@ + entity =~= (resource_type + ":"@) + entity);
    assert(granted_entry(resource_type, k) == Some((object, permission_name_spec(p))));
    let j = choose|j: int| 0 <= j < keys.len() && keys[j] == k;
    lemma_granted_entries_contains(resource_type, keys, keys.len(), j, (object, permission_name_spec(p)));
}

} // verus!
