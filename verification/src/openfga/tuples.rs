//! Builders for the tuples that record memberships, roles and ownership.
use vstd::prelude::*;
use crate::text::{lower_text, str_eq, to_lowercase, concat2};
use super::types::{TupleKey, TupleKeyView, keys_view, push_key};
use super::schema::{
    org_type, user_type, role_type, group_type, resource_object, resource_object_all,
    org_type_spec, user_type_spec, role_type_spec, group_type_spec, resource_object_spec,
    resource_object_all_spec,
};

verus! {

/// The relation on the organization that a lower-cased system role name maps to.
pub open spec fn role_relation_from_lowercase(l: Seq<char>) -> Seq<char> {
    if l == "root"@ || l == "admin"@ {
        "admin"@
    } else if l == "editor"@ {
        "editor"@
    } else if l == "viewer"@ {
        "viewer"@
    } else {
        "allowed_user"@
    }
}

/// The relation on the organization that a system role maps to (case-insensitive).
pub open spec fn role_relation_spec(role: Seq<char>) -> Seq<char> {
    role_relation_from_lowercase(lower_text(role))
}

/// Maps an already lower-cased system role name to its organization relation.
pub fn role_relation_from_lowercase_name(l: &str) -> (r: &'static str)
    ensures
        r@ == role_relation_from_lowercase(l@),
{
    if str_eq(l, "root") || str_eq(l, "admin") {
        "admin"
    } else if str_eq(l, "editor") {
        "editor"
    } else if str_eq(l, "viewer") {
        "viewer"
    } else {
        "allowed_user"
    }
}

/// Maps a system role (root, admin, editor, viewer, user, service account) to the
/// relation it grants on the organization; unknown roles grant basic user access.
pub fn role_to_fga_relation(role: &str) -> (r: &'static str)
    ensures
        r@ == role_relation_spec(role@),
{
    let l = to_lowercase(role);
    role_relation_from_lowercase_name(l.as_str())
}

/// The two tuples that put a user in an organization with a system role.
pub open spec fn add_user_to_org_spec(org_id: Seq<char>, user_email: Seq<char>, role: Seq<char>) -> Seq<TupleKeyView> {
    seq![
        (user_type_spec(user_email), role_relation_spec(role), org_type_spec(org_id)),
        (user_type_spec(user_email), "org_context"@, org_type_spec(org_id)),
    ]
}

/// Appends the role tuple and the organization-context tuple of a user.
pub fn get_add_user_to_org_tuples(org_id: &str, user_email: &str, role: &str, tuples: &mut Vec<TupleKey>)
    ensures
        keys_view(final(tuples)@) == keys_view(old(tuples)@) + add_user_to_org_spec(org_id@, user_email@, role@),
{
    let user = user_type(user_email);
    let org = org_type(org_id);
    let relation = role_to_fga_relation(role);
    let ghost start = keys_view(tuples@);
    push_key(tuples, TupleKey::new(user.as_str(), relation, org.as_str()));
    push_key(tuples, TupleKey::new(user.as_str(), "org_context", org.as_str()));
    assert(keys_view(tuples@) =~= start + add_user_to_org_spec(org_id@, user_email@, role@));
}

/// The tuple that assigns a custom role to a user.
pub open spec fn user_crole_spec(org_id: Seq<char>, role_name: Seq<char>, user_email: Seq<char>) -> TupleKeyView {
    (user_type_spec(user_email), "assigned"@, role_type_spec(org_id, role_name))
}

/// The tuple that assigns a custom role to a user.
pub fn get_user_crole_tuple(org_id: &str, role_name: &str, user_email: &str) -> (r: TupleKey)
    ensures
        r@ == user_crole_spec(org_id@, role_name@, user_email@),
{
    let user = user_type(user_email);
    let role = role_type(org_id, role_name);
    TupleKey::new(user.as_str(), "assigned", role.as_str())
}

/// The object name of a custom role.
pub fn get_role_key(org_id: &str, role_name: &str) -> (r: String)
    ensures
        r@ == role_type_spec(org_id@, role_name@),
{
    role_type(org_id, role_name)
}

/// Appends the tuple that removes a user from a custom role, given the role's key.
pub fn get_user_crole_removal_tuples(user_email: &str, role_key: &str, tuples: &mut Vec<TupleKey>)
    ensures
        keys_view(final(tuples)@) == keys_view(old(tuples)@).push(
            (user_type_spec(user_email@), "assigned"@, role_key@),
        ),
{
    let user = user_type(user_email);
    push_key(tuples, TupleKey::new(user.as_str(), "assigned", role_key));
}

/// Appends the tuple that makes an organization a member of itself.
pub fn get_org_creation_tuples(org_id: &str, tuples: &mut Vec<TupleKey>)
    ensures
        keys_view(final(tuples)@) == keys_view(old(tuples)@).push(
            (org_type_spec(org_id@), "member"@, org_type_spec(org_id@)),
        ),
{
    let org = org_type(org_id);
    push_key(tuples, TupleKey::new(org.as_str(), "member", org.as_str()));
}

/// The tuple that makes a user the owner of a resource.
pub fn get_ownership_tuple(org_id: &str, resource_type: &str, entity_id: &str, owner_email: &str) -> (r: TupleKey)
    ensures
        r@ == (user_type_spec(owner_email@), "owner"@, resource_object_spec(resource_type@, entity_id@)),
{
    let user = user_type(owner_email);
    let resource = resource_object(resource_type, entity_id);
    TupleKey::new(user.as_str(), "owner", resource.as_str())
}

/// The tuple that makes an organization the parent of a resource.
pub fn get_resource_parent_tuple(org_id: &str, resource_type: &str, entity_id: &str) -> (r: TupleKey)
    ensures
        r@ == (org_type_spec(org_id@), "parent"@, resource_object_spec(resource_type@, entity_id@)),
{
    let org = org_type(org_id);
    let resource = resource_object(resource_type, entity_id);
    TupleKey::new(org.as_str(), "parent", resource.as_str())
}

/// The ALLOW_* relation for an already lower-cased permission or relation name.
pub open spec fn allow_relation_from_lowercase(l: Seq<char>) -> Seq<char> {
    if l == "allowall"@ || l == "admin"@ {
        "ALLOW_ALL"@
    } else if l == "allowget"@ || l == "can_read"@ {
        "ALLOW_GET"@
    } else if l == "allowlist"@ || l == "can_list"@ {
        "ALLOW_LIST"@
    } else if l == "allowpost"@ || l == "can_create"@ {
        "ALLOW_POST"@
    } else if l == "allowput"@ || l == "can_update"@ {
        "ALLOW_PUT"@
    } else if l == "allowdelete"@ || l == "can_delete"@ {
        "ALLOW_DELETE"@
    } else {
        "ALLOW_GET"@
    }
}

/// Maps an already lower-cased permission or relation name to its ALLOW_* relation.
pub fn allow_relation_from_lowercase_name(l: &str) -> (r: &'static str)
    ensures
        r@ == allow_relation_from_lowercase(l@),
{
    if str_eq(l, "allowall") || str_eq(l, "admin") {
        "ALLOW_ALL"
    } else if str_eq(l, "allowget") || str_eq(l, "can_read") {
        "ALLOW_GET"
    } else if str_eq(l, "allowlist") || str_eq(l, "can_list") {
        "ALLOW_LIST"
    } else if str_eq(l, "allowpost") || str_eq(l, "can_create") {
        "ALLOW_POST"
    } else if str_eq(l, "allowput") || str_eq(l, "can_update") {
        "ALLOW_PUT"
    } else if str_eq(l, "allowdelete") || str_eq(l, "can_delete") {
        "ALLOW_DELETE"
    } else {
        "ALLOW_GET"
    }
}

/// The tuple that grants a role a permission on all resources of a type in an organization.
pub fn get_org_resource_permission_tuple(org_id: &str, resource_type: &str, role_name: &str, permission: &str) -> (r: TupleKey)
    ensures
        r@ == (
            role_type_spec(org_id@, role_name@) + "#has"@,
            allow_relation_from_lowercase(lower_text(permission@)),
            resource_object_all_spec(org_id@, resource_type@),
        ),
{
    let role = role_type(org_id, role_name);
    let role_has = concat2(role.as_str(), "#has");
    let resource = resource_object_all(org_id, resource_type);
    let l = to_lowercase(permission);
    let relation = allow_relation_from_lowercase_name(l.as_str());
    TupleKey::new(role_has.as_str(), relation, resource.as_str())
}

/// The tuple that makes a user a member of a group.
pub open spec fn group_member_spec(org_id: Seq<char>, group_name: Seq<char>, user_email: Seq<char>) -> TupleKeyView {
    (user_type_spec(user_email), "member"@, group_type_spec(org_id, group_name))
}

/// The tuple that makes a user a member of a group.
pub fn get_group_member_tuple(org_id: &str, group_name: &str, user_email: &str) -> (r: TupleKey)
    ensures
        r@ == group_member_spec(org_id@, group_name@, user_email@),
{
    let user = user_type(user_email);
    let group = group_type(org_id, group_name);
    TupleKey::new(user.as_str(), "member", group.as_str())
}

/// The tuple that assigns a role to a group.
pub open spec fn group_role_spec(org_id: Seq<char>, group_name: Seq<char>, role_name: Seq<char>) -> TupleKeyView {
    (group_type_spec(org_id, group_name), "grp_assigned"@, role_type_spec(org_id, role_name))
}

/// The tuple that assigns a role to a group.
pub fn get_group_role_tuple(org_id: &str, group_name: &str, role_name: &str) -> (r: TupleKey)
    ensures
        r@ == group_role_spec(org_id@, group_name@, role_name@),
{
    let group = group_type(org_id, group_name);
    let role = role_type(org_id, role_name);
    TupleKey::new(group.as_str(), "grp_assigned", role.as_str())
}

/// The two tuples that give a user basic access to an organization.
pub open spec fn basic_access_spec(org_id: Seq<char>, email: Seq<char>) -> Seq<TupleKeyView> {
    seq![
        (user_type_spec(email), "allowed_user"@, org_type_spec(org_id)),
        (user_type_spec(email), "org_context"@, org_type_spec(org_id)),
    ]
}

fn push_basic_access(org_id: &str, email: &str, tuples: &mut Vec<TupleKey>)
    ensures
        keys_view(final(tuples)@) == keys_view(old(tuples)@) + basic_access_spec(org_id@, email@),
{
    let user = user_type(email);
    let org = org_type(org_id);
    let ghost start = keys_view(tuples@);
    push_key(tuples, TupleKey::new(user.as_str(), "allowed_user", org.as_str()));
    push_key(tuples, TupleKey::new(user.as_str(), "org_context", org.as_str()));
    assert(keys_view(tuples@) =~= start + basic_access_spec(org_id@, email@));
}

/// Appends the tuples that make a service account a member of an organization.
pub fn get_service_account_creation_tuple(org_id: &str, email: &str, tuples: &mut Vec<TupleKey>)
    ensures
        keys_view(final(tuples)@) == keys_view(old(tuples)@) + basic_access_spec(org_id@, email@),
{
    push_basic_access(org_id, email, tuples);
}

/// The organization that new users join: the configured default, else "default".
pub open spec fn new_user_org_spec(configured_default_org: Option<Seq<char>>) -> Seq<char> {
    match configured_default_org {
        Some(o) => o,
        None => "default"@,
    }
}

/// Appends the tuples that give a new user basic access to the default organization.
/// `configured_default_org` is the default organization of the running configuration,
/// if the module is initialized.
pub fn get_new_user_creation_tuple(configured_default_org: Option<&str>, user_email: &str, tuples: &mut Vec<TupleKey>)
    ensures
        keys_view(final(tuples)@) == keys_view(old(tuples)@) + basic_access_spec(
            new_user_org_spec(
                match configured_default_org {
                    Some(o) => Some(o@),
                    None => None,
                },
            ),
            user_email@,
        ),
{
    match configured_default_org {
        Some(o) => push_basic_access(o, user_email, tuples),
        None => push_basic_access("default", user_email, tuples),
    }
}

/// Appends the tuples to delete when a user's system role in an organization is removed.
pub fn get_delete_user_system_role_tuples(org_id: &str, user_email: &str, role: &str, tuples: &mut Vec<TupleKey>)
    ensures
        keys_view(final(tuples)@) == keys_view(old(tuples)@) + add_user_to_org_spec(org_id@, user_email@, role@),
{
    let user = user_type(user_email);
    let org = org_type(org_id);
    let relation = role_to_fga_relation(role);
    let ghost start = keys_view(tuples@);
    push_key(tuples, TupleKey::new(user.as_str(), relation, org.as_str()));
    push_key(tuples, TupleKey::new(user.as_str(), "org_context", org.as_str()));
    assert(keys_view(tuples@) =~= start + add_user_to_org_spec(org_id@, user_email@, role@));
}

/// The change of tuples when a user's system role changes: the old role tuple to delete
/// and the new one to write, or nothing when both roles map to the same relation.
pub open spec fn user_role_update_spec(org_id: Seq<char>, user_email: Seq<char>, old_role: Seq<char>, new_role: Seq<char>) -> Option<(TupleKeyView, TupleKeyView)> {
    if role_relation_spec(old_role) == role_relation_spec(new_role) {
        None
    } else {
        Some(
            (
                (user_type_spec(user_email), role_relation_spec(old_role), org_type_spec(org_id)),
                (user_type_spec(user_email), role_relation_spec(new_role), org_type_spec(org_id)),
            ),
        )
    }
}

/// Plans a change of a user's system role: `Some((delete, write))`, or `None` when
/// nothing changes. The organization-context tuple is kept.
pub fn plan_user_role_update(org_id: &str, user_email: &str, old_role: &str, new_role: &str) -> (r: Option<(TupleKey, TupleKey)>)
    ensures
        match (r, user_role_update_spec(org_id@, user_email@, old_role@, new_role@)) {
            (Some((d, w)), Some((dv, wv))) => d@ == dv && w@ == wv,
            (None, None) => true,
            _ => false,
        },
{
    let user = user_type(user_email);
    let org = org_type(org_id);
    let old_relation = role_to_fga_relation(old_role);
    let new_relation = role_to_fga_relation(new_role);
    if str_eq(old_relation, new_relation) {
        return None;
    }
    Some((
        TupleKey::new(user.as_str(), old_relation, org.as_str()),
        TupleKey::new(user.as_str(), new_relation, org.as_str()),
    ))
}

/// Every relation a user can hold on an organization through a system role.
pub open spec fn delete_all_user_spec(org_id: Seq<char>, user_email: Seq<char>) -> Seq<TupleKeyView> {
    seq![
        (user_type_spec(user_email), "admin"@, org_type_spec(org_id)),
        (user_type_spec(user_email), "editor"@, org_type_spec(org_id)),
        (user_type_spec(user_email), "viewer"@, org_type_spec(org_id)),
        (user_type_spec(user_email), "allowed_user"@, org_type_spec(org_id)),
        (user_type_spec(user_email), "org_context"@, org_type_spec(org_id)),
    ]
}

/// Appends the tuples of every system-role relation of a user on an organization.
pub fn get_delete_all_user_from_org_tuples(org_id: &str, user_email: &str, tuples: &mut Vec<TupleKey>)
    ensures
        keys_view(final(tuples)@) == keys_view(old(tuples)@) + delete_all_user_spec(org_id@, user_email@),
{
    let user = user_type(user_email);
    let org = org_type(org_id);
    let ghost start = keys_view(tuples@);
    push_key(tuples, TupleKey::new(user.as_str(), "admin", org.as_str()));
    push_key(tuples, TupleKey::new(user.as_str(), "editor", org.as_str()));
    push_key(tuples, TupleKey::new(user.as_str(), "viewer", org.as_str()));
    push_key(tuples, TupleKey::new(user.as_str(), "allowed_user", org.as_str()));
    push_key(tuples, TupleKey::new(user.as_str(), "org_context", org.as_str()));
    assert(keys_view(tuples@) =~= start + delete_all_user_spec(org_id@, user_email@));
}

/// Appends the owner, admin and member tuples of a user on an organization.
pub fn get_delete_user_from_org_tuples(org_id: &str, user_email: &str, tuples: &mut Vec<TupleKey>)
    ensures
        keys_view(final(tuples)@) == keys_view(old(tuples)@) + seq![
            (user_type_spec(user_email@), "owner"@, org_type_spec(org_id@)),
            (user_type_spec(user_email@), "admin"@, org_type_spec(org_id@)),
            (user_type_spec(user_email@), "member"@, org_type_spec(org_id@)),
        ],
{
    let user = user_type(user_email);
    let org = org_type(org_id);
    let ghost start = keys_view(tuples@);
    push_key(tuples, TupleKey::new(user.as_str(), "owner", org.as_str()));
    push_key(tuples, TupleKey::new(user.as_str(), "admin", org.as_str()));
    push_key(tuples, TupleKey::new(user.as_str(), "member", org.as_str()));
    assert(keys_view(tuples@) =~= start + seq![
        (user_type_spec(user_email@), "owner"@, org_type_spec(org_id@)),
        (user_type_spec(user_email@), "admin"@, org_type_spec(org_id@)),
        (user_type_spec(user_email@), "member"@, org_type_spec(org_id@)),
    ]);
}

/// Every tuple written when a user is added to an organization with any system role is
/// among the tuples deleted when the user is removed from the organization.
pub proof fn law_remove_all_covers_add(org_id: Seq<char>, user_email: Seq<char>, role: Seq<char>)
    ensures
        forall|i: int|
            0 <= i < 2 ==> delete_all_user_spec(org_id, user_email).contains(
                #[trigger] add_user_to_org_spec(org_id, user_email, role)[i],
            ),
{
    let adds = add_user_to_org_spec(org_id, user_email, role);
    let dels = delete_all_user_spec(org_id, user_email);
    let rel = role_relation_spec(role);
    let l = lower_text(role);
    if l == "root"@ || l == "admin"@ {
        assert(dels[0] == adds[0]);
    } else if l == "editor"@ {
        assert(dels[1] == adds[0]);
    } else if l == "viewer"@ {
        assert(dels[2] == adds[0]);
    } else {
        assert(dels[3] == adds[0]);
    }
    assert(dels[4] == adds[1]);
}

/// Changing a user's system role from `old_role` to `new_role` and back restores the
/// tuples as they were: the second plan deletes what the first wrote and writes what it deleted.
pub proof fn law_role_update_reverses(org_id: Seq<char>, user_email: Seq<char>, old_role: Seq<char>, new_role: Seq<char>)
    ensures
        match (
            user_role_update_spec(org_id, user_email, old_role, new_role),
            user_role_update_spec(org_id, user_email, new_role, old_role),
        ) {
            (Some((d1, w1)), Some((d2, w2))) => d2 == w1 && w2 == d1,
            (None, None) => true,
            _ => false,
        },
{
}

} // verus!
