//! Roles: the tuples that create, grant and remove them, and what is read back from the
//! stored tuples.
use vstd::prelude::*;
use crate::text::{eq_ignore_ascii_case, eq_ignore_ascii_case_spec, views_of, concat2, concat3,
    owned, str_eq, starts_with, has_prefix, strip_prefix, strip_prefix_spec, lower_text,
    to_lowercase, capitalize, capitalize_spec, ascii_lower, is_ascii_text, copy_string};
use crate::sorted::{strictly_sorted, sorted_unique};
use super::types::{Tuple, TupleKey, TupleKeyView, TupleKeyFilter, PermissionEntry, Permission,
    permission_name_spec, UserRoleOption, keys_view, push_key};
use super::schema::{role_type, role_type_spec, resource_object, resource_object_all,
    resource_object_spec, resource_object_all_spec};
use super::tuples::{get_user_crole_tuple, user_crole_spec};
use super::resources::{parse_object, parse_object_spec};
use super::reads::{tuple_keys_view, filter_view, make_filter, collect_names, users_after,
    user_after};
use super::error::Error;

verus! {

/// Whether `name` is one of the system roles "admin", "editor" and "viewer", ignoring
/// ASCII case. System roles cannot be created, listed as custom roles or deleted.
pub open spec fn is_system_role_spec(name: Seq<char>) -> bool {
    eq_ignore_ascii_case_spec("admin"@, name) || eq_ignore_ascii_case_spec("editor"@, name)
        || eq_ignore_ascii_case_spec("viewer"@, name)
}

/// Whether `name` is a system role.
pub fn is_system_role(name: &str) -> (r: bool)
    ensures
        r == is_system_role_spec(name@),
{
    eq_ignore_ascii_case("admin", name) || eq_ignore_ascii_case("editor", name)
        || eq_ignore_ascii_case("viewer", name)
}

/// Whether some name of `names` equals `name`, ignoring ASCII case.
pub open spec fn contains_ignoring_case(names: Seq<Seq<char>>, name: Seq<char>) -> bool {
    exists|i: int| 0 <= i < names.len() && eq_ignore_ascii_case_spec(#[trigger] names[i], name)
}

/// Whether some name of `names` equals `name`, ignoring ASCII case.
pub fn any_equal_ignoring_case(names: &Vec<String>, name: &str) -> (r: bool)
    ensures
        r == contains_ignoring_case(views_of(names@), name@),
{
    let n = names.len();
    for i in 0..n
        invariant
            n == names@.len(),
            forall|j: int|
                0 <= j < i ==> !eq_ignore_ascii_case_spec(#[trigger] views_of(names@)[j], name@),
    {
        assert(views_of(names@)[i as int] == names@[i as int]@);
        if eq_ignore_ascii_case(names[i].as_str(), name) {
            return true;
        }
    }
    false
}

/// The tuple that creates a role: "org:{org_id}" owns the role object.
pub open spec fn role_creation_spec(org_id: Seq<char>, role_name: Seq<char>) -> TupleKeyView {
    ("org:"@ + org_id, "owningOrg"@, role_type_spec(org_id, role_name))
}

/// What creating a role writes, given the roles of the organization: the creation tuple;
/// an error when a role of that name exists (ignoring ASCII case) or the name is a system
/// role's.
pub fn plan_create_role(existing: &Vec<String>, org_id: &str, role_name: &str) -> (r: Result<
    TupleKey,
    Error,
>)
    ensures
        match r {
            Ok(t) => !contains_ignoring_case(views_of(existing@), role_name@)
                && !is_system_role_spec(role_name@) && t@ == role_creation_spec(org_id@, role_name@),
            Err(Error::DuplicateEntry(m)) => contains_ignoring_case(views_of(existing@), role_name@)
                && m@ == "Role '"@ + role_name@ + "' already exists"@,
            Err(Error::Validation(m)) => !contains_ignoring_case(views_of(existing@), role_name@)
                && is_system_role_spec(role_name@) && m@ == "Cannot create role with system name: "@
                + role_name@,
            Err(_) => false,
        },
{
    if any_equal_ignoring_case(existing, role_name) {
        return Err(Error::DuplicateEntry(concat3("Role '", role_name, "' already exists")));
    }
    if is_system_role(role_name) {
        return Err(Error::Validation(concat2("Cannot create role with system name: ", role_name)));
    }
    let role_object = role_type(org_id, role_name);
    let org_object = concat2("org:", org_id);
    Ok(TupleKey::new(org_object.as_str(), "owningOrg", role_object.as_str()))
}

/// The prefix of the role objects of an organization: "role:{org_id}_".
pub open spec fn role_prefix(org_id: Seq<char>) -> Seq<char> {
    "role:"@ + org_id + "_"@
}

/// The custom role that a key records as created in the organization: an "owningOrg"
/// key from "org:{org_id}" on "role:{org_id}_{name}", for a name that is not a system
/// role's.
pub open spec fn created_role(org_id: Seq<char>) -> spec_fn(TupleKeyView) -> Option<Seq<char>> {
    |k: TupleKeyView|
        if k.1 == "owningOrg"@ && k.0 == "org:"@ + org_id {
            match strip_prefix_spec(k.2, role_prefix(org_id)) {
                Some(name) => if is_system_role_spec(name) {
                    None
                } else {
                    Some(name)
                },
                None => None,
            }
        } else {
            None
        }
}

/// The custom roles of an organization recorded in `tuples`, sorted, each once.
pub fn role_names(tuples: &Vec<Tuple>, org_id: &str) -> (r: Vec<String>)
    ensures
        strictly_sorted(views_of(r@)),
        views_of(r@).to_set() == collect_names(
            tuple_keys_view(tuples@),
            created_role(org_id@),
            tuples@.len(),
        ).to_set(),
{
    let ghost keys = tuple_keys_view(tuples@);
    let prefix = concat3("role:", org_id, "_");
    let org_user = concat2("org:", org_id);
    let mut names: Vec<String> = Vec::new();
    let n = tuples.len();
    for i in 0..n
        invariant
            n == tuples@.len(),
            keys == tuple_keys_view(tuples@),
            prefix@ == role_prefix(org_id@),
            org_user@ == "org:"@ + org_id@,
            views_of(names@) == collect_names(keys, created_role(org_id@), i as nat),
    {
        let key = &tuples[i].key;
        assert(keys[i as int] == key@);
        if str_eq(key.relation.as_str(), "owningOrg") && str_eq(key.user.as_str(), org_user.as_str()) {
            match strip_prefix(key.object.as_str(), prefix.as_str()) {
                Some(name) => {
                    if !is_system_role(name) {
                        let s = owned(name);
                        assert(views_of(names@.push(s)) =~= views_of(names@).push(s@));
                        names.push(s);
                    }
                },
                None => {},
            }
        }
    }
    sorted_unique(names)
}

/// The abstract value of a role option: (label, value).
pub open spec fn option_view(o: UserRoleOption) -> (Seq<char>, Seq<char>) {
    (o.label@, o.value@)
}

/// A role option with the capitalized name as label and the name as value.
fn system_option(name: &str) -> (r: UserRoleOption)
    ensures
        option_view(r) == (capitalize_spec(name@), name@),
{
    UserRoleOption { label: capitalize(name), value: owned(name) }
}

/// The system roles as options for a drop-down: "admin", "editor" and "viewer", each
/// labelled with its capitalized name.
pub fn list_system_roles(_org_id: &str) -> (r: Vec<UserRoleOption>)
    ensures
        r@.map_values(|o: UserRoleOption| option_view(o)) == seq![
            (capitalize_spec("admin"@), "admin"@),
            (capitalize_spec("editor"@), "editor"@),
            (capitalize_spec("viewer"@), "viewer"@),
        ],
{
    let mut r: Vec<UserRoleOption> = Vec::new();
    r.push(system_option("admin"));
    r.push(system_option("editor"));
    r.push(system_option("viewer"));
    assert(r@.map_values(|o: UserRoleOption| option_view(o)) =~= seq![
        (capitalize_spec("admin"@), "admin"@),
        (capitalize_spec("editor"@), "editor"@),
        (capitalize_spec("viewer"@), "viewer"@),
    ]);
    r
}

/// The options of the first `n` of `roles` that are not system roles: the capitalized
/// name as label, the lower-cased name as value.
pub open spec fn custom_options_spec(roles: Seq<Seq<char>>, n: nat) -> Seq<(Seq<char>, Seq<char>)>
    decreases n,
{
    if n == 0 || n > roles.len() {
        Seq::empty()
    } else {
        let prev = custom_options_spec(roles, (n - 1) as nat);
        let r = roles[n - 1];
        if is_system_role_spec(r) {
            prev
        } else {
            prev.push((capitalize_spec(r), lower_text(r)))
        }
    }
}

/// The custom roles among `roles`, as options for a drop-down.
pub fn custom_role_options(roles: &Vec<String>) -> (r: Vec<UserRoleOption>)
    ensures
        r@.map_values(|o: UserRoleOption| option_view(o)) == custom_options_spec(
            views_of(roles@),
            roles@.len(),
        ),
{
    let mut out: Vec<UserRoleOption> = Vec::new();
    let n = roles.len();
    for i in 0..n
        invariant
            n == roles@.len(),
            out@.map_values(|o: UserRoleOption| option_view(o)) == custom_options_spec(
                views_of(roles@),
                i as nat,
            ),
    {
        let name = roles[i].as_str();
        assert(views_of(roles@)[i as int] == name@);
        if !is_system_role(name) {
            let o = UserRoleOption { label: capitalize(name), value: to_lowercase(name) };
            assert(out@.push(o).map_values(|o: UserRoleOption| option_view(o)) =~= out@.map_values(
                |o: UserRoleOption| option_view(o),
            ).push(option_view(o)));
            out.push(o);
        }
    }
    out
}

/// The two reads that find what to delete with a role: tuples on the role object, and
/// tuples whose user is "{role object}#has"; an error for a system role.
pub fn plan_delete_role(org_id: &str, role_name: &str) -> (r: Result<
    (TupleKeyFilter, TupleKeyFilter),
    Error,
>)
    ensures
        match r {
            Ok((on_role, by_role)) => !is_system_role_spec(role_name@) && filter_view(on_role) == (
                None::<Seq<char>>,
                None::<Seq<char>>,
                Some(role_type_spec(org_id@, role_name@)),
            ) && filter_view(by_role) == (
                Some(role_type_spec(org_id@, role_name@) + "#has"@),
                None::<Seq<char>>,
                None::<Seq<char>>,
            ),
            Err(Error::Validation(m)) => is_system_role_spec(role_name@) && m@
                == "Cannot delete system role: "@ + role_name@,
            Err(_) => false,
        },
{
    if is_system_role(role_name) {
        return Err(Error::Validation(concat2("Cannot delete system role: ", role_name)));
    }
    let role_object = role_type(org_id, role_name);
    let role_has = concat2(role_object.as_str(), "#has");
    let on_role = make_filter(None, None, Some(role_object.as_str()));
    let by_role = make_filter(Some(role_has.as_str()), None, None);
    Ok((on_role, by_role))
}

/// The read that finds the users assigned to a role.
pub fn role_users_filter(org_id: &str, role_name: &str) -> (r: TupleKeyFilter)
    ensures
        filter_view(r) == (
            None::<Seq<char>>,
            Some("assigned"@),
            Some(role_type_spec(org_id@, role_name@)),
        ),
{
    let role_object = role_type(org_id, role_name);
    make_filter(None, Some("assigned"), Some(role_object.as_str()))
}

/// The users of tuples whose user is "user:{email}": the emails, in order.
pub fn user_emails(tuples: &Vec<Tuple>) -> (r: Vec<String>)
    ensures
        views_of(r@) == collect_names(tuple_keys_view(tuples@), user_after("user:"@), tuples@.len()),
{
    users_after(tuples, "user:")
}

/// The read that finds the permissions granted to a role: tuples whose user is
/// "{role object}#has".
pub fn role_permissions_filter(org_id: &str, role_name: &str) -> (r: TupleKeyFilter)
    ensures
        filter_view(r) == (
            Some(role_type_spec(org_id@, role_name@) + "#has"@),
            None::<Seq<char>>,
            None::<Seq<char>>,
        ),
{
    let role_object = role_type(org_id, role_name);
    let role_has = concat2(role_object.as_str(), "#has");
    make_filter(Some(role_has.as_str()), None, None)
}

/// The relation that a permission name grants, ignoring case; "ALLOW_GET" for an
/// unknown name.
pub open spec fn grant_relation_spec(permission: Seq<char>) -> Seq<char> {
    let l = lower_text(permission);
    if l == "allowall"@ {
        "ALLOW_ALL"@
    } else if l == "allowlist"@ {
        "ALLOW_LIST"@
    } else if l == "allowget"@ {
        "ALLOW_GET"@
    } else if l == "allowpost"@ {
        "ALLOW_POST"@
    } else if l == "allowput"@ {
        "ALLOW_PUT"@
    } else if l == "allowdelete"@ {
        "ALLOW_DELETE"@
    } else {
        "ALLOW_GET"@
    }
}

/// The relation that a permission name grants.
pub fn permission_to_relation(permission: &str) -> (r: &'static str)
    ensures
        r@ == grant_relation_spec(permission@),
{
    let l = to_lowercase(permission);
    let l = l.as_str();
    if str_eq(l, "allowall") {
        "ALLOW_ALL"
    } else if str_eq(l, "allowlist") {
        "ALLOW_LIST"
    } else if str_eq(l, "allowget") {
        "ALLOW_GET"
    } else if str_eq(l, "allowpost") {
        "ALLOW_POST"
    } else if str_eq(l, "allowput") {
        "ALLOW_PUT"
    } else if str_eq(l, "allowdelete") {
        "ALLOW_DELETE"
    } else {
        "ALLOW_GET"
    }
}

/// The permission name of a relation; "AllowGet" for an unknown relation.
pub open spec fn relation_permission_spec(relation: Seq<char>) -> Seq<char> {
    if relation == "ALLOW_ALL"@ {
        "AllowAll"@
    } else if relation == "ALLOW_LIST"@ {
        "AllowList"@
    } else if relation == "ALLOW_GET"@ {
        "AllowGet"@
    } else if relation == "ALLOW_POST"@ {
        "AllowPost"@
    } else if relation == "ALLOW_PUT"@ {
        "AllowPut"@
    } else if relation == "ALLOW_DELETE"@ {
        "AllowDelete"@
    } else {
        "AllowGet"@
    }
}

/// A permission's name taken to the relation it grants and back is the same name:
/// `relation_to_permission(permission_to_relation(p.as_str()))` is `p.as_str()`.
pub proof fn law_permission_relation_round_trip(p: Permission)
    ensures
        relation_permission_spec(grant_relation_spec(permission_name_spec(p))) == permission_name_spec(p),
{
    reveal_strlit("ALLOW_ALL");
    reveal_strlit("ALLOW_DELETE");
    reveal_strlit("ALLOW_GET");
    reveal_strlit("ALLOW_LIST");
    reveal_strlit("ALLOW_POST");
    reveal_strlit("ALLOW_PUT");
    reveal_strlit("AllowAll");
    reveal_strlit("AllowDelete");
    reveal_strlit("AllowGet");
    reveal_strlit("AllowList");
    reveal_strlit("AllowPost");
    reveal_strlit("AllowPut");
    reveal_strlit("allowall");
    reveal_strlit("allowdelete");
    reveal_strlit("allowget");
    reveal_strlit("allowlist");
    reveal_strlit("allowpost");
    reveal_strlit("allowput");
    match p {
        Permission::AllowAll => {
            assert(is_ascii_text("AllowAll"@));
            assert("AllowAll"@.map_values(|c: char| ascii_lower(c)) =~= "allowall"@);
        },
        Permission::AllowList => {
            assert(is_ascii_text("AllowList"@));
            assert("AllowList"@.map_values(|c: char| ascii_lower(c)) =~= "allowlist"@);
            assert("allowlist"@.len() != "allowall"@.len());
            assert("ALLOW_LIST"@.len() != "ALLOW_ALL"@.len());
        },
        Permission::AllowGet => {
            assert(is_ascii_text("AllowGet"@));
            assert("AllowGet"@.map_values(|c: char| ascii_lower(c)) =~= "allowget"@);
            assert("allowget"@[5] != "allowall"@[5]);
            assert("allowget"@.len() != "allowlist"@.len());
            assert("ALLOW_GET"@[6] != "ALLOW_ALL"@[6]);
            assert("ALLOW_GET"@.len() != "ALLOW_LIST"@.len());
        },
        Permission::AllowPost => {
            assert(is_ascii_text("AllowPost"@));
            assert("AllowPost"@.map_values(|c: char| ascii_lower(c)) =~= "allowpost"@);
            assert("allowpost"@.len() != "allowall"@.len());
            assert("allowpost"@[5] != "allowlist"@[5]);
            assert("allowpost"@.len() != "allowget"@.len());
            assert("ALLOW_POST"@.len() != "ALLOW_ALL"@.len());
            assert("ALLOW_POST"@[6] != "ALLOW_LIST"@[6]);
            assert("ALLOW_POST"@.len() != "ALLOW_GET"@.len());
        },
        Permission::AllowPut => {
            assert(is_ascii_text("AllowPut"@));
            assert("AllowPut"@.map_values(|c: char| ascii_lower(c)) =~= "allowput"@);
            assert("allowput"@[5] != "allowall"@[5]);
            assert("allowput"@.len() != "allowlist"@.len());
            assert("allowput"@[5] != "allowget"@[5]);
            assert("allowput"@.len() != "allowpost"@.len());
            assert("ALLOW_PUT"@[6] != "ALLOW_ALL"@[6]);
            assert("ALLOW_PUT"@.len() != "ALLOW_LIST"@.len());
            assert("ALLOW_PUT"@[6] != "ALLOW_GET"@[6]);
            assert("ALLOW_PUT"@.len() != "ALLOW_POST"@.len());
        },
        Permission::AllowDelete => {
            assert(is_ascii_text("AllowDelete"@));
            assert("AllowDelete"@.map_values(|c: char| ascii_lower(c)) =~= "allowdelete"@);
            assert("allowdelete"@.len() != "allowall"@.len());
            assert("allowdelete"@.len() != "allowlist"@.len());
            assert("allowdelete"@.len() != "allowget"@.len());
            assert("allowdelete"@.len() != "allowpost"@.len());
            assert("allowdelete"@.len() != "allowput"@.len());
            assert("ALLOW_DELETE"@.len() != "ALLOW_ALL"@.len());
            assert("ALLOW_DELETE"@.len() != "ALLOW_LIST"@.len());
            assert("ALLOW_DELETE"@.len() != "ALLOW_GET"@.len());
            assert("ALLOW_DELETE"@.len() != "ALLOW_POST"@.len());
            assert("ALLOW_DELETE"@.len() != "ALLOW_PUT"@.len());
        },
    }
}

/// The permission name of a relation.
pub fn relation_to_permission(relation: &str) -> (r: String)
    ensures
        r@ == relation_permission_spec(relation@),
{
    let p = if str_eq(relation, "ALLOW_ALL") {
        "AllowAll"
    } else if str_eq(relation, "ALLOW_LIST") {
        "AllowList"
    } else if str_eq(relation, "ALLOW_GET") {
        "AllowGet"
    } else if str_eq(relation, "ALLOW_POST") {
        "AllowPost"
    } else if str_eq(relation, "ALLOW_PUT") {
        "AllowPut"
    } else if str_eq(relation, "ALLOW_DELETE") {
        "AllowDelete"
    } else {
        "AllowGet"
    };
    owned(p)
}

/// The abstract value of a permission entry: (object, permission).
pub open spec fn entry_view(e: PermissionEntry) -> (Seq<char>, Seq<char>) {
    (e.object@, e.permission@)
}

/// The permission entry that a key of a role's grants gives for resources of type
/// `resource_type`: a key on an object "{resource_type}:{entity}" gives that object and
/// the permission of the key's relation. Objects are named as they are written,
/// "{type}:{entity}" or "{type}:_all_{org_id}".
pub open spec fn granted_entry(resource_type: Seq<char>, k: TupleKeyView) -> Option<
    (Seq<char>, Seq<char>),
> {
    match strip_prefix_spec(k.2, resource_type + ":"@) {
        Some(_) => Some((k.2, relation_permission_spec(k.1))),
        None => None,
    }
}

/// The entries that the first `n` keys give.
pub open spec fn granted_entries(resource_type: Seq<char>, keys: Seq<TupleKeyView>, n: nat) -> Seq<
    (Seq<char>, Seq<char>),
>
    decreases n,
{
    if n == 0 || n > keys.len() {
        Seq::empty()
    } else {
        let prev = granted_entries(resource_type, keys, (n - 1) as nat);
        match granted_entry(resource_type, keys[n - 1]) {
            Some(e) => prev.push(e),
            None => prev,
        }
    }
}

/// The permissions that a role's grant tuples give on resources of type
/// `resource_type`, in order. The tuples are those read with the role's grant filter,
/// so they already belong to the organization.
pub fn role_permission_entries(tuples: &Vec<Tuple>, _org_id: &str, resource_type: &str) -> (r: Vec<
    PermissionEntry,
>)
    ensures
        r@.map_values(|e: PermissionEntry| entry_view(e)) == granted_entries(
            resource_type@,
            tuple_keys_view(tuples@),
            tuples@.len(),
        ),
{
    let ghost keys = tuple_keys_view(tuples@);
    let prefix = concat2(resource_type, ":");
    let mut out: Vec<PermissionEntry> = Vec::new();
    let n = tuples.len();
    for i in 0..n
        invariant
            n == tuples@.len(),
            keys == tuple_keys_view(tuples@),
            prefix@ == resource_type@ + ":"@,
            out@.map_values(|e: PermissionEntry| entry_view(e)) == granted_entries(
                resource_type@,
                keys,
                i as nat,
            ),
    {
        let key = &tuples[i].key;
        assert(keys[i as int] == key@);
        match strip_prefix(key.object.as_str(), prefix.as_str()) {
            Some(_) => {
                let object = copy_string(&key.object);
                let permission = relation_to_permission(key.relation.as_str());
                let e = PermissionEntry { object, permission };
                assert(out@.push(e).map_values(|e: PermissionEntry| entry_view(e)) =~= out@.map_values(
                    |e: PermissionEntry| entry_view(e),
                ).push(entry_view(e)));
                out.push(e);
            },
            None => {},
        }
    }
    out
}

/// The grant key that a permission entry gives a role: "{role object}#has" gets the
/// entry's relation on the resource named by "{type}:{entity}", or on all resources of
/// the type when the entity starts with "_all". Entries whose object has no ':' give none.
pub open spec fn grant_key(
    org_id: Seq<char>,
    role_name: Seq<char>,
    e: (Seq<char>, Seq<char>),
) -> Option<TupleKeyView> {
    match parse_object_spec(e.0) {
        Some((resource_type, entity)) => Some(
            (
                role_type_spec(org_id, role_name) + "#has"@,
                grant_relation_spec(e.1),
                if has_prefix(entity, "_all"@) {
                    resource_object_all_spec(org_id, resource_type)
                } else {
                    resource_object_spec(resource_type, entity)
                },
            ),
        ),
        None => None,
    }
}

/// The grant keys of the first `n` entries.
pub open spec fn grant_keys(
    org_id: Seq<char>,
    role_name: Seq<char>,
    entries: Seq<(Seq<char>, Seq<char>)>,
    n: nat,
) -> Seq<TupleKeyView>
    decreases n,
{
    if n == 0 || n > entries.len() {
        Seq::empty()
    } else {
        let prev = grant_keys(org_id, role_name, entries, (n - 1) as nat);
        match grant_key(org_id, role_name, entries[n - 1]) {
            Some(k) => prev.push(k),
            None => prev,
        }
    }
}

/// The tuples that grant (or, deleted, revoke) a role's permissions.
pub fn role_permission_tuples(org_id: &str, role_name: &str, permissions: &Vec<PermissionEntry>) -> (r: Vec<
    TupleKey,
>)
    ensures
        keys_view(r@) == grant_keys(
            org_id@,
            role_name@,
            permissions@.map_values(|e: PermissionEntry| entry_view(e)),
            permissions@.len(),
        ),
{
    let ghost entries = permissions@.map_values(|e: PermissionEntry| entry_view(e));
    let role_object = role_type(org_id, role_name);
    let role_has = concat2(role_object.as_str(), "#has");
    let mut out: Vec<TupleKey> = Vec::new();
    let n = permissions.len();
    proof {
        reveal_strlit("_all");
    }
    for i in 0..n
        invariant
            n == permissions@.len(),
            entries == permissions@.map_values(|e: PermissionEntry| entry_view(e)),
            role_has@ == role_type_spec(org_id@, role_name@) + "#has"@,
            keys_view(out@) == grant_keys(org_id@, role_name@, entries, i as nat),
    {
        let perm = &permissions[i];
        assert(entries[i as int] == entry_view(*perm));
        match parse_object(perm.object.as_str()) {
            Some((resource_type, entity_id)) => {
                let relation = permission_to_relation(perm.permission.as_str());
                let resource = if starts_with(entity_id, "_all") {
                    resource_object_all(org_id, resource_type)
                } else {
                    resource_object(resource_type, entity_id)
                };
                push_key(&mut out, TupleKey::new(role_has.as_str(), relation, resource.as_str()));
            },
            None => {},
        }
    }
    out
}

/// The tuples that assign (or, deleted, unassign) a role to each of `users`, in order.
pub fn role_user_tuples(org_id: &str, role_name: &str, users: &Vec<String>) -> (r: Vec<TupleKey>)
    ensures
        keys_view(r@) == views_of(users@).map_values(
            |u: Seq<char>| user_crole_spec(org_id@, role_name@, u),
        ),
{
    let mut out: Vec<TupleKey> = Vec::new();
    let n = users.len();
    for i in 0..n
        invariant
            n == users@.len(),
            keys_view(out@) == views_of(users@).take(i as int).map_values(
                |u: Seq<char>| user_crole_spec(org_id@, role_name@, u),
            ),
    {
        assert(views_of(users@).take(i + 1) =~= views_of(users@).take(i as int).push(
            users@[i as int]@,
        ));
        push_key(&mut out, get_user_crole_tuple(org_id, role_name, users[i].as_str()));
        assert(keys_view(out@) =~= views_of(users@).take(i + 1).map_values(
            |u: Seq<char>| user_crole_spec(org_id@, role_name@, u),
        ));
    }
    assert(views_of(users@).take(n as int) =~= views_of(users@));
    out
}

} // verus!
