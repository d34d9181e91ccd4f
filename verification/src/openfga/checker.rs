//! Permission checks: what to ask OpenFGA, and what its answers mean.
use vstd::prelude::*;
use crate::text::{eq_ignore_ascii_case, eq_ignore_ascii_case_spec, upper_text, lower_text,
    views_of, concat3, owned, strip_prefix, strip_prefix_spec};
use super::types::{TupleKey, TupleKeyView, Permission, permission_relation_spec,
    permission_from_uppercase_method_spec, permission_from_lowercase_spec};
use super::schema::{user_type, user_type_spec, resource_object, resource_object_all,
    resource_object_spec, resource_object_all_spec};
use super::resources::{parse_object, parse_object_spec, is_valid_resource_type,
    is_all_org_entity, is_all_org_entity_spec, find_key, resource_catalog};

verus! {

/// What a permission check comes to: `Err(answer)` when it is answered without asking
/// OpenFGA, `Ok(key)` when OpenFGA is asked whether `key` holds.
///
/// Checks pass when checking is off and for the root role (ignoring ASCII case). An
/// object that is not "resource_type:entity_id", or names an unknown resource type, is
/// refused. Otherwise the user "user:{user_id}" is checked for the relation of the
/// method's permission on the entity, or, when the entity stands for all of the
/// organization's entities (a list), on "{resource_type}:_all_{org_id}".
pub open spec fn check_decision(
    enabled: bool,
    org_id: Seq<char>,
    user_id: Seq<char>,
    method: Seq<char>,
    object: Seq<char>,
    role: Seq<char>,
) -> Result<TupleKeyView, bool> {
    if !enabled || eq_ignore_ascii_case_spec(role, "root"@) {
        Err(true)
    } else {
        match parse_object_spec(object) {
            None => Err(false),
            Some((resource_type, entity_id)) => if find_key(resource_catalog(), resource_type) is None {
                Err(false)
            } else {
                let is_list = is_all_org_entity_spec(entity_id, org_id);
                let permission = permission_from_uppercase_method_spec(upper_text(method), is_list);
                Ok(
                    (
                        user_type_spec(user_id),
                        permission_relation_spec(permission),
                        if is_list {
                            resource_object_all_spec(org_id, resource_type)
                        } else {
                            resource_object_spec(resource_type, entity_id)
                        },
                    ),
                )
            },
        }
    }
}

/// Root users, and every user while checking is disabled, are allowed whatever they
/// ask, without a question to OpenFGA.
pub proof fn law_root_or_disabled_always_allowed(
    enabled: bool,
    org_id: Seq<char>,
    user_id: Seq<char>,
    method: Seq<char>,
    object: Seq<char>,
    role: Seq<char>,
)
    requires
        !enabled || eq_ignore_ascii_case_spec(role, "root"@),
    ensures
        check_decision(enabled, org_id, user_id, method, object, role) == Err::<TupleKeyView, bool>(
            true,
        ),
{
}

/// With checking enabled, a user who is not root is denied, without a question to
/// OpenFGA, any object that is not "type:entity" with a known resource type.
pub proof fn law_unknown_objects_denied(
    org_id: Seq<char>,
    user_id: Seq<char>,
    method: Seq<char>,
    object: Seq<char>,
    role: Seq<char>,
)
    requires
        !eq_ignore_ascii_case_spec(role, "root"@),
        match parse_object_spec(object) {
            None => true,
            Some((resource_type, _)) => find_key(resource_catalog(), resource_type) is None,
        },
    ensures
        check_decision(true, org_id, user_id, method, object, role) == Err::<TupleKeyView, bool>(
            false,
        ),
{
}

/// The outcome of planning a permission check.
pub enum CheckPlan {
    /// The check is answered without asking OpenFGA.
    Decided(bool),
    /// OpenFGA is asked whether this tuple holds; its answer is the check's, and a failed
    /// request refuses.
    Ask(TupleKey),
}

/// Plans a permission check of `user_id` doing `method` on `object` in `org_id`.
pub fn plan_check(
    enabled: bool,
    org_id: &str,
    user_id: &str,
    method: &str,
    object: &str,
    role: &str,
) -> (r: CheckPlan)
    ensures
        match r {
            CheckPlan::Decided(b) => check_decision(enabled, org_id@, user_id@, method@, object@, role@)
                == Err::<TupleKeyView, bool>(b),
            CheckPlan::Ask(t) => check_decision(enabled, org_id@, user_id@, method@, object@, role@)
                == Ok::<TupleKeyView, bool>(t@),
        },
{
    if !enabled {
        return CheckPlan::Decided(true);
    }
    if eq_ignore_ascii_case(role, "root") {
        return CheckPlan::Decided(true);
    }
    let (resource_type, entity_id) = match parse_object(object) {
        Some(parts) => parts,
        None => {
            return CheckPlan::Decided(false);
        },
    };
    if !is_valid_resource_type(resource_type) {
        return CheckPlan::Decided(false);
    }
    let is_list = is_all_org_entity(entity_id, org_id);
    let permission = Permission::from_method(method, is_list);
    let relation = permission.to_relation();
    let user = user_type(user_id);
    let fga_object = if is_list {
        resource_object_all(org_id, resource_type)
    } else {
        resource_object(resource_type, entity_id)
    };
    CheckPlan::Ask(TupleKey::new(user.as_str(), relation, fga_object.as_str()))
}

/// The answer of a check that OpenFGA was asked: its answer, or a refusal when the
/// request failed.
pub fn check_answer(outcome: Option<bool>) -> (r: bool)
    ensures
        r == (outcome == Some(true)),
{
    match outcome {
        Some(allowed) => allowed,
        None => false,
    }
}

/// What listing the objects a user may access comes to: `None` when every object is
/// returned (checking off, the root role, or listing not restricted), otherwise the user
/// "user:{user_id}" and the relation of the permission named `permission`, or
/// "can_read" when no permission has that name.
pub open spec fn list_decision(
    enabled: bool,
    list_only_permitted: bool,
    user_id: Seq<char>,
    permission: Seq<char>,
    role: Seq<char>,
) -> Option<(Seq<char>, Seq<char>)> {
    if !enabled || eq_ignore_ascii_case_spec(role, "root"@) || !list_only_permitted {
        None
    } else {
        Some(
            (
                user_type_spec(user_id),
                match permission_from_lowercase_spec(lower_text(permission)) {
                    Some(p) => permission_relation_spec(p),
                    None => "can_read"@,
                },
            ),
        )
    }
}

/// Plans listing the objects of type "resource" that a user may access.
pub fn plan_list_objects(
    enabled: bool,
    list_only_permitted: bool,
    user_id: &str,
    permission: &str,
    role: &str,
) -> (r: Option<(String, &'static str)>)
    ensures
        match r {
            Some((u, rel)) => list_decision(enabled, list_only_permitted, user_id@, permission@, role@)
                == Some((u@, rel@)),
            None => list_decision(enabled, list_only_permitted, user_id@, permission@, role@) is None,
        },
{
    if !enabled || eq_ignore_ascii_case(role, "root") {
        return None;
    }
    if !list_only_permitted {
        return None;
    }
    let relation = match Permission::from_str(permission) {
        Some(p) => p.to_relation(),
        None => "can_read",
    };
    Some((user_type(user_id), relation))
}

/// The prefix of the listed objects of one type in an organization:
/// "resource:{org_id}_{object_type}_".
pub open spec fn listed_prefix(org_id: Seq<char>, object_type: Seq<char>) -> Seq<char> {
    "resource:"@ + org_id + "_"@ + object_type + "_"@
}

/// The entity ids of the first `n` listed objects that belong to the organization and
/// type, in order.
pub open spec fn listed_entities(objects: Seq<Seq<char>>, prefix: Seq<char>, n: nat) -> Seq<
    Seq<char>,
>
    decreases n,
{
    if n == 0 || n > objects.len() {
        Seq::empty()
    } else {
        let prev = listed_entities(objects, prefix, (n - 1) as nat);
        match strip_prefix_spec(objects[n - 1], prefix) {
            Some(e) => prev.push(e),
            None => prev,
        }
    }
}

/// The entity ids of the listed objects "resource:{org_id}_{object_type}_{entity}".
pub fn entity_ids_for_type(objects: &Vec<String>, org_id: &str, object_type: &str) -> (r: Vec<
    String,
>)
    ensures
        views_of(r@) == listed_entities(
            views_of(objects@),
            listed_prefix(org_id@, object_type@),
            objects@.len(),
        ),
{
    let prefix = crate::text::concat4("resource:", org_id, "_", object_type);
    let prefix = crate::text::concat2(prefix.as_str(), "_");
    let mut out: Vec<String> = Vec::new();
    let n = objects.len();
    for i in 0..n
        invariant
            n == objects@.len(),
            prefix@ == listed_prefix(org_id@, object_type@),
            views_of(out@) == listed_entities(views_of(objects@), prefix@, i as nat),
    {
        assert(views_of(objects@)[i as int] == objects@[i as int]@);
        match strip_prefix(objects[i].as_str(), prefix.as_str()) {
            Some(e) => {
                let s = owned(e);
                assert(views_of(out@.push(s)) =~= views_of(out@).push(s@));
                out.push(s);
            },
            None => {},
        }
    }
    out
}

} // verus!
