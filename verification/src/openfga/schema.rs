//! Object naming in the OpenFGA model and the bootstrap tuples.
use vstd::prelude::*;
use crate::text::{concat2, concat4, owned};
use super::types::{TupleKey, TupleKeyView, keys_view, push_key};

verus! {

/// "org:{org_id}"
pub open spec fn org_type_spec(org_id: Seq<char>) -> Seq<char> {
    "org:"@ + org_id
}

/// "user:{user_email}"
pub open spec fn user_type_spec(user_email: Seq<char>) -> Seq<char> {
    "user:"@ + user_email
}

/// "role:{org_id}_{role_name}"
pub open spec fn role_type_spec(org_id: Seq<char>, role_name: Seq<char>) -> Seq<char> {
    "role:"@ + org_id + "_"@ + role_name
}

/// "group:{org_id}_{group_name}"
pub open spec fn group_type_spec(org_id: Seq<char>, group_name: Seq<char>) -> Seq<char> {
    "group:"@ + org_id + "_"@ + group_name
}

/// "{resource_type}:{entity_id}"
pub open spec fn resource_object_spec(resource_type: Seq<char>, entity_id: Seq<char>) -> Seq<char> {
    resource_type + ":"@ + entity_id
}

/// "{resource_type}:_all_{org_id}"
pub open spec fn resource_object_all_spec(org_id: Seq<char>, resource_type: Seq<char>) -> Seq<char> {
    resource_type + ":_all_"@ + org_id
}

/// Organization object name.
pub fn org_type(org_id: &str) -> (r: String)
    ensures
        r@ == org_type_spec(org_id@),
{
    concat2("org:", org_id)
}

/// User object name.
pub fn user_type(user_email: &str) -> (r: String)
    ensures
        r@ == user_type_spec(user_email@),
{
    concat2("user:", user_email)
}

/// Role object name, scoped to an organization.
pub fn role_type(org_id: &str, role_name: &str) -> (r: String)
    ensures
        r@ == role_type_spec(org_id@, role_name@),
{
    concat4("role:", org_id, "_", role_name)
}

/// Group object name, scoped to an organization.
pub fn group_type(org_id: &str, group_name: &str) -> (r: String)
    ensures
        r@ == group_type_spec(org_id@, group_name@),
{
    concat4("group:", org_id, "_", group_name)
}

/// Resource object name "{resource_type}:{entity_id}"; the organization is linked by
/// ownership tuples, not by the name.
pub fn resource_object(resource_type: &str, entity_id: &str) -> (r: String)
    ensures
        r@ == resource_object_spec(resource_type@, entity_id@),
{
    let mut r = concat2(resource_type, ":");
    r.append(entity_id);
    r
}

/// Name of the object that stands for all resources of a type in an organization.
pub fn resource_object_all(org_id: &str, resource_type: &str) -> (r: String)
    ensures
        r@ == resource_object_all_spec(org_id@, resource_type@),
{
    let mut r = concat2(resource_type, ":_all_");
    r.append(org_id);
    r
}

/// The resource types that each bootstrapped organization owns, in bootstrap order.
pub open spec fn owned_resource_types() -> Seq<Seq<char>> {
    seq![
        "stream"@, "logs"@, "metrics"@, "traces"@, "metadata"@, "index"@, "dashboard"@,
        "dfolder"@, "savedviews"@, "report"@, "rfolder"@, "alert"@, "afolder"@, "template"@,
        "destination"@, "function"@, "pipeline"@, "enrichment_table"@, "summary"@, "settings"@,
        "kv"@, "syslog-route"@, "ratelimit"@, "cipher_keys"@, "license"@, "user"@, "group"@,
        "role"@, "passcode"@, "rumtoken"@, "service_accounts"@, "search_jobs"@,
        "action_scripts"@, "ai"@, "re_patterns"@,
    ]
}

/// The stream sub-types, in bootstrap order.
pub open spec fn stream_child_types() -> Seq<Seq<char>> {
    seq!["logs"@, "metrics"@, "traces"@, "index"@, "metadata"@]
}

/// The views of a vector of string literals.
pub open spec fn strs_view(v: Seq<&'static str>) -> Seq<Seq<char>> {
    v.map_values(|s: &'static str| s@)
}

fn owned_resource_type_names() -> (v: Vec<&'static str>)
    ensures
        strs_view(v@) == owned_resource_types(),
{
    let v = vec![
        "stream", "logs", "metrics", "traces", "metadata", "index", "dashboard", "dfolder",
        "savedviews", "report", "rfolder", "alert", "afolder", "template", "destination",
        "function", "pipeline", "enrichment_table", "summary", "settings", "kv", "syslog-route",
        "ratelimit", "cipher_keys", "license", "user", "group", "role", "passcode", "rumtoken",
        "service_accounts", "search_jobs", "action_scripts", "ai", "re_patterns",
    ];
    assert(strs_view(v@) =~= owned_resource_types());
    v
}

fn stream_child_type_names() -> (v: Vec<&'static str>)
    ensures
        strs_view(v@) == stream_child_types(),
{
    let v = vec!["logs", "metrics", "traces", "index", "metadata"];
    assert(strs_view(v@) =~= stream_child_types());
    v
}

/// Tuples through which the root user administers both bootstrap organizations.
pub open spec fn root_user_tuples() -> Seq<TupleKeyView> {
    seq![
        ("org:default"@, "owningOrg"@, "user:root@visdata.com"@),
        ("user:root@visdata.com"@, "admin"@, "org:default"@),
        ("user:root@visdata.com"@, "org_context"@, "org:default"@),
        ("user:root@visdata.com"@, "admin"@, "org:_meta"@),
        ("user:root@visdata.com"@, "org_context"@, "org:_meta"@),
    ]
}

/// Tuples by which an organization owns all resources of each bootstrapped type.
pub open spec fn org_ownership_tuples(org_id: Seq<char>) -> Seq<TupleKeyView> {
    owned_resource_types().map_values(
        |t: Seq<char>| (org_type_spec(org_id), "owningOrg"@, resource_object_all_spec(org_id, t)),
    )
}

/// Tuples of an organization's default dashboard and alert folders.
pub open spec fn org_folder_tuples(org_id: Seq<char>) -> Seq<TupleKeyView> {
    seq![
        (org_type_spec(org_id), "owningOrg"@, "dfolder:default"@),
        (resource_object_all_spec(org_id, "dfolder"@), "selfParent"@, "dfolder:default"@),
        (org_type_spec(org_id), "owningOrg"@, "afolder:default"@),
        (resource_object_all_spec(org_id, "afolder"@), "selfParent"@, "afolder:default"@),
    ]
}

/// Tuples that make the organization's streams the parent of each stream sub-type.
pub open spec fn org_stream_tuples(org_id: Seq<char>) -> Seq<TupleKeyView> {
    stream_child_types().map_values(
        |t: Seq<char>|
            (resource_object_all_spec(org_id, "stream"@), "parent"@, resource_object_all_spec(org_id, t)),
    )
}

/// All bootstrap tuples of one organization.
pub open spec fn org_bootstrap_tuples(org_id: Seq<char>) -> Seq<TupleKeyView> {
    org_ownership_tuples(org_id) + org_folder_tuples(org_id) + org_stream_tuples(org_id)
}

/// The tuples written when a new store is bootstrapped.
pub open spec fn initial_tuples_spec() -> Seq<TupleKeyView> {
    root_user_tuples() + org_bootstrap_tuples("default"@) + seq![
        ("org:_meta"@, "owningOrg"@, "logs:audit"@),
    ] + org_bootstrap_tuples("_meta"@)
}

/// Appends the bootstrap tuples of one organization to `out`.
fn push_org_bootstrap_tuples(org_id: &str, out: &mut Vec<TupleKey>)
    ensures
        keys_view(final(out)@) == keys_view(old(out)@) + org_bootstrap_tuples(org_id@),
{
    let org = org_type(org_id);
    let types = owned_resource_type_names();
    let ghost start = keys_view(out@);
    let n = types.len();
    for i in 0..n
        invariant
            n == types@.len(),
            strs_view(types@) == owned_resource_types(),
            org@ == org_type_spec(org_id@),
            keys_view(out@) == start + org_ownership_tuples(org_id@).take(i as int),
    {
        let object = resource_object_all(org_id, types[i]);
        push_key(out, TupleKey::new(org.as_str(), "owningOrg", object.as_str()));
        proof {
            assert(types@[i as int]@ == owned_resource_types()[i as int]);
            assert(org_ownership_tuples(org_id@).take(i + 1) =~= org_ownership_tuples(
                org_id@,
            ).take(i as int).push(org_ownership_tuples(org_id@)[i as int]));
        }
    }
    assert(org_ownership_tuples(org_id@).take(n as int) =~= org_ownership_tuples(org_id@));
    let dfolder_all = resource_object_all(org_id, "dfolder");
    let afolder_all = resource_object_all(org_id, "afolder");
    push_key(out, TupleKey::new(org.as_str(), "owningOrg", "dfolder:default"));
    push_key(out, TupleKey::new(dfolder_all.as_str(), "selfParent", "dfolder:default"));
    push_key(out, TupleKey::new(org.as_str(), "owningOrg", "afolder:default"));
    push_key(out, TupleKey::new(afolder_all.as_str(), "selfParent", "afolder:default"));
    let ghost mid = keys_view(out@);
    assert(mid == start + org_ownership_tuples(org_id@) + org_folder_tuples(org_id@));
    let children = stream_child_type_names();
    let stream_all = resource_object_all(org_id, "stream");
    let m = children.len();
    for j in 0..m
        invariant
            m == children@.len(),
            strs_view(children@) == stream_child_types(),
            stream_all@ == resource_object_all_spec(org_id@, "stream"@),
            keys_view(out@) == mid + org_stream_tuples(org_id@).take(j as int),
    {
        let object = resource_object_all(org_id, children[j]);
        push_key(out, TupleKey::new(stream_all.as_str(), "parent", object.as_str()));
        proof {
            assert(children@[j as int]@ == stream_child_types()[j as int]);
            assert(org_stream_tuples(org_id@).take(j + 1) =~= org_stream_tuples(org_id@).take(
                j as int,
            ).push(org_stream_tuples(org_id@)[j as int]));
        }
    }
    assert(org_stream_tuples(org_id@).take(m as int) =~= org_stream_tuples(org_id@));
    assert(keys_view(out@) =~= start + org_bootstrap_tuples(org_id@));
}

/// The tuples that bootstrap a new store: the root user's administration of the
/// "default" and "_meta" organizations, and each organization's resource ownership,
/// folders and stream hierarchy.
pub fn get_initial_tuples() -> (r: Vec<TupleKey>)
    ensures
        keys_view(r@) == initial_tuples_spec(),
{
    let mut out: Vec<TupleKey> = Vec::new();
    push_key(&mut out, TupleKey::new("org:default", "owningOrg", "user:root@visdata.com"));
    push_key(&mut out, TupleKey::new("user:root@visdata.com", "admin", "org:default"));
    push_key(&mut out, TupleKey::new("user:root@visdata.com", "org_context", "org:default"));
    push_key(&mut out, TupleKey::new("user:root@visdata.com", "admin", "org:_meta"));
    push_key(&mut out, TupleKey::new("user:root@visdata.com", "org_context", "org:_meta"));
    assert(keys_view(out@) =~= root_user_tuples());
    push_org_bootstrap_tuples("default", &mut out);
    push_key(&mut out, TupleKey::new("org:_meta", "owningOrg", "logs:audit"));
    push_org_bootstrap_tuples("_meta", &mut out);
    assert(keys_view(out@) =~= initial_tuples_spec());
    out
}

} // verus!
