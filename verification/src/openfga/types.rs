//! OpenFGA request/response types and the permission vocabulary.
use std::collections::HashSet;
use vstd::prelude::*;
use crate::text::{lower_text, upper_text, ascii_lower, is_ascii_text, str_eq, to_lowercase, to_uppercase, owned};

verus! {

/// An OpenFGA tuple key: `user` has `relation` on `object`.
#[derive(Debug, Clone, PartialEq, Eq, Hash)]
pub struct TupleKey {
    pub user: String,
    pub relation: String,
    pub object: String,
}

/// The abstract value of a tuple key: (user, relation, object).
pub type TupleKeyView = (Seq<char>, Seq<char>, Seq<char>);

impl View for TupleKey {
    type V = TupleKeyView;

    open spec fn view(&self) -> TupleKeyView {
        (self.user@, self.relation@, self.object@)
    }
}

/// The abstract values of a sequence of tuple keys.
pub open spec fn keys_view(s: Seq<TupleKey>) -> Seq<TupleKeyView> {
    s.map_values(|t: TupleKey| t@)
}

impl TupleKey {
    /// Creates a tuple key from its three parts.
    pub fn new(user: &str, relation: &str, object: &str) -> (r: Self)
        ensures
            r@ == (user@, relation@, object@),
    {
        TupleKey { user: owned(user), relation: owned(relation), object: owned(object) }
    }

    /// A copy of this tuple key with the same abstract value.
    pub fn duplicate(&self) -> (r: Self)
        ensures
            r@ == self@,
    {
        TupleKey {
            user: owned(self.user.as_str()),
            relation: owned(self.relation.as_str()),
            object: owned(self.object.as_str()),
        }
    }
}

/// Appending one tuple key to a vector extends its abstract value by that key's view.
pub proof fn lemma_keys_view_push(s: Seq<TupleKey>, t: TupleKey)
    ensures
        keys_view(s.push(t)) == keys_view(s).push(t@),
{
    assert(keys_view(s.push(t)) =~= keys_view(s).push(t@));
}

/// Pushes `t` onto `v`, with the abstract value stated over views.
pub fn push_key(v: &mut Vec<TupleKey>, t: TupleKey)
    ensures
        keys_view(final(v)@) == keys_view(old(v)@).push(t@),
{
    let ghost t_view = t@;
    proof {
        lemma_keys_view_push(v@, t);
    }
    v.push(t);
}

/// A tuple as OpenFGA stores it, with an optional timestamp.
#[derive(Debug, Clone)]
pub struct Tuple {
    pub key: TupleKey,
    pub timestamp: Option<String>,
}

/// OpenFGA check request.
#[derive(Debug, Clone)]
pub struct CheckRequest {
    pub tuple_key: TupleKey,
    pub authorization_model_id: Option<String>,
}

/// OpenFGA check response.
#[derive(Debug, Clone)]
pub struct CheckResponse {
    pub allowed: bool,
    pub resolution: Option<String>,
}

/// Wrapper for an array of tuple keys.
#[derive(Debug, Clone)]
pub struct TupleKeys {
    pub tuple_keys: Vec<TupleKey>,
}

/// OpenFGA write request.
#[derive(Debug, Clone)]
pub struct WriteRequest {
    pub writes: Option<TupleKeys>,
    pub deletes: Option<TupleKeys>,
    pub authorization_model_id: Option<String>,
}

/// OpenFGA list-objects request.
#[derive(Debug, Clone)]
pub struct ListObjectsRequest {
    pub user: String,
    pub relation: String,
    pub type_: String,
    pub authorization_model_id: Option<String>,
}

/// OpenFGA list-objects response.
#[derive(Debug, Clone)]
pub struct ListObjectsResponse {
    pub objects: Vec<String>,
}

/// Filter on tuple keys for read operations; an absent part matches anything.
#[derive(Debug, Clone, Default)]
pub struct TupleKeyFilter {
    pub user: Option<String>,
    pub relation: Option<String>,
    pub object: Option<String>,
}

/// OpenFGA read request.
#[derive(Debug, Clone)]
pub struct ReadRequest {
    pub tuple_key: Option<TupleKeyFilter>,
    pub page_size: Option<i32>,
    pub continuation_token: Option<String>,
}

/// OpenFGA read response.
#[derive(Debug, Clone)]
pub struct ReadResponse {
    pub tuples: Vec<Tuple>,
    pub continuation_token: Option<String>,
}

/// OpenFGA store.
#[derive(Debug, Clone)]
pub struct Store {
    pub id: String,
    pub name: String,
    pub created_at: Option<String>,
    pub updated_at: Option<String>,
}

/// Create-store request.
#[derive(Debug, Clone)]
pub struct CreateStoreRequest {
    pub name: String,
}

/// Create-store response.
#[derive(Debug, Clone)]
pub struct CreateStoreResponse {
    pub id: String,
    pub name: String,
}

/// List-stores response.
#[derive(Debug, Clone)]
pub struct ListStoresResponse {
    pub stores: Vec<Store>,
    pub continuation_token: Option<String>,
}

/// Create-role request.
#[derive(Debug, Clone)]
pub struct CreateRoleRequest {
    pub role: String,
}

/// Update-role request.
#[derive(Debug, Clone)]
pub struct UpdateRoleRequest {
    pub add: Option<Vec<PermissionEntry>>,
    pub remove: Option<Vec<PermissionEntry>>,
    pub add_users: Option<HashSet<String>>,
    pub remove_users: Option<HashSet<String>>,
}

/// A permission on an object, as the API exchanges it.
#[derive(Debug, Clone, PartialEq, Eq, Hash)]
pub struct PermissionEntry {
    /// Object in the form "resource:entity".
    pub object: String,
    /// Permission name such as "AllowGet".
    pub permission: String,
}

/// Create-group request.
#[derive(Debug, Clone)]
pub struct CreateGroupRequest {
    pub name: String,
    pub display_name: Option<String>,
    pub description: Option<String>,
}

/// Update-group request.
#[derive(Debug, Clone)]
pub struct UpdateGroupRequest {
    pub add_roles: Option<HashSet<String>>,
    pub remove_roles: Option<HashSet<String>>,
    pub add_users: Option<HashSet<String>>,
    pub remove_users: Option<HashSet<String>>,
}

/// Group details.
#[derive(Debug, Clone)]
pub struct GroupResponse {
    pub id: String,
    pub name: String,
    pub display_name: Option<String>,
    pub description: Option<String>,
    pub roles: Vec<String>,
    pub users: Vec<String>,
    pub created_at: i64,
    pub updated_at: i64,
}

/// A role option for a drop-down.
#[derive(Debug, Clone)]
pub struct UserRoleOption {
    pub label: String,
    pub value: String,
}

/// Role details.
#[derive(Debug, Clone)]
pub struct RoleResponse {
    pub name: String,
    pub label: String,
    pub users: Vec<String>,
    pub created_at: i64,
    pub updated_at: i64,
}

/// A resource type definition.
#[derive(Debug, Clone)]
pub struct Resource {
    pub key: String,
    /// Display name.
    pub label: String,
    pub parent: Option<String>,
    pub order: i32,
    pub visible: bool,
    /// Whether the resource has no parent.
    pub top_level: bool,
    /// Whether the resource can have entity instances.
    pub has_entities: bool,
}

/// The abstract value of an optional string.
pub open spec fn opt_view(o: Option<String>) -> Option<Seq<char>> {
    match o {
        Some(s) => Some(s@),
        None => None,
    }
}

/// The abstract value of a resource definition:
/// (key, label, parent, order, visible, top_level, has_entities).
pub type ResourceView = (Seq<char>, Seq<char>, Option<Seq<char>>, i32, bool, bool, bool);

impl View for Resource {
    type V = ResourceView;

    open spec fn view(&self) -> ResourceView {
        (
            self.key@,
            self.label@,
            opt_view(self.parent),
            self.order,
            self.visible,
            self.top_level,
            self.has_entities,
        )
    }
}

/// Permission levels.
#[derive(Debug, Clone, Copy, PartialEq, Eq, Hash, Structural)]
pub enum Permission {
    AllowAll,
    AllowList,
    AllowGet,
    AllowPost,
    AllowPut,
    AllowDelete,
}

/// The permission named by an already lower-cased string.
pub open spec fn permission_from_lowercase_spec(l: Seq<char>) -> Option<Permission> {
    if l == "allowall"@ || l == "allow_all"@ {
        Some(Permission::AllowAll)
    } else if l == "allowlist"@ || l == "allow_list"@ {
        Some(Permission::AllowList)
    } else if l == "allowget"@ || l == "allow_get"@ {
        Some(Permission::AllowGet)
    } else if l == "allowpost"@ || l == "allow_post"@ {
        Some(Permission::AllowPost)
    } else if l == "allowput"@ || l == "allow_put"@ {
        Some(Permission::AllowPut)
    } else if l == "allowdelete"@ || l == "allow_delete"@ {
        Some(Permission::AllowDelete)
    } else {
        None
    }
}

/// The permission for an already upper-cased HTTP method.
pub open spec fn permission_from_uppercase_method_spec(u: Seq<char>, is_list: bool) -> Permission {
    if u == "GET"@ {
        if is_list {
            Permission::AllowList
        } else {
            Permission::AllowGet
        }
    } else if u == "POST"@ {
        Permission::AllowPost
    } else if u == "PUT"@ || u == "PATCH"@ {
        Permission::AllowPut
    } else if u == "DELETE"@ {
        Permission::AllowDelete
    } else {
        Permission::AllowGet
    }
}

/// The OpenFGA relation name of a permission.
pub open spec fn permission_relation_spec(p: Permission) -> Seq<char> {
    match p {
        Permission::AllowAll => "admin"@,
        Permission::AllowList => "can_list"@,
        Permission::AllowGet => "can_read"@,
        Permission::AllowPost => "can_create"@,
        Permission::AllowPut => "can_update"@,
        Permission::AllowDelete => "can_delete"@,
    }
}

/// The display name of a permission.
pub open spec fn permission_name_spec(p: Permission) -> Seq<char> {
    match p {
        Permission::AllowAll => "AllowAll"@,
        Permission::AllowList => "AllowList"@,
        Permission::AllowGet => "AllowGet"@,
        Permission::AllowPost => "AllowPost"@,
        Permission::AllowPut => "AllowPut"@,
        Permission::AllowDelete => "AllowDelete"@,
    }
}

/// Parsing the display name of a permission gives the permission back:
/// `Permission::from_str(p.as_str())` is `Some(p)` for every permission `p`.
pub proof fn law_permission_name_parses_back(p: Permission)
    ensures
        permission_from_lowercase_spec(lower_text(permission_name_spec(p))) == Some(p),
{
    reveal_strlit("allowall");
    reveal_strlit("allow_all");
    reveal_strlit("allowlist");
    reveal_strlit("allow_list");
    reveal_strlit("allowget");
    reveal_strlit("allow_get");
    reveal_strlit("allowpost");
    reveal_strlit("allow_post");
    reveal_strlit("allowput");
    reveal_strlit("allow_put");
    reveal_strlit("allowdelete");
    reveal_strlit("allow_delete");
    reveal_strlit("AllowAll");
    reveal_strlit("AllowList");
    reveal_strlit("AllowGet");
    reveal_strlit("AllowPost");
    reveal_strlit("AllowPut");
    reveal_strlit("AllowDelete");
    let name = permission_name_spec(p);
    assert(is_ascii_text(name));
    let l = name.map_values(|c: char| ascii_lower(c));
    let expected = match p {
        Permission::AllowAll => "allowall"@,
        Permission::AllowList => "allowlist"@,
        Permission::AllowGet => "allowget"@,
        Permission::AllowPost => "allowpost"@,
        Permission::AllowPut => "allowput"@,
        Permission::AllowDelete => "allowdelete"@,
    };
    assert(l =~= expected);
    match p {
        Permission::AllowAll => {},
        Permission::AllowList => {
            assert("allowlist"@.len() != "allowall"@.len());
            assert("allowlist"@[5] != "allow_all"@[5]);
        },
        Permission::AllowGet => {
            assert("allowget"@[5] != "allowall"@[5]);
            assert("allowget"@.len() != "allow_all"@.len());
            assert("allowget"@.len() != "allowlist"@.len());
            assert("allowget"@.len() != "allow_list"@.len());
        },
        Permission::AllowPost => {
            assert("allowpost"@.len() != "allowall"@.len());
            assert("allowpost"@[5] != "allow_all"@[5]);
            assert("allowpost"@[5] != "allowlist"@[5]);
            assert("allowpost"@.len() != "allow_list"@.len());
            assert("allowpost"@.len() != "allowget"@.len());
            assert("allowpost"@[5] != "allow_get"@[5]);
        },
        Permission::AllowPut => {
            assert("allowput"@[5] != "allowall"@[5]);
            assert("allowput"@.len() != "allow_all"@.len());
            assert("allowput"@.len() != "allowlist"@.len());
            assert("allowput"@.len() != "allow_list"@.len());
            assert("allowput"@[5] != "allowget"@[5]);
            assert("allowput"@.len() != "allow_get"@.len());
            assert("allowput"@.len() != "allowpost"@.len());
            assert("allowput"@.len() != "allow_post"@.len());
        },
        Permission::AllowDelete => {
            assert("allowdelete"@.len() != "allowall"@.len());
            assert("allowdelete"@.len() != "allow_all"@.len());
            assert("allowdelete"@.len() != "allowlist"@.len());
            assert("allowdelete"@.len() != "allow_list"@.len());
            assert("allowdelete"@.len() != "allowget"@.len());
            assert("allowdelete"@.len() != "allow_get"@.len());
            assert("allowdelete"@.len() != "allowpost"@.len());
            assert("allowdelete"@.len() != "allow_post"@.len());
            assert("allowdelete"@.len() != "allowput"@.len());
            assert("allowdelete"@.len() != "allow_put"@.len());
        },
    }
}

impl Permission {
    /// The permission named by `l`, which is already lower-cased.
    pub fn from_lowercase(l: &str) -> (r: Option<Self>)
        ensures
            r == permission_from_lowercase_spec(l@),
    {
        if str_eq(l, "allowall") || str_eq(l, "allow_all") {
            Some(Permission::AllowAll)
        } else if str_eq(l, "allowlist") || str_eq(l, "allow_list") {
            Some(Permission::AllowList)
        } else if str_eq(l, "allowget") || str_eq(l, "allow_get") {
            Some(Permission::AllowGet)
        } else if str_eq(l, "allowpost") || str_eq(l, "allow_post") {
            Some(Permission::AllowPost)
        } else if str_eq(l, "allowput") || str_eq(l, "allow_put") {
            Some(Permission::AllowPut)
        } else if str_eq(l, "allowdelete") || str_eq(l, "allow_delete") {
            Some(Permission::AllowDelete)
        } else {
            None
        }
    }

    /// Parses a permission name, case-insensitively.
    pub fn from_str(s: &str) -> (r: Option<Self>)
        ensures
            r == permission_from_lowercase_spec(lower_text(s@)),
    {
        let l = to_lowercase(s);
        Self::from_lowercase(l.as_str())
    }

    /// The OpenFGA relation name of this permission.
    pub fn to_relation(&self) -> (r: &'static str)
        ensures
            r@ == permission_relation_spec(*self),
    {
        match self {
            Permission::AllowAll => "admin",
            Permission::AllowList => "can_list",
            Permission::AllowGet => "can_read",
            Permission::AllowPost => "can_create",
            Permission::AllowPut => "can_update",
            Permission::AllowDelete => "can_delete",
        }
    }

    /// The permission for an HTTP method that is already upper-cased.
    pub fn from_uppercase_method(u: &str, is_list: bool) -> (r: Self)
        ensures
            r == permission_from_uppercase_method_spec(u@, is_list),
    {
        if str_eq(u, "GET") {
            if is_list {
                Permission::AllowList
            } else {
                Permission::AllowGet
            }
        } else if str_eq(u, "POST") {
            Permission::AllowPost
        } else if str_eq(u, "PUT") || str_eq(u, "PATCH") {
            Permission::AllowPut
        } else if str_eq(u, "DELETE") {
            Permission::AllowDelete
        } else {
            Permission::AllowGet
        }
    }

    /// The permission that an HTTP method asks for; unknown methods ask for read access.
    pub fn from_method(method: &str, is_list: bool) -> (r: Self)
        ensures
            r == permission_from_uppercase_method_spec(upper_text(method@), is_list),
    {
        let u = to_uppercase(method);
        Self::from_uppercase_method(u.as_str(), is_list)
    }

    /// Whether holding this permission grants `other`: full access grants everything.
    pub fn implies(&self, other: &Permission) -> (r: bool)
        ensures
            r == (*self == Permission::AllowAll || *self == *other),
    {
        match self {
            Permission::AllowAll => true,
            _ => *self == *other,
        }
    }

    /// The display name of this permission.
    pub fn as_str(&self) -> (r: &'static str)
        ensures
            r@ == permission_name_spec(*self),
    {
        match self {
            Permission::AllowAll => "AllowAll",
            Permission::AllowList => "AllowList",
            Permission::AllowGet => "AllowGet",
            Permission::AllowPost => "AllowPost",
            Permission::AllowPut => "AllowPut",
            Permission::AllowDelete => "AllowDelete",
        }
    }
}

} // verus!
