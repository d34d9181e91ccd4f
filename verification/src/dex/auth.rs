//! Permission levels, entity authorizations and role/group update requests.
use std::collections::HashSet;
use vstd::prelude::*;
use crate::text::{lower_text, upper_text, ascii_lower, is_ascii_text, str_eq, to_lowercase, to_uppercase, owned, chars_of,
    find_char, substring, first_index_of, lemma_first_index_of_props};

verus! {

/// Permission levels that can be granted on resources.
#[derive(Debug, Clone, Copy, PartialEq, Eq, Hash, Structural)]
pub enum Permission {
    /// Full access to the resource.
    AllowAll,
    /// Permission to list resources.
    AllowList,
    /// Permission to read resources.
    AllowGet,
    /// Permission to create resources.
    AllowPost,
    /// Permission to update resources.
    AllowPut,
    /// Permission to delete resources.
    AllowDelete,
}

/// The OpenFGA ALLOW_* relation of a permission.
pub open spec fn relation_spec(p: Permission) -> Seq<char> {
    match p {
        Permission::AllowAll => "ALLOW_ALL"@,
        Permission::AllowList => "ALLOW_LIST"@,
        Permission::AllowGet => "ALLOW_GET"@,
        Permission::AllowPost => "ALLOW_POST"@,
        Permission::AllowPut => "ALLOW_PUT"@,
        Permission::AllowDelete => "ALLOW_DELETE"@,
    }
}

/// The relation name used inside OpenFGA tuples for a permission.
pub open spec fn internal_relation_spec(p: Permission) -> Seq<char> {
    match p {
        Permission::AllowAll => "admin"@,
        Permission::AllowList => "can_list"@,
        Permission::AllowGet => "can_read"@,
        Permission::AllowPost => "can_create"@,
        Permission::AllowPut => "can_update"@,
        Permission::AllowDelete => "can_delete"@,
    }
}

/// The display name of a permission.
pub open spec fn name_spec(p: Permission) -> Seq<char> {
    match p {
        Permission::AllowAll => "AllowAll"@,
        Permission::AllowList => "AllowList"@,
        Permission::AllowGet => "AllowGet"@,
        Permission::AllowPost => "AllowPost"@,
        Permission::AllowPut => "AllowPut"@,
        Permission::AllowDelete => "AllowDelete"@,
    }
}

/// The permission named by a lower-cased string: a display name, an ALLOW_* name or an
/// internal relation name.
pub open spec fn from_lowercase_spec(l: Seq<char>) -> Option<Permission> {
    if l == "allowall"@ || l == "allow_all"@ || l == "admin"@ {
        Some(Permission::AllowAll)
    } else if l == "allowlist"@ || l == "allow_list"@ || l == "can_list"@ {
        Some(Permission::AllowList)
    } else if l == "allowget"@ || l == "allow_get"@ || l == "can_read"@ {
        Some(Permission::AllowGet)
    } else if l == "allowpost"@ || l == "allow_post"@ || l == "can_create"@ {
        Some(Permission::AllowPost)
    } else if l == "allowput"@ || l == "allow_put"@ || l == "can_update"@ {
        Some(Permission::AllowPut)
    } else if l == "allowdelete"@ || l == "allow_delete"@ || l == "can_delete"@ {
        Some(Permission::AllowDelete)
    } else {
        None
    }
}

/// Each name of a permission parses back to it: its display name ("AllowGet"), its
/// ALLOW_* relation ("ALLOW_GET") and its internal relation ("can_read"), in any case,
/// are all read by `Permission::from_str` as that permission.
pub proof fn law_permission_names_parse_back(p: Permission)
    ensures
        from_lowercase_spec(lower_text(name_spec(p))) == Some(p),
        from_lowercase_spec(lower_text(relation_spec(p))) == Some(p),
        from_lowercase_spec(lower_text(internal_relation_spec(p))) == Some(p),
{
    reveal_strlit("ALLOW_ALL");
    reveal_strlit("ALLOW_DELETE");
    reveal_strlit("ALLOW_GET");
    reveal_strlit("ALLOW_LIST");
    reveal_strlit("ALLOW_POST");
    reveal_strlit("ALLOW_PUT");
    reveal_strlit("AllowAll");
    reveal_strlit("AllowDelete");
    reveal_strlit("AllowGet");
    reveal_strlit("AllowList");
    reveal_strlit("AllowPost");
    reveal_strlit("AllowPut");
    reveal_strlit("admin");
    reveal_strlit("allow_all");
    reveal_strlit("allow_delete");
    reveal_strlit("allow_get");
    reveal_strlit("allow_list");
    reveal_strlit("allow_post");
    reveal_strlit("allow_put");
    reveal_strlit("allowall");
    reveal_strlit("allowdelete");
    reveal_strlit("allowget");
    reveal_strlit("allowlist");
    reveal_strlit("allowpost");
    reveal_strlit("allowput");
    reveal_strlit("can_create");
    reveal_strlit("can_delete");
    reveal_strlit("can_list");
    reveal_strlit("can_read");
    reveal_strlit("can_update");
    match p {
        Permission::AllowAll => {
            assert(is_ascii_text("AllowAll"@));
            assert("AllowAll"@.map_values(|c: char| ascii_lower(c)) =~= "allowall"@);
            assert(is_ascii_text("ALLOW_ALL"@));
            assert("ALLOW_ALL"@.map_values(|c: char| ascii_lower(c)) =~= "allow_all"@);
            assert(is_ascii_text("admin"@));
            assert("admin"@.map_values(|c: char| ascii_lower(c)) =~= "admin"@);
        },
        Permission::AllowList => {
            assert(is_ascii_text("AllowList"@));
            assert("AllowList"@.map_values(|c: char| ascii_lower(c)) =~= "allowlist"@);
            assert("allowlist"@.len() != "allowall"@.len());
            assert("allowlist"@[5] != "allow_all"@[5]);
            assert("allowlist"@.len() != "admin"@.len());
            assert(is_ascii_text("ALLOW_LIST"@));
            assert("ALLOW_LIST"@.map_values(|c: char| ascii_lower(c)) =~= "allow_list"@);
            assert("allow_list"@.len() != "allowall"@.len());
            assert("allow_list"@.len() != "allow_all"@.len());
            assert("allow_list"@.len() != "admin"@.len());
            assert(is_ascii_text("can_list"@));
            assert("can_list"@.map_values(|c: char| ascii_lower(c)) =~= "can_list"@);
            assert("can_list"@[0] != "allowall"@[0]);
            assert("can_list"@.len() != "allow_all"@.len());
            assert("can_list"@.len() != "admin"@.len());
        },
        Permission::AllowGet => {
            assert(is_ascii_text("AllowGet"@));
            assert("AllowGet"@.map_values(|c: char| ascii_lower(c)) =~= "allowget"@);
            assert("allowget"@[5] != "allowall"@[5]);
            assert("allowget"@.len() != "allow_all"@.len());
            assert("allowget"@.len() != "admin"@.len());
            assert("allowget"@.len() != "allowlist"@.len());
            assert("allowget"@.len() != "allow_list"@.len());
            assert("allowget"@[0] != "can_list"@[0]);
            assert(is_ascii_text("ALLOW_GET"@));
            assert("ALLOW_GET"@.map_values(|c: char| ascii_lower(c)) =~= "allow_get"@);
            assert("allow_get"@.len() != "allowall"@.len());
            assert("allow_get"@[6] != "allow_all"@[6]);
            assert("allow_get"@.len() != "admin"@.len());
            assert("allow_get"@[5] != "allowlist"@[5]);
            assert("allow_get"@.len() != "allow_list"@.len());
            assert("allow_get"@.len() != "can_list"@.len());
            assert(is_ascii_text("can_read"@));
            assert("can_read"@.map_values(|c: char| ascii_lower(c)) =~= "can_read"@);
            assert("can_read"@[0] != "allowall"@[0]);
            assert("can_read"@.len() != "allow_all"@.len());
            assert("can_read"@.len() != "admin"@.len());
            assert("can_read"@.len() != "allowlist"@.len());
            assert("can_read"@.len() != "allow_list"@.len());
            assert("can_read"@[4] != "can_list"@[4]);
        },
        Permission::AllowPost => {
            assert(is_ascii_text("AllowPost"@));
            assert("AllowPost"@.map_values(|c: char| ascii_lower(c)) =~= "allowpost"@);
            assert("allowpost"@.len() != "allowall"@.len());
            assert("allowpost"@[5] != "allow_all"@[5]);
            assert("allowpost"@.len() != "admin"@.len());
            assert("allowpost"@[5] != "allowlist"@[5]);
            assert("allowpost"@.len() != "allow_list"@.len());
            assert("allowpost"@.len() != "can_list"@.len());
            assert("allowpost"@.len() != "allowget"@.len());
            assert("allowpost"@[5] != "allow_get"@[5]);
            assert("allowpost"@.len() != "can_read"@.len());
            assert(is_ascii_text("ALLOW_POST"@));
            assert("ALLOW_POST"@.map_values(|c: char| ascii_lower(c)) =~= "allow_post"@);
            assert("allow_post"@.len() != "allowall"@.len());
            assert("allow_post"@.len() != "allow_all"@.len());
            assert("allow_post"@.len() != "admin"@.len());
            assert("allow_post"@.len() != "allowlist"@.len());
            assert("allow_post"@[6] != "allow_list"@[6]);
            assert("allow_post"@.len() != "can_list"@.len());
            assert("allow_post"@.len() != "allowget"@.len());
            assert("allow_post"@.len() != "allow_get"@.len());
            assert("allow_post"@.len() != "can_read"@.len());
            assert(is_ascii_text("can_create"@));
            assert("can_create"@.map_values(|c: char| ascii_lower(c)) =~= "can_create"@);
            assert("can_create"@.len() != "allowall"@.len());
            assert("can_create"@.len() != "allow_all"@.len());
            assert("can_create"@.len() != "admin"@.len());
            assert("can_create"@.len() != "allowlist"@.len());
            assert("can_create"@[0] != "allow_list"@[0]);
            assert("can_create"@.len() != "can_list"@.len());
            assert("can_create"@.len() != "allowget"@.len());
            assert("can_create"@.len() != "allow_get"@.len());
            assert("can_create"@.len() != "can_read"@.len());
        },
        Permission::AllowPut => {
            assert(is_ascii_text("AllowPut"@));
            assert("AllowPut"@.map_values(|c: char| ascii_lower(c)) =~= "allowput"@);
            assert("allowput"@[5] != "allowall"@[5]);
            assert("allowput"@.len() != "allow_all"@.len());
            assert("allowput"@.len() != "admin"@.len());
            assert("allowput"@.len() != "allowlist"@.len());
            assert("allowput"@.len() != "allow_list"@.len());
            assert("allowput"@[0] != "can_list"@[0]);
            assert("allowput"@[5] != "allowget"@[5]);
            assert("allowput"@.len() != "allow_get"@.len());
            assert("allowput"@[0] != "can_read"@[0]);
            assert("allowput"@.len() != "allowpost"@.len());
            assert("allowput"@.len() != "allow_post"@.len());
            assert("allowput"@.len() != "can_create"@.len());
            assert(is_ascii_text("ALLOW_PUT"@));
            assert("ALLOW_PUT"@.map_values(|c: char| ascii_lower(c)) =~= "allow_put"@);
            assert("allow_put"@.len() != "allowall"@.len());
            assert("allow_put"@[6] != "allow_all"@[6]);
            assert("allow_put"@.len() != "admin"@.len());
            assert("allow_put"@[5] != "allowlist"@[5]);
            assert("allow_put"@.len() != "allow_list"@.len());
            assert("allow_put"@.len() != "can_list"@.len());
            assert("allow_put"@.len() != "allowget"@.len());
            assert("allow_put"@[6] != "allow_get"@[6]);
            assert("allow_put"@.len() != "can_read"@.len());
            assert("allow_put"@[5] != "allowpost"@[5]);
            assert("allow_put"@.len() != "allow_post"@.len());
            assert("allow_put"@.len() != "can_create"@.len());
            assert(is_ascii_text("can_update"@));
            assert("can_update"@.map_values(|c: char| ascii_lower(c)) =~= "can_update"@);
            assert("can_update"@.len() != "allowall"@.len());
            assert("can_update"@.len() != "allow_all"@.len());
            assert("can_update"@.len() != "admin"@.len());
            assert("can_update"@.len() != "allowlist"@.len());
            assert("can_update"@[0] != "allow_list"@[0]);
            assert("can_update"@.len() != "can_list"@.len());
            assert("can_update"@.len() != "allowget"@.len());
            assert("can_update"@.len() != "allow_get"@.len());
            assert("can_update"@.len() != "can_read"@.len());
            assert("can_update"@.len() != "allowpost"@.len());
            assert("can_update"@[0] != "allow_post"@[0]);
            assert("can_update"@[4] != "can_create"@[4]);
        },
        Permission::AllowDelete => {
            assert(is_ascii_text("AllowDelete"@));
            assert("AllowDelete"@.map_values(|c: char| ascii_lower(c)) =~= "allowdelete"@);
            assert("allowdelete"@.len() != "allowall"@.len());
            assert("allowdelete"@.len() != "allow_all"@.len());
            assert("allowdelete"@.len() != "admin"@.len());
            assert("allowdelete"@.len() != "allowlist"@.len());
            assert("allowdelete"@.len() != "allow_list"@.len());
            assert("allowdelete"@.len() != "can_list"@.len());
            assert("allowdelete"@.len() != "allowget"@.len());
            assert("allowdelete"@.len() != "allow_get"@.len());
            assert("allowdelete"@.len() != "can_read"@.len());
            assert("allowdelete"@.len() != "allowpost"@.len());
            assert("allowdelete"@.len() != "allow_post"@.len());
            assert("allowdelete"@.len() != "can_create"@.len());
            assert("allowdelete"@.len() != "allowput"@.len());
            assert("allowdelete"@.len() != "allow_put"@.len());
            assert("allowdelete"@.len() != "can_update"@.len());
            assert(is_ascii_text("ALLOW_DELETE"@));
            assert("ALLOW_DELETE"@.map_values(|c: char| ascii_lower(c)) =~= "allow_delete"@);
            assert("allow_delete"@.len() != "allowall"@.len());
            assert("allow_delete"@.len() != "allow_all"@.len());
            assert("allow_delete"@.len() != "admin"@.len());
            assert("allow_delete"@.len() != "allowlist"@.len());
            assert("allow_delete"@.len() != "allow_list"@.len());
            assert("allow_delete"@.len() != "can_list"@.len());
            assert("allow_delete"@.len() != "allowget"@.len());
            assert("allow_delete"@.len() != "allow_get"@.len());
            assert("allow_delete"@.len() != "can_read"@.len());
            assert("allow_delete"@.len() != "allowpost"@.len());
            assert("allow_delete"@.len() != "allow_post"@.len());
            assert("allow_delete"@.len() != "can_create"@.len());
            assert("allow_delete"@.len() != "allowput"@.len());
            assert("allow_delete"@.len() != "allow_put"@.len());
            assert("allow_delete"@.len() != "can_update"@.len());
            assert(is_ascii_text("can_delete"@));
            assert("can_delete"@.map_values(|c: char| ascii_lower(c)) =~= "can_delete"@);
            assert("can_delete"@.len() != "allowall"@.len());
            assert("can_delete"@.len() != "allow_all"@.len());
            assert("can_delete"@.len() != "admin"@.len());
            assert("can_delete"@.len() != "allowlist"@.len());
            assert("can_delete"@[0] != "allow_list"@[0]);
            assert("can_delete"@.len() != "can_list"@.len());
            assert("can_delete"@.len() != "allowget"@.len());
            assert("can_delete"@.len() != "allow_get"@.len());
            assert("can_delete"@.len() != "can_read"@.len());
            assert("can_delete"@.len() != "allowpost"@.len());
            assert("can_delete"@[0] != "allow_post"@[0]);
            assert("can_delete"@[4] != "can_create"@[4]);
            assert("can_delete"@.len() != "allowput"@.len());
            assert("can_delete"@.len() != "allow_put"@.len());
            assert("can_delete"@[4] != "can_update"@[4]);
        },
    }
}

/// The permission for an upper-cased HTTP method.
pub open spec fn from_uppercase_method_spec(u: Seq<char>, is_list: bool) -> Permission {
    if u == "GET"@ {
        if is_list {
            Permission::AllowList
        } else {
            Permission::AllowGet
        }
    } else if u == "POST"@ {
        Permission::AllowPost
    } else if u == "PUT"@ || u == "PATCH"@ {
        Permission::AllowPut
    } else if u == "DELETE"@ {
        Permission::AllowDelete
    } else {
        Permission::AllowGet
    }
}

/// All permissions, from full access down to delete.
pub open spec fn all_spec() -> Seq<Permission> {
    seq![
        Permission::AllowAll,
        Permission::AllowList,
        Permission::AllowGet,
        Permission::AllowPost,
        Permission::AllowPut,
        Permission::AllowDelete,
    ]
}

impl Permission {
    /// The OpenFGA ALLOW_* relation name.
    pub fn to_relation(&self) -> (r: &'static str)
        ensures
            r@ == relation_spec(*self),
    {
        match self {
            Permission::AllowAll => "ALLOW_ALL",
            Permission::AllowList => "ALLOW_LIST",
            Permission::AllowGet => "ALLOW_GET",
            Permission::AllowPost => "ALLOW_POST",
            Permission::AllowPut => "ALLOW_PUT",
            Permission::AllowDelete => "ALLOW_DELETE",
        }
    }

    /// The relation name used inside OpenFGA tuples.
    pub fn to_internal_relation(&self) -> (r: &'static str)
        ensures
            r@ == internal_relation_spec(*self),
    {
        match self {
            Permission::AllowAll => "admin",
            Permission::AllowList => "can_list",
            Permission::AllowGet => "can_read",
            Permission::AllowPost => "can_create",
            Permission::AllowPut => "can_update",
            Permission::AllowDelete => "can_delete",
        }
    }

    /// The permission for an HTTP method that is already upper-cased.
    pub fn from_uppercase_method(u: &str, is_list: bool) -> (r: Self)
        ensures
            r == from_uppercase_method_spec(u@, is_list),
    {
        if str_eq(u, "GET") {
            if is_list {
                Permission::AllowList
            } else {
                Permission::AllowGet
            }
        } else if str_eq(u, "POST") {
            Permission::AllowPost
        } else if str_eq(u, "PUT") || str_eq(u, "PATCH") {
            Permission::AllowPut
        } else if str_eq(u, "DELETE") {
            Permission::AllowDelete
        } else {
            Permission::AllowGet
        }
    }

    /// The permission that an HTTP method asks for; a GET on a collection lists, and
    /// unknown methods ask for read access.
    pub fn from_method(method: &str, is_list: bool) -> (r: Self)
        ensures
            r == from_uppercase_method_spec(upper_text(method@), is_list),
    {
        let u = to_uppercase(method);
        Self::from_uppercase_method(u.as_str(), is_list)
    }

    /// The permission named by `l`, which is already lower-cased.
    pub fn from_lowercase(l: &str) -> (r: Option<Self>)
        ensures
            r == from_lowercase_spec(l@),
    {
        if str_eq(l, "allowall") || str_eq(l, "allow_all") || str_eq(l, "admin") {
            Some(Permission::AllowAll)
        } else if str_eq(l, "allowlist") || str_eq(l, "allow_list") || str_eq(l, "can_list") {
            Some(Permission::AllowList)
        } else if str_eq(l, "allowget") || str_eq(l, "allow_get") || str_eq(l, "can_read") {
            Some(Permission::AllowGet)
        } else if str_eq(l, "allowpost") || str_eq(l, "allow_post") || str_eq(l, "can_create") {
            Some(Permission::AllowPost)
        } else if str_eq(l, "allowput") || str_eq(l, "allow_put") || str_eq(l, "can_update") {
            Some(Permission::AllowPut)
        } else if str_eq(l, "allowdelete") || str_eq(l, "allow_delete") || str_eq(
            l,
            "can_delete",
        ) {
            Some(Permission::AllowDelete)
        } else {
            None
        }
    }

    /// Parses a permission name case-insensitively.
    pub fn from_str(s: &str) -> (r: Option<Self>)
        ensures
            r == from_lowercase_spec(lower_text(s@)),
    {
        let l = to_lowercase(s);
        Self::from_lowercase(l.as_str())
    }

    /// All permissions.
    pub fn all() -> (r: Vec<Permission>)
        ensures
            r@ == all_spec(),
    {
        let r = vec![
            Permission::AllowAll,
            Permission::AllowList,
            Permission::AllowGet,
            Permission::AllowPost,
            Permission::AllowPut,
            Permission::AllowDelete,
        ];
        assert(r@ =~= all_spec());
        r
    }

    /// The display name.
    pub fn as_str(&self) -> (r: &'static str)
        ensures
            r@ == name_spec(*self),
    {
        match self {
            Permission::AllowAll => "AllowAll",
            Permission::AllowList => "AllowList",
            Permission::AllowGet => "AllowGet",
            Permission::AllowPost => "AllowPost",
            Permission::AllowPut => "AllowPut",
            Permission::AllowDelete => "AllowDelete",
        }
    }
}

/// A permission granted on an object "resource_type:entity_id".
#[derive(Debug, Clone)]
pub struct O2EntityAuthorization {
    pub object: String,
    pub permission: Permission,
}

/// The first ':'-separated segment of `o`.
pub open spec fn first_segment(o: Seq<char>) -> Seq<char> {
    match first_index_of(o, ':') {
        Some(i) => o.subrange(0, i),
        None => o,
    }
}

/// The second ':'-separated segment of `o`, if `o` has one.
pub open spec fn second_segment(o: Seq<char>) -> Option<Seq<char>> {
    match first_index_of(o, ':') {
        Some(i) => Some(first_segment(o.subrange(i + 1, o.len() as int))),
        None => None,
    }
}

impl O2EntityAuthorization {
    /// A grant of `permission` on `object`.
    pub fn new(object: &str, permission: Permission) -> (r: Self)
        ensures
            r.object@ == object@,
            r.permission == permission,
    {
        O2EntityAuthorization { object: owned(object), permission }
    }

    /// The resource type: the object up to its first ':' (all of it when there is none).
    pub fn resource_type(&self) -> (r: Option<&str>)
        ensures
            r is Some && r->0@ == first_segment(self.object@),
    {
        let s = self.object.as_str();
        let v = chars_of(s);
        proof {
            lemma_first_index_of_props(s@, ':');
        }
        match find_char(&v, ':') {
            Some(i) => Some(substring(s, 0, i)),
            None => Some(s),
        }
    }

    /// The entity ID: the segment after the first ':' up to the next ':'; `None` when the
    /// object has no ':'.
    pub fn entity_id(&self) -> (r: Option<&str>)
        ensures
            match (r, second_segment(self.object@)) {
                (Some(a), Some(b)) => a@ == b,
                (None, None) => true,
                _ => false,
            },
    {
        let s = self.object.as_str();
        let v = chars_of(s);
        proof {
            lemma_first_index_of_props(s@, ':');
        }
        match find_char(&v, ':') {
            Some(i) => {
                let n = v.len();
                let rest = substring(s, i + 1, n);
                let w = chars_of(rest);
                proof {
                    lemma_first_index_of_props(rest@, ':');
                }
                match find_char(&w, ':') {
                    Some(j) => Some(substring(rest, 0, j)),
                    None => Some(rest),
                }
            },
            None => None,
        }
    }
}

/// Whether an optional set is absent or empty.
pub open spec fn absent_or_empty(o: Option<HashSet<String>>) -> bool {
    match o {
        Some(s) => s@.is_empty(),
        None => true,
    }
}

fn is_absent_or_empty(o: &Option<HashSet<String>>) -> (r: bool)
    ensures
        r == absent_or_empty(*o),
{
    match o {
        Some(s) => s.is_empty(),
        None => true,
    }
}

/// Changes to a role's permissions and users.
#[derive(Debug, Clone)]
pub struct RoleRequest {
    /// Permissions to grant.
    pub add: Vec<O2EntityAuthorization>,
    /// Permissions to revoke.
    pub remove: Vec<O2EntityAuthorization>,
    /// Users to assign.
    pub add_users: Option<HashSet<String>>,
    /// Users to unassign.
    pub remove_users: Option<HashSet<String>>,
}

impl Default for RoleRequest {
    fn default() -> (r: Self)
        ensures
            r.add@.len() == 0,
            r.remove@.len() == 0,
            r.add_users is None,
            r.remove_users is None,
    {
        RoleRequest { add: Vec::new(), remove: Vec::new(), add_users: None, remove_users: None }
    }
}

impl RoleRequest {
    /// A request that changes nothing.
    pub fn new() -> (r: Self)
        ensures
            r.add@.len() == 0,
            r.remove@.len() == 0,
            r.add_users is None,
            r.remove_users is None,
    {
        Self::default()
    }

    /// The same request, also granting `authorization`.
    pub fn with_add(self, authorization: O2EntityAuthorization) -> (r: Self)
        ensures
            r.add@ == self.add@.push(authorization),
            r.remove == self.remove,
            r.add_users == self.add_users,
            r.remove_users == self.remove_users,
    {
        let mut s = self;
        s.add.push(authorization);
        s
    }

    /// The same request, also revoking `authorization`.
    pub fn with_remove(self, authorization: O2EntityAuthorization) -> (r: Self)
        ensures
            r.remove@ == self.remove@.push(authorization),
            r.add == self.add,
            r.add_users == self.add_users,
            r.remove_users == self.remove_users,
    {
        let mut s = self;
        s.remove.push(authorization);
        s
    }

    /// The same request, assigning `users`.
    pub fn with_add_users(self, users: HashSet<String>) -> (r: Self)
        ensures
            r.add_users == Some(users),
            r.add == self.add,
            r.remove == self.remove,
            r.remove_users == self.remove_users,
    {
        let mut s = self;
        s.add_users = Some(users);
        s
    }

    /// The same request, unassigning `users`.
    pub fn with_remove_users(self, users: HashSet<String>) -> (r: Self)
        ensures
            r.remove_users == Some(users),
            r.add == self.add,
            r.remove == self.remove,
            r.add_users == self.add_users,
    {
        let mut s = self;
        s.remove_users = Some(users);
        s
    }

    /// Whether the request changes nothing.
    pub fn is_empty(&self) -> (r: bool)
        ensures
            r == (self.add@.len() == 0 && self.remove@.len() == 0 && absent_or_empty(
                self.add_users,
            ) && absent_or_empty(self.remove_users)),
    {
        self.add.len() == 0 && self.remove.len() == 0 && is_absent_or_empty(&self.add_users)
            && is_absent_or_empty(&self.remove_users)
    }
}

/// Changes to a group's users and roles.
#[derive(Debug, Clone)]
pub struct GroupRequest {
    /// Users to add.
    pub add_users: Option<HashSet<String>>,
    /// Users to remove.
    pub remove_users: Option<HashSet<String>>,
    /// Roles to add.
    pub add_roles: Option<HashSet<String>>,
    /// Roles to remove.
    pub remove_roles: Option<HashSet<String>>,
}

impl Default for GroupRequest {
    fn default() -> (r: Self)
        ensures
            r.add_users is None,
            r.remove_users is None,
            r.add_roles is None,
            r.remove_roles is None,
    {
        GroupRequest { add_users: None, remove_users: None, add_roles: None, remove_roles: None }
    }
}

impl GroupRequest {
    /// A request that changes nothing.
    pub fn new() -> (r: Self)
        ensures
            r.add_users is None,
            r.remove_users is None,
            r.add_roles is None,
            r.remove_roles is None,
    {
        Self::default()
    }

    /// Whether the request changes nothing.
    pub fn is_empty(&self) -> (r: bool)
        ensures
            r == (absent_or_empty(self.add_users) && absent_or_empty(self.remove_users)
                && absent_or_empty(self.add_roles) && absent_or_empty(self.remove_roles)),
    {
        is_absent_or_empty(&self.add_users) && is_absent_or_empty(&self.remove_users)
            && is_absent_or_empty(&self.add_roles) && is_absent_or_empty(&self.remove_roles)
    }
}

} // verus!
