//! Request and response types of the role, group, user and SSO management API.
use std::collections::{HashMap, HashSet};
use vstd::prelude::*;
use crate::text::owned;

verus! {

/// Request to create a role.
#[derive(Debug, Clone)]
pub struct CreateRoleRequest {
    pub role: String,
}

/// Request to change a role's permissions and users.
#[derive(Debug, Clone)]
pub struct UpdateRoleRequest {
    /// Permissions to add.
    pub add: Option<Vec<PermissionEntry>>,
    /// Permissions to remove.
    pub remove: Option<Vec<PermissionEntry>>,
    /// Users to add to the role.
    pub add_users: Option<HashSet<String>>,
    /// Users to remove from the role.
    pub remove_users: Option<HashSet<String>>,
}

/// A permission on an object.
#[derive(Debug, Clone)]
pub struct PermissionEntry {
    /// Object as "resource:entity", such as "logs:_all_org123".
    pub object: String,
    /// Permission name, such as "AllowGet" or "AllowAll".
    pub permission: String,
}

/// A role as the API reports it.
#[derive(Debug, Clone)]
pub struct RoleResponse {
    pub id: String,
    pub name: String,
    pub display_name: Option<String>,
    pub description: Option<String>,
    pub is_system: bool,
    pub created_at: i64,
    pub updated_at: i64,
}

/// The permissions of a role.
#[derive(Debug, Clone)]
pub struct RolePermissionsResponse {
    pub role_id: String,
    pub role_name: String,
    pub permissions: Vec<PermissionEntry>,
}

/// The users of a role.
#[derive(Debug, Clone)]
pub struct RoleUsersResponse {
    pub role_id: String,
    pub role_name: String,
    pub users: Vec<String>,
}

/// Request to create a group.
#[derive(Debug, Clone)]
pub struct CreateGroupRequest {
    pub name: String,
    pub display_name: Option<String>,
    pub description: Option<String>,
}

/// Request to change a group's roles and users.
#[derive(Debug, Clone)]
pub struct UpdateGroupRequest {
    /// Roles to add to the group.
    pub add_roles: Option<HashSet<String>>,
    /// Roles to remove from the group.
    pub remove_roles: Option<HashSet<String>>,
    /// Users to add to the group.
    pub add_users: Option<HashSet<String>>,
    /// Users to remove from the group.
    pub remove_users: Option<HashSet<String>>,
}

/// A group as the API reports it.
#[derive(Debug, Clone)]
pub struct GroupResponse {
    pub id: String,
    pub name: String,
    pub display_name: Option<String>,
    pub description: Option<String>,
    pub roles: Vec<String>,
    pub users: Vec<String>,
    pub created_at: i64,
    pub updated_at: i64,
}

/// The roles of a user: assigned directly, and inherited from groups.
#[derive(Debug, Clone)]
pub struct UserRolesResponse {
    pub user_email: String,
    /// Roles assigned to the user.
    pub direct_roles: Vec<RoleResponse>,
    /// Roles inherited from groups.
    pub group_roles: Vec<GroupRoleInfo>,
}

/// A role inherited from a group.
#[derive(Debug, Clone)]
pub struct GroupRoleInfo {
    pub group_name: String,
    pub role: RoleResponse,
}

/// The groups of a user.
#[derive(Debug, Clone)]
pub struct UserGroupsResponse {
    pub user_email: String,
    pub groups: Vec<GroupResponse>,
}

/// An SSO provider as the API reports it.
#[derive(Debug, Clone)]
pub struct SSOProviderResponse {
    pub id: String,
    pub name: String,
    pub provider_type: String,
    pub is_enabled: bool,
    pub is_default: bool,
    pub created_at: i64,
    pub updated_at: i64,
}

/// Request to create an OIDC provider.
#[derive(Debug, Clone)]
pub struct OIDCProviderRequest {
    pub name: String,
    pub issuer_url: String,
    pub client_id: String,
    pub client_secret: String,
    pub scopes: Option<Vec<String>>,
    pub redirect_uri: Option<String>,
    pub email_claim: Option<String>,
    pub name_claim: Option<String>,
    pub groups_claim: Option<String>,
    pub group_role_mappings: Option<HashMap<String, String>>,
    pub auto_create_users: Option<bool>,
    pub default_role: Option<String>,
    pub is_enabled: Option<bool>,
    pub is_default: Option<bool>,
}

/// Request to create an LDAP provider.
#[derive(Debug, Clone)]
pub struct LDAPProviderRequest {
    pub name: String,
    pub server_url: String,
    pub bind_dn: String,
    pub bind_password: String,
    pub user_base_dn: String,
    pub user_filter: Option<String>,
    pub user_attr_email: Option<String>,
    pub user_attr_name: Option<String>,
    pub group_base_dn: Option<String>,
    pub group_filter: Option<String>,
    pub group_attr_name: Option<String>,
    pub group_role_mappings: Option<HashMap<String, String>>,
    pub auto_create_users: Option<bool>,
    pub default_role: Option<String>,
    pub timeout_seconds: Option<u64>,
    pub use_ssl: Option<bool>,
    pub skip_ssl_verify: Option<bool>,
    pub is_enabled: Option<bool>,
    pub is_default: Option<bool>,
}

/// Query of an SSO login request.
#[derive(Debug, Clone)]
pub struct SSOLoginRequest {
    pub provider_id: Option<String>,
    pub redirect_uri: Option<String>,
}

/// Answer to an SSO login request.
#[derive(Debug, Clone)]
pub struct SSOLoginResponse {
    pub auth_url: String,
    pub state: String,
}

/// Query of an SSO callback.
#[derive(Debug, Clone)]
pub struct SSOCallbackQuery {
    /// Authorization code from the identity provider.
    pub code: Option<String>,
    /// State for CSRF protection.
    pub state: Option<String>,
    /// Error code when authentication failed.
    pub error: Option<String>,
    /// Error description.
    pub error_description: Option<String>,
}

/// A response holding one message.
#[derive(Debug, Clone)]
pub struct MessageResponse {
    pub message: String,
}

impl MessageResponse {
    /// A response with the given message.
    pub fn new(message: &str) -> (r: Self)
        ensures
            r.message@ == message@,
    {
        MessageResponse { message: owned(message) }
    }
}

/// A list of items with their count.
#[derive(Debug, Clone)]
pub struct ListResponse<T> {
    pub items: Vec<T>,
    pub total: usize,
}

impl<T> ListResponse<T> {
    /// A response holding `items`, with `total` their number.
    pub fn new(items: Vec<T>) -> (r: Self)
        ensures
            r.items == items,
            r.total == items@.len(),
    {
        let total = items.len();
        ListResponse { items, total }
    }
}

} // verus!
