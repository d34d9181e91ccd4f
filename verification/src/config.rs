//! Module settings: defaults, cache settings and SSO provider settings.
use std::collections::HashMap;
use vstd::prelude::*;
use crate::text::{owned, lower_text, str_eq, to_lowercase, concat2};
use crate::dex::config::strings_view;

verus! {

/// Default OpenFGA URL: "http://localhost:8080".
pub fn default_openfga_url() -> (r: String)
    ensures
        r@ == "http://localhost:8080"@,
{
    owned("http://localhost:8080")
}

/// Default OpenFGA store name: "openobserve".
pub fn default_openfga_store_name() -> (r: String)
    ensures
        r@ == "openobserve"@,
{
    owned("openobserve")
}

/// Default Dex gRPC URL: "http://localhost:5557".
pub fn default_dex_grpc_url() -> (r: String)
    ensures
        r@ == "http://localhost:5557"@,
{
    owned("http://localhost:5557")
}

/// Default Dex issuer URL: "http://localhost:5556".
pub fn default_dex_issuer_url() -> (r: String)
    ensures
        r@ == "http://localhost:5556"@,
{
    owned("http://localhost:5556")
}

/// Default OAuth2 client ID: "openobserve".
pub fn default_dex_client_id() -> (r: String)
    ensures
        r@ == "openobserve"@,
{
    owned("openobserve")
}

/// Default OAuth2 redirect URI.
pub fn default_dex_redirect_uri() -> (r: String)
    ensures
        r@ == "http://localhost:5080/config/redirect"@,
{
    owned("http://localhost:5080/config/redirect")
}

/// Default number of logs analyzed for patterns.
pub fn default_log_patterns_max_logs() -> (r: usize)
    ensures
        r == 10000,
{
    10000
}

/// Default minimum cluster size of a pattern.
pub fn default_log_patterns_min_cluster_size() -> (r: usize)
    ensures
        r == 2,
{
    2
}

/// Default depth of the pattern tree.
pub fn default_log_patterns_drain_depth() -> (r: usize)
    ensures
        r == 4,
{
    4
}

/// Default number of children per tree node.
pub fn default_log_patterns_drain_max_child() -> (r: usize)
    ensures
        r == 100,
{
    100
}

/// Default maximum number of patterns.
pub fn default_log_patterns_max_clusters() -> (r: usize)
    ensures
        r == 1000,
{
    1000
}

/// Permission cache settings.
#[derive(Debug, Clone)]
pub struct CacheConfig {
    /// Whether the permission cache is used.
    pub enabled: bool,
    /// Time to live of an entry, in seconds.
    pub ttl_seconds: u64,
    /// Maximum number of entries.
    pub max_entries: usize,
}

impl Default for CacheConfig {
    fn default() -> (r: Self)
        ensures
            r.enabled,
            r.ttl_seconds == 300,
            r.max_entries == 10000,
    {
        CacheConfig { enabled: true, ttl_seconds: 300, max_entries: 10000 }
    }
}

/// OIDC provider settings.
#[derive(Debug, Clone)]
pub struct OIDCConfig {
    pub issuer_url: String,
    pub client_id: String,
    pub client_secret: String,
    /// Scopes to request.
    pub scopes: Vec<String>,
    /// Redirect URI after authentication.
    pub redirect_uri: String,
    /// Claim that carries the email.
    pub email_claim: String,
    /// Claim that carries the display name.
    pub name_claim: String,
    /// Claim that carries the groups.
    pub groups_claim: Option<String>,
    /// External group to internal role.
    pub group_role_mappings: HashMap<String, String>,
    /// Whether users are created at their first login.
    pub auto_create_users: bool,
    /// Role of created users.
    pub default_role: Option<String>,
}

/// Default OIDC scopes: openid, profile, email.
pub fn default_oidc_scopes() -> (r: Vec<String>)
    ensures
        strings_view(r@) == seq!["openid"@, "profile"@, "email"@],
{
    let r = vec![owned("openid"), owned("profile"), owned("email")];
    assert(strings_view(r@) =~= seq!["openid"@, "profile"@, "email"@]);
    r
}

/// Default email claim: "email".
pub fn default_email_claim() -> (r: String)
    ensures
        r@ == "email"@,
{
    owned("email")
}

/// Default name claim: "name".
pub fn default_name_claim() -> (r: String)
    ensures
        r@ == "name"@,
{
    owned("name")
}

/// Default of the boolean switches: on.
pub fn default_true() -> (r: bool)
    ensures
        r,
{
    true
}

/// LDAP provider settings.
#[derive(Debug, Clone)]
pub struct LDAPConfig {
    pub server_url: String,
    pub bind_dn: String,
    pub bind_password: String,
    pub user_base_dn: String,
    /// User search filter.
    pub user_filter: String,
    /// Attribute that carries the email.
    pub user_attr_email: String,
    /// Attribute that carries the display name.
    pub user_attr_name: String,
    pub group_base_dn: Option<String>,
    pub group_filter: Option<String>,
    /// Attribute that carries the group name.
    pub group_attr_name: String,
    /// LDAP group to internal role.
    pub group_role_mappings: HashMap<String, String>,
    pub use_ssl: bool,
    pub skip_ssl_verify: bool,
    /// Connection timeout in seconds.
    pub timeout_seconds: u64,
}

/// Default user search filter.
pub fn default_user_filter() -> (r: String)
    ensures
        r@ == "(&(objectClass=person)(uid={0}))"@,
{
    owned("(&(objectClass=person)(uid={0}))")
}

/// Default email attribute: "mail".
pub fn default_ldap_email_attr() -> (r: String)
    ensures
        r@ == "mail"@,
{
    owned("mail")
}

/// Default name attribute: "cn".
pub fn default_ldap_name_attr() -> (r: String)
    ensures
        r@ == "cn"@,
{
    owned("cn")
}

/// Default group search filter.
pub fn default_group_filter() -> (r: String)
    ensures
        r@ == "(&(objectClass=groupOfNames)(member={0}))"@,
{
    owned("(&(objectClass=groupOfNames)(member={0}))")
}

/// Default group name attribute: "cn".
pub fn default_ldap_group_attr() -> (r: String)
    ensures
        r@ == "cn"@,
{
    owned("cn")
}

/// Default LDAP timeout: 10 seconds.
pub fn default_ldap_timeout() -> (r: u64)
    ensures
        r == 10,
{
    10
}

/// Kind of SSO provider.
#[derive(Debug, Clone, Copy, PartialEq, Eq, Structural)]
pub enum SSOProviderType {
    OIDC,
    LDAP,
}

/// The lower-case name of a provider type.
pub open spec fn provider_type_name(t: SSOProviderType) -> Seq<char> {
    match t {
        SSOProviderType::OIDC => "oidc"@,
        SSOProviderType::LDAP => "ldap"@,
    }
}

/// The provider type a string names, case-insensitively, or the refusal message.
pub open spec fn parse_provider_type_spec(s: Seq<char>) -> Result<SSOProviderType, Seq<char>> {
    if lower_text(s) == "oidc"@ {
        Ok(SSOProviderType::OIDC)
    } else if lower_text(s) == "ldap"@ {
        Ok(SSOProviderType::LDAP)
    } else {
        Err("Invalid SSO provider type: "@ + s)
    }
}

impl SSOProviderType {
    /// The lower-case name: "oidc" or "ldap".
    pub fn as_str(&self) -> (r: &'static str)
        ensures
            r@ == provider_type_name(*self),
    {
        match self {
            SSOProviderType::OIDC => "oidc",
            SSOProviderType::LDAP => "ldap",
        }
    }

    /// Parses a provider type case-insensitively.
    pub fn parse(s: &str) -> (r: Result<SSOProviderType, String>)
        ensures
            match (r, parse_provider_type_spec(s@)) {
                (Ok(a), Ok(b)) => a == b,
                (Err(m), Err(sm)) => m@ == sm,
                _ => false,
            },
    {
        let l = to_lowercase(s);
        if str_eq(l.as_str(), "oidc") {
            Ok(SSOProviderType::OIDC)
        } else if str_eq(l.as_str(), "ldap") {
            Ok(SSOProviderType::LDAP)
        } else {
            Err(concat2("Invalid SSO provider type: ", s))
        }
    }
}

impl std::str::FromStr for SSOProviderType {
    type Err = String;

    fn from_str(s: &str) -> (r: Result<Self, Self::Err>)
        ensures
            match (r, parse_provider_type_spec(s@)) {
                (Ok(a), Ok(b)) => a == b,
                (Err(m), Err(sm)) => m@ == sm,
                _ => false,
            },
    {
        SSOProviderType::parse(s)
    }
}

} // verus!
