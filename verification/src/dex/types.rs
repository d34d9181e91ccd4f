//! Request and response types of the login, token and connector flows.
use vstd::prelude::*;
use crate::text::str_eq;

verus! {

/// Sign-in request.
#[derive(Debug, Clone)]
pub struct SignInUser {
    pub name: String,
    pub password: String,
}

/// Sign-in response.
#[derive(Debug, Clone)]
pub struct SignInResponse {
    pub status: bool,
    pub message: String,
}

/// Data that starts an OIDC login: the state and the URL to send the user to.
#[derive(Debug, Clone)]
pub struct PreLoginData {
    pub state: String,
    pub auth_url: String,
}

/// Tokens issued by the identity provider.
#[derive(Debug, Clone)]
pub struct AuthTokens {
    pub access_token: String,
    pub refresh_token: Option<String>,
    pub id_token: Option<String>,
    pub token_type: String,
    pub expires_in: i64,
}

/// The outcome of validating a token.
#[derive(Debug, Clone)]
pub struct TokenValidationResponse {
    pub is_valid: bool,
    pub user_email: String,
    pub user_name: String,
    pub family_name: String,
    pub given_name: String,
    pub is_internal_user: bool,
    pub user_role: Option<String>,
}

/// Refresh-token request.
#[derive(Debug, Clone)]
pub struct RefreshTokenRequest {
    pub refresh_token: String,
}

/// An SSO provider as the API lists it.
#[derive(Debug, Clone)]
pub struct SsoProvider {
    pub id: String,
    pub provider_type: String,
    pub name: String,
    pub enabled: bool,
}

/// Request to create an OIDC connector.
#[derive(Debug, Clone)]
pub struct CreateOidcConnectorRequest {
    pub id: String,
    pub name: String,
    pub issuer: String,
    pub client_id: String,
    pub client_secret: String,
    pub scopes: Vec<String>,
    pub redirect_uri: Option<String>,
    pub insecure_skip_verify: bool,
    /// Claim that carries the user's groups.
    pub groups_claim: Option<String>,
    /// Claim that carries the user's email.
    pub email_claim: Option<String>,
}

/// Request to create an LDAP connector.
#[derive(Debug, Clone)]
pub struct CreateLdapConnectorRequest {
    pub id: String,
    pub name: String,
    pub host: String,
    pub port: u16,
    pub use_ssl: bool,
    pub start_tls: bool,
    pub insecure_skip_verify: bool,
    /// Bind DN for LDAP queries.
    pub bind_dn: String,
    /// Bind password.
    pub bind_password: String,
    /// Base DN of the user search.
    pub user_search_base_dn: String,
    /// Filter of the user search.
    pub user_search_filter: Option<String>,
    /// Username attribute of the user search.
    pub user_search_username: Option<String>,
    /// ID attribute of the user search.
    pub user_search_id_attr: Option<String>,
    /// Email attribute of the user search.
    pub user_search_email_attr: Option<String>,
    /// Name attribute of the user search.
    pub user_search_name_attr: Option<String>,
    /// Base DN of the group search.
    pub group_search_base_dn: Option<String>,
    /// Filter of the group search.
    pub group_search_filter: Option<String>,
}

/// Request to create a SAML connector.
#[derive(Debug, Clone)]
pub struct CreateSamlConnectorRequest {
    pub id: String,
    pub name: String,
    /// SAML SSO URL.
    pub sso_url: String,
    /// SAML entity issuer.
    pub entity_issuer: Option<String>,
    /// SAML SSO issuer.
    pub sso_issuer: Option<String>,
    /// CA certificate in PEM format.
    pub ca: Option<String>,
    /// Redirect URI.
    pub redirect_uri: Option<String>,
    /// Attribute that carries the name.
    pub name_attr: Option<String>,
    /// Attribute that carries the email.
    pub email_attr: Option<String>,
    /// Attribute that carries the groups.
    pub groups_attr: Option<String>,
}

/// OIDC user information.
#[derive(Debug, Clone)]
pub struct UserInfo {
    pub sub: String,
    pub email: Option<String>,
    pub email_verified: Option<bool>,
    pub name: Option<String>,
    pub given_name: Option<String>,
    pub family_name: Option<String>,
    pub preferred_username: Option<String>,
    pub picture: Option<String>,
    pub groups: Option<Vec<String>>,
}

/// The claims of an ID token.
#[derive(Debug, Clone)]
pub struct JwtClaims {
    pub sub: String,
    pub iss: String,
    pub aud: StringOrVec,
    pub exp: i64,
    pub iat: i64,
    pub email: Option<String>,
    pub email_verified: Option<bool>,
    pub name: Option<String>,
    pub given_name: Option<String>,
    pub family_name: Option<String>,
    pub groups: Option<Vec<String>>,
}

/// An audience claim: one string or several.
#[derive(Debug, Clone)]
pub enum StringOrVec {
    Single(String),
    Multiple(Vec<String>),
}

/// Whether one of the strings is `value`.
pub open spec fn strings_contain(s: Seq<String>, value: Seq<char>) -> bool {
    exists|i: int| 0 <= i < s.len() && #[trigger] s[i]@ == value
}

/// Whether an audience claim names `value`.
pub open spec fn audience_contains(a: StringOrVec, value: Seq<char>) -> bool {
    match a {
        StringOrVec::Single(s) => s@ == value,
        StringOrVec::Multiple(v) => strings_contain(v@, value),
    }
}

impl StringOrVec {
    /// Whether the claim names `value`.
    pub fn contains(&self, value: &str) -> (r: bool)
        ensures
            r == audience_contains(*self, value@),
    {
        match self {
            StringOrVec::Single(s) => str_eq(s.as_str(), value),
            StringOrVec::Multiple(v) => {
                let n = v.len();
                for i in 0..n
                    invariant
                        n == v@.len(),
                        *self == StringOrVec::Multiple(*v),
                        forall|j: int| 0 <= j < i ==> #[trigger] v@[j]@ != value@,
                {
                    if str_eq(v[i].as_str(), value) {
                        assert(v@[i as int]@ == value@);
                        return true;
                    }
                }
                false
            },
        }
    }
}

/// Response that starts an SSO login.
#[derive(Debug, Clone)]
pub struct SsoLoginResponse {
    pub redirect_url: String,
    pub state: String,
}

/// Query parameters of an SSO callback.
#[derive(Debug, Clone)]
pub struct SsoCallbackQuery {
    pub code: Option<String>,
    pub state: Option<String>,
    pub error: Option<String>,
    pub error_description: Option<String>,
}

/// Query parameters that start an SSO login.
#[derive(Debug, Clone)]
pub struct SsoLoginQuery {
    pub connector_id: Option<String>,
}

/// PKCE data of an OAuth2 authorization-code flow.
#[derive(Debug, Clone)]
pub struct PkceData {
    pub code_verifier: String,
    pub code_challenge: String,
    pub state: String,
}

/// A password entry of native login.
#[derive(Debug, Clone)]
pub struct Password {
    pub email: String,
    pub username: String,
    pub user_id: String,
}

/// A refresh token reference.
#[derive(Debug, Clone)]
pub struct RefreshTokenRef {
    pub id: String,
    pub client_id: String,
    pub created_at: Option<i64>,
    pub last_used: Option<i64>,
}

} // verus!
