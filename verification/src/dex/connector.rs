//! Connector settings: what each kind of connector is configured with, and the providers
//! that the connectors stand for.
use vstd::prelude::*;
use crate::text::{owned, concat3, copy_string, usize_to_decimal, decimal, str_eq};
use super::error::Error;
use super::types::{CreateOidcConnectorRequest, CreateLdapConnectorRequest,
    CreateSamlConnectorRequest, SsoProvider};

verus! {

/// An optional string, or `default` when absent.
pub open spec fn or_default(s: Option<String>, default: Seq<char>) -> Seq<char> {
    match s {
        Some(t) => t@,
        None => default,
    }
}

/// An optional string, or `default` when absent.
fn take_or(s: Option<String>, default: &str) -> (r: String)
    ensures
        r@ == or_default(s, default@),
{
    match s {
        Some(t) => t,
        None => owned(default),
    }
}

/// The configuration of an OIDC connector.
#[derive(Debug, Clone)]
pub struct OidcConnectorConfig {
    pub issuer: String,
    pub client_id: String,
    pub client_secret: String,
    pub redirect_uri: Option<String>,
    pub scopes: Vec<String>,
    pub insecure_skip_email_verified: bool,
    pub insecure_enable_groups: bool,
    pub get_user_info: bool,
    /// Claim that carries the groups.
    pub groups_claim: String,
    /// Claim that carries the email.
    pub email_claim: String,
}

/// The configuration of an OIDC connector: the request's issuer, client, redirect URI
/// and scopes; email verification kept, groups enabled, user info fetched; the groups
/// claim "groups" and the email claim "email" unless the request names others.
pub fn oidc_connector_config(req: CreateOidcConnectorRequest) -> (r: OidcConnectorConfig)
    ensures
        r.issuer == req.issuer,
        r.client_id == req.client_id,
        r.client_secret == req.client_secret,
        r.redirect_uri == req.redirect_uri,
        r.scopes == req.scopes,
        !r.insecure_skip_email_verified,
        r.insecure_enable_groups,
        r.get_user_info,
        r.groups_claim@ == or_default(req.groups_claim, "groups"@),
        r.email_claim@ == or_default(req.email_claim, "email"@),
{
    OidcConnectorConfig {
        issuer: req.issuer,
        client_id: req.client_id,
        client_secret: req.client_secret,
        redirect_uri: req.redirect_uri,
        scopes: req.scopes,
        insecure_skip_email_verified: false,
        insecure_enable_groups: true,
        get_user_info: true,
        groups_claim: take_or(req.groups_claim, "groups"),
        email_claim: take_or(req.email_claim, "email"),
    }
}

/// The user search of an LDAP connector.
#[derive(Debug, Clone)]
pub struct LdapUserSearch {
    pub base_dn: String,
    pub filter: String,
    pub username: String,
    pub id_attr: String,
    pub email_attr: String,
    pub name_attr: String,
}

/// The group search of an LDAP connector: groups under `base_dn` whose "member" holds a
/// user's DN, named by "cn".
#[derive(Debug, Clone)]
pub struct LdapGroupSearch {
    pub base_dn: String,
    pub filter: String,
    pub user_attr: String,
    pub group_attr: String,
    pub name_attr: String,
}

/// The configuration of an LDAP connector.
#[derive(Debug, Clone)]
pub struct LdapConnectorConfig {
    /// "{host}:{port}".
    pub host: String,
    pub insecure_no_ssl: bool,
    pub start_tls: bool,
    pub insecure_skip_verify: bool,
    pub bind_dn: String,
    pub bind_pw: String,
    pub user_search: LdapUserSearch,
    pub group_search: Option<LdapGroupSearch>,
}

/// The configuration of an LDAP connector: the host and port as "{host}:{port}", plain
/// connections when SSL is off, the request's TLS and bind settings; the user search
/// with the filter "(objectClass=person)", the attributes "uid", "uid", "mail" and "cn"
/// unless the request names others; a group search only when the request names its base
/// DN, with the filter "(objectClass=groupOfNames)" unless named.
pub fn ldap_connector_config(req: CreateLdapConnectorRequest) -> (r: LdapConnectorConfig)
    ensures
        r.host@ == req.host@ + ":"@ + decimal(req.port as nat),
        r.insecure_no_ssl == !req.use_ssl,
        r.start_tls == req.start_tls,
        r.insecure_skip_verify == req.insecure_skip_verify,
        r.bind_dn == req.bind_dn,
        r.bind_pw == req.bind_password,
        r.user_search.base_dn == req.user_search_base_dn,
        r.user_search.filter@ == or_default(req.user_search_filter, "(objectClass=person)"@),
        r.user_search.username@ == or_default(req.user_search_username, "uid"@),
        r.user_search.id_attr@ == or_default(req.user_search_id_attr, "uid"@),
        r.user_search.email_attr@ == or_default(req.user_search_email_attr, "mail"@),
        r.user_search.name_attr@ == or_default(req.user_search_name_attr, "cn"@),
        match r.group_search {
            Some(g) => req.group_search_base_dn == Some(g.base_dn) && g.filter@ == or_default(
                req.group_search_filter,
                "(objectClass=groupOfNames)"@,
            ) && g.user_attr@ == "DN"@ && g.group_attr@ == "member"@ && g.name_attr@ == "cn"@,
            None => req.group_search_base_dn is None,
        },
{
    let port = usize_to_decimal(req.port as usize);
    let host = concat3(req.host.as_str(), ":", port.as_str());
    let group_search = match req.group_search_base_dn {
        Some(base_dn) => Some(
            LdapGroupSearch {
                base_dn,
                filter: take_or(req.group_search_filter, "(objectClass=groupOfNames)"),
                user_attr: owned("DN"),
                group_attr: owned("member"),
                name_attr: owned("cn"),
            },
        ),
        None => None,
    };
    LdapConnectorConfig {
        host,
        insecure_no_ssl: !req.use_ssl,
        start_tls: req.start_tls,
        insecure_skip_verify: req.insecure_skip_verify,
        bind_dn: req.bind_dn,
        bind_pw: req.bind_password,
        user_search: LdapUserSearch {
            base_dn: req.user_search_base_dn,
            filter: take_or(req.user_search_filter, "(objectClass=person)"),
            username: take_or(req.user_search_username, "uid"),
            id_attr: take_or(req.user_search_id_attr, "uid"),
            email_attr: take_or(req.user_search_email_attr, "mail"),
            name_attr: take_or(req.user_search_name_attr, "cn"),
        },
        group_search,
    }
}

/// The configuration of a SAML connector.
#[derive(Debug, Clone)]
pub struct SamlConnectorConfig {
    pub sso_url: String,
    pub entity_issuer: Option<String>,
    pub sso_issuer: Option<String>,
    pub ca: Option<String>,
    pub redirect_uri: Option<String>,
    /// Always "emailAddress".
    pub name_id_policy_format: String,
    pub username_attr: String,
    pub email_attr: String,
    pub groups_attr: String,
}

/// The configuration of a SAML connector: the request's URL, issuers, CA and redirect
/// URI; name IDs as email addresses; the attributes "name", "email" and "groups" unless
/// the request names others.
pub fn saml_connector_config(req: CreateSamlConnectorRequest) -> (r: SamlConnectorConfig)
    ensures
        r.sso_url == req.sso_url,
        r.entity_issuer == req.entity_issuer,
        r.sso_issuer == req.sso_issuer,
        r.ca == req.ca,
        r.redirect_uri == req.redirect_uri,
        r.name_id_policy_format@ == "emailAddress"@,
        r.username_attr@ == or_default(req.name_attr, "name"@),
        r.email_attr@ == or_default(req.email_attr, "email"@),
        r.groups_attr@ == or_default(req.groups_attr, "groups"@),
{
    SamlConnectorConfig {
        sso_url: req.sso_url,
        entity_issuer: req.entity_issuer,
        sso_issuer: req.sso_issuer,
        ca: req.ca,
        redirect_uri: req.redirect_uri,
        name_id_policy_format: owned("emailAddress"),
        username_attr: take_or(req.name_attr, "name"),
        email_attr: take_or(req.email_attr, "email"),
        groups_attr: take_or(req.groups_attr, "groups"),
    }
}

#[verifier::external_type_specification]
#[verifier::external_body]
pub struct ExJsonValue(serde_json::Value);

/// A connector as Dex describes it.
#[derive(Debug)]
pub struct Connector {
    pub id: String,
    /// The kind of connector: "oidc", "ldap", "saml".
    pub connector_type: String,
    pub name: String,
    /// The connector's configuration.
    pub config: serde_json::Value,
}

/// A connector as the API describes it.
#[derive(Debug)]
pub struct ConnectorResponse {
    pub id: String,
    /// The kind of connector: "oidc", "ldap", "saml".
    pub connector_type: String,
    pub name: String,
    /// The connector's configuration.
    pub config: serde_json::Value,
}

/// The providers that connectors stand for, in order; every one counts as enabled.
pub fn providers_from_connectors(connectors: Vec<Connector>) -> (r: Vec<SsoProvider>)
    ensures
        r@.len() == connectors@.len(),
        forall|i: int|
            0 <= i < r@.len() ==> (#[trigger] r@[i]).id == connectors@[i].id && r@[i].provider_type
                == connectors@[i].connector_type && r@[i].name == connectors@[i].name
                && r@[i].enabled,
{
    let mut out: Vec<SsoProvider> = Vec::new();
    let ghost all = connectors@;
    for c in it: connectors.into_iter()
        invariant
            it.seq() == all,
            out@.len() == it.index(),
            forall|i: int|
                0 <= i < out@.len() ==> (#[trigger] out@[i]).id == all[i].id && out@[i].provider_type
                    == all[i].connector_type && out@[i].name == all[i].name && out@[i].enabled,
    {
        out.push(SsoProvider { id: c.id, provider_type: c.connector_type, name: c.name, enabled: true });
    }
    out
}

/// The provider with ID `id`: the first of that ID; `ConnectorNotFound` with the ID when
/// there is none.
pub fn find_provider(providers: Vec<SsoProvider>, id: &str) -> (r: Result<SsoProvider, Error>)
    ensures
        match r {
            Ok(p) => p.id@ == id@ && exists|i: int|
                0 <= i < providers@.len() && providers@[i] == p && forall|j: int|
                    0 <= j < i ==> (#[trigger] providers@[j]).id@ != id@,
            Err(Error::ConnectorNotFound(m)) => m@ == id@ && forall|j: int|
                0 <= j < providers@.len() ==> (#[trigger] providers@[j]).id@ != id@,
            Err(_) => false,
        },
{
    let ghost all = providers@;
    for p in it: providers.into_iter()
        invariant
            it.seq() == all,
            forall|j: int| 0 <= j < it.index() ==> (#[trigger] all[j]).id@ != id@,
    {
        if str_eq(p.id.as_str(), id) {
            proof {
                let i = it.index() as int;
                assert(all[i] == p);
            }
            return Ok(p);
        }
    }
    Err(Error::ConnectorNotFound(owned(id)))
}

} // verus!
