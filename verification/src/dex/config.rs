//! Dex authentication settings.
use vstd::prelude::*;
use crate::text::owned;

verus! {

/// Dex authentication settings.
#[derive(Debug, Clone)]
pub struct DexConfig {
    /// Dex gRPC API URL.
    pub grpc_url: String,
    /// OAuth2 client ID.
    pub client_id: String,
    /// OAuth2 client secret.
    pub client_secret: String,
    /// OIDC issuer URL.
    pub issuer_url: String,
    /// OAuth2 redirect URI.
    pub redirect_uri: String,
    /// Organization that new users join.
    pub default_org: String,
    /// Role that new users get.
    pub default_role: String,
    /// Whether username/password login is offered.
    pub native_login_enabled: bool,
    /// Name of the OIDC groups claim.
    pub group_claim: String,
    /// OIDC scopes to request.
    pub scopes: Vec<String>,
    /// Connection timeout in seconds.
    pub timeout_seconds: u64,
}

/// The default OIDC scopes.
pub open spec fn default_scopes_spec() -> Seq<Seq<char>> {
    seq!["openid"@, "email"@, "profile"@, "groups"@, "offline_access"@]
}

/// The views of a vector of strings.
pub open spec fn strings_view(v: Seq<String>) -> Seq<Seq<char>> {
    v.map_values(|s: String| s@)
}

/// Whether `c` holds the default settings in every field except those listed as changed.
pub open spec fn is_default_except_urls(c: DexConfig) -> bool {
    &&& c.default_org@ == "default"@
    &&& c.default_role@ == "viewer"@
    &&& c.native_login_enabled
    &&& c.group_claim@ == "groups"@
    &&& strings_view(c.scopes@) == default_scopes_spec()
    &&& c.timeout_seconds == 30
}

impl Default for DexConfig {
    fn default() -> (r: Self)
        ensures
            r.grpc_url@ == "http://localhost:5557"@,
            r.client_id@ == "openobserve"@,
            r.client_secret@ == Seq::<char>::empty(),
            r.issuer_url@ == "http://localhost:5556"@,
            r.redirect_uri@ == "http://localhost:5080/config/redirect"@,
            is_default_except_urls(r),
    {
        let scopes = vec![
            owned("openid"),
            owned("email"),
            owned("profile"),
            owned("groups"),
            owned("offline_access"),
        ];
        assert(strings_view(scopes@) =~= default_scopes_spec());
        DexConfig {
            grpc_url: owned("http://localhost:5557"),
            client_id: owned("openobserve"),
            client_secret: String::new(),
            issuer_url: owned("http://localhost:5556"),
            redirect_uri: owned("http://localhost:5080/config/redirect"),
            default_org: owned("default"),
            default_role: owned("viewer"),
            native_login_enabled: true,
            group_claim: owned("groups"),
            scopes,
            timeout_seconds: 30,
        }
    }
}

/// Why a configuration is refused.
pub open spec fn validate_spec(c: DexConfig) -> Result<(), Seq<char>> {
    if c.grpc_url@.len() == 0 {
        Err("Dex gRPC URL is required"@)
    } else if c.client_id@.len() == 0 {
        Err("OAuth2 client ID is required"@)
    } else if c.issuer_url@.len() == 0 {
        Err("OIDC issuer URL is required"@)
    } else {
        Ok(())
    }
}

impl DexConfig {
    /// The default settings with the given gRPC URL.
    pub fn new(grpc_url: &str) -> (r: Self)
        ensures
            r.grpc_url@ == grpc_url@,
            r.client_id@ == "openobserve"@,
            r.client_secret@ == Seq::<char>::empty(),
            r.issuer_url@ == "http://localhost:5556"@,
            r.redirect_uri@ == "http://localhost:5080/config/redirect"@,
            is_default_except_urls(r),
    {
        let mut c = DexConfig::default();
        c.grpc_url = owned(grpc_url);
        c
    }

    /// The same settings with another issuer URL.
    pub fn with_issuer(self, issuer_url: &str) -> (r: Self)
        ensures
            r.issuer_url@ == issuer_url@,
            r == (DexConfig { issuer_url: r.issuer_url, ..self }),
    {
        let mut c = self;
        c.issuer_url = owned(issuer_url);
        c
    }

    /// The same settings with other OAuth2 client credentials.
    pub fn with_client(self, client_id: &str, client_secret: &str) -> (r: Self)
        ensures
            r.client_id@ == client_id@,
            r.client_secret@ == client_secret@,
            r == (DexConfig { client_id: r.client_id, client_secret: r.client_secret, ..self }),
    {
        let mut c = self;
        c.client_id = owned(client_id);
        c.client_secret = owned(client_secret);
        c
    }

    /// The same settings with another redirect URI.
    pub fn with_redirect_uri(self, uri: &str) -> (r: Self)
        ensures
            r.redirect_uri@ == uri@,
            r == (DexConfig { redirect_uri: r.redirect_uri, ..self }),
    {
        let mut c = self;
        c.redirect_uri = owned(uri);
        c
    }

    /// Checks that the gRPC URL, client ID and issuer URL are set, in that order.
    pub fn validate(&self) -> (r: Result<(), String>)
        ensures
            match (r, validate_spec(*self)) {
                (Ok(()), Ok(())) => true,
                (Err(m), Err(sm)) => m@ == sm,
                _ => false,
            },
    {
        if self.grpc_url.as_str().is_empty() {
            return Err(owned("Dex gRPC URL is required"));
        }
        if self.client_id.as_str().is_empty() {
            return Err(owned("OAuth2 client ID is required"));
        }
        if self.issuer_url.as_str().is_empty() {
            return Err(owned("OIDC issuer URL is required"));
        }
        Ok(())
    }
}

} // verus!
