//! The decisions of the login endpoints: what a callback must carry, the cookies that
//! hold a session and clear it, and the answers about a session.
use vstd::prelude::*;
use crate::text::{owned, concat3, copy_string};
use super::error::Error;
use super::types::{AuthTokens, SsoCallbackQuery, SignInResponse};

verus! {

/// The code and state of an SSO callback: an `InvalidToken` "{error}: {description}" when
/// the identity provider reports an error (the description "" when absent), "Missing
/// authorization code" without a code, "Missing state parameter" without a state.
pub fn callback_code_and_state(query: SsoCallbackQuery) -> (r: Result<(String, String), Error>)
    ensures
        match r {
            Ok((code, state)) => query.error is None && query.code == Some(code) && query.state
                == Some(state),
            Err(Error::InvalidToken(m)) => match query.error {
                Some(e) => m@ == e@ + ": "@ + match query.error_description {
                    Some(d) => d@,
                    None => Seq::<char>::empty(),
                },
                None => match query.code {
                    None => m@ == "Missing authorization code"@,
                    Some(_) => query.state is None && m@ == "Missing state parameter"@,
                },
            },
            Err(_) => false,
        },
{
    match query.error {
        Some(e) => {
            let description = match query.error_description {
                Some(d) => d,
                None => String::new(),
            };
            return Err(Error::InvalidToken(concat3(e.as_str(), ": ", description.as_str())));
        },
        None => {},
    }
    let code = match query.code {
        Some(c) => c,
        None => {
            return Err(Error::InvalidToken(owned("Missing authorization code")));
        },
    };
    let state = match query.state {
        Some(s) => s,
        None => {
            return Err(Error::InvalidToken(owned("Missing state parameter")));
        },
    };
    Ok((code, state))
}

/// The SameSite policy of a cookie.
#[derive(Debug, Clone, Copy, PartialEq, Eq, Structural)]
pub enum SameSite {
    Lax,
    Strict,
}

/// A cookie to set on a response.
#[derive(Debug, Clone)]
pub struct CookieSpec {
    pub name: String,
    pub value: String,
    pub path: String,
    pub http_only: bool,
    pub secure: bool,
    pub same_site: Option<SameSite>,
    /// Lifetime in seconds; 0 removes the cookie.
    pub max_age_seconds: i64,
}

/// The abstract value of a cookie: (name, value, path, http_only, secure, same_site,
/// max_age_seconds).
pub open spec fn cookie_view(c: CookieSpec) -> (Seq<char>, Seq<char>, Seq<char>, bool, bool, Option<SameSite>, i64) {
    (c.name@, c.value@, c.path@, c.http_only, c.secure, c.same_site, c.max_age_seconds)
}

/// Thirty days in seconds.
pub const REFRESH_COOKIE_SECONDS: i64 = 2592000;

/// The cookies that hold a session after a login: "auth_token" with the access token on
/// "/", for the token's lifetime, and, when there is a refresh token, "refresh_token" on
/// "/auth" for thirty days; both HTTP-only and secure, the first SameSite=Lax, the
/// second Strict.
pub fn session_cookies(tokens: &AuthTokens) -> (r: Vec<CookieSpec>)
    ensures
        r@.len() == if tokens.refresh_token is Some { 2nat } else { 1nat },
        cookie_view(r@[0]) == ("auth_token"@, tokens.access_token@, "/"@, true, true, Some(SameSite::Lax), tokens.expires_in),
        match tokens.refresh_token {
            Some(t) => cookie_view(r@[1]) == ("refresh_token"@, t@, "/auth"@, true, true, Some(SameSite::Strict), REFRESH_COOKIE_SECONDS),
            None => true,
        },
{
    let mut r: Vec<CookieSpec> = Vec::new();
    r.push(
        CookieSpec {
            name: owned("auth_token"),
            value: copy_string(&tokens.access_token),
            path: owned("/"),
            http_only: true,
            secure: true,
            same_site: Some(SameSite::Lax),
            max_age_seconds: tokens.expires_in,
        },
    );
    match &tokens.refresh_token {
        Some(t) => {
            r.push(
                CookieSpec {
                    name: owned("refresh_token"),
                    value: copy_string(t),
                    path: owned("/auth"),
                    http_only: true,
                    secure: true,
                    same_site: Some(SameSite::Strict),
                    max_age_seconds: REFRESH_COOKIE_SECONDS,
                },
            );
        },
        None => {},
    }
    r
}

/// A cookie that removes the cookie `name` on `path`.
pub fn clearing_cookie(name: &str, path: &str) -> (r: CookieSpec)
    ensures
        cookie_view(r) == (name@, Seq::<char>::empty(), path@, false, false, None::<SameSite>, 0i64),
{
    CookieSpec {
        name: owned(name),
        value: String::new(),
        path: owned(path),
        http_only: false,
        secure: false,
        same_site: None,
        max_age_seconds: 0,
    }
}

/// The cookies that end a session: "auth_token" on "/" and "refresh_token" on "/auth",
/// both removed.
pub fn logout_cookies() -> (r: Vec<CookieSpec>)
    ensures
        r@.len() == 2,
        cookie_view(r@[0]) == ("auth_token"@, Seq::<char>::empty(), "/"@, false, false, None::<SameSite>, 0i64),
        cookie_view(r@[1]) == ("refresh_token"@, Seq::<char>::empty(), "/auth"@, false, false, None::<SameSite>, 0i64),
{
    let mut r: Vec<CookieSpec> = Vec::new();
    r.push(clearing_cookie("auth_token", "/"));
    r.push(clearing_cookie("refresh_token", "/auth"));
    r
}

/// A sign-in answer.
fn sign_in(status: bool, message: &str) -> (r: SignInResponse)
    ensures
        r.status == status,
        r.message@ == message@,
{
    SignInResponse { status, message: owned(message) }
}

/// The answer to a login with credentials that were refused.
pub fn invalid_credentials() -> (r: SignInResponse)
    ensures
        !r.status,
        r.message@ == "Invalid credentials"@,
{
    sign_in(false, "Invalid credentials")
}

/// The answer to a logout.
pub fn logged_out() -> (r: SignInResponse)
    ensures
        r.status,
        r.message@ == "Logged out successfully"@,
{
    sign_in(true, "Logged out successfully")
}

/// The connector through which a login with credentials continues.
pub fn native_login_connector() -> (r: &'static str)
    ensures
        r@ == "local"@,
{
    "local"
}

/// What a request tells about its session.
pub enum SessionState {
    /// No session cookie came with the request.
    NoCookie,
    /// The session token validated, for this user email and name.
    Valid(String, String),
    /// The session token did not validate.
    Invalid,
}

/// The answer about a session.
pub enum SessionReply {
    /// 200, with the user's email and name.
    Authenticated(String, String),
    /// 401 with this answer; when `clear` the session cookie is removed.
    Refused(SignInResponse, bool),
}

/// The answer about a session: the user when the token validated; otherwise a refusal,
/// "Not authenticated" without a cookie, "Token expired or invalid" (removing the
/// cookie) for a token that did not validate.
pub fn session_reply(state: SessionState) -> (r: SessionReply)
    ensures
        match (state, r) {
            (SessionState::NoCookie, SessionReply::Refused(resp, clear)) => !resp.status
                && resp.message@ == "Not authenticated"@ && !clear,
            (SessionState::Valid(e, n), SessionReply::Authenticated(e2, n2)) => e == e2 && n == n2,
            (SessionState::Invalid, SessionReply::Refused(resp, clear)) => !resp.status
                && resp.message@ == "Token expired or invalid"@ && clear,
            _ => false,
        },
{
    match state {
        SessionState::NoCookie => SessionReply::Refused(sign_in(false, "Not authenticated"), false),
        SessionState::Valid(email, name) => SessionReply::Authenticated(email, name),
        SessionState::Invalid => SessionReply::Refused(sign_in(false, "Token expired or invalid"), true),
    }
}

} // verus!
