//! The decisions of the token flows: PKCE data, the authorization URL, the form
//! parameters of token requests, the tokens read from an answer, token validation and
//! the signing keys taken from a key set.
use vstd::prelude::*;
use vstd::utf8::encode_utf8;
use sha2::Digest;
use base64::Engine;
use rand::Rng;
use crate::text::{owned, concat2, concat3, copy_string, views_of};
use crate::common::is_ascii_alphanumeric;
use super::config::DexConfig;
use super::error::Error;
use super::types::{AuthTokens, JwtClaims, PkceData, TokenValidationResponse};
use super::jwk::{RsaKey, rsa_decoding_key, rsa_components_accepted};

verus! {

/// Whether a byte is left as it is by URL encoding: an ASCII letter or digit, or one of
/// "-", ".", "_" and "~".
pub open spec fn is_unreserved_byte(b: u8) -> bool {
    (48 <= b && b <= 57) || (65 <= b && b <= 90) || (97 <= b && b <= 122) || b == 45 || b == 46
        || b == 95 || b == 126
}

/// The upper-case hexadecimal digit of a value below 16.
pub open spec fn hex_digit_char(d: u8) -> char {
    if d < 10 {
        ((48 + d) as u8) as char
    } else {
        ((55 + d) as u8) as char
    }
}

/// The percent-encoding of bytes: unreserved bytes stay, every other byte `b` becomes
/// "%" and the two upper-case hexadecimal digits of `b`.
pub open spec fn percent_encode(b: Seq<u8>) -> Seq<char>
    decreases b.len(),
{
    if b.len() == 0 {
        Seq::empty()
    } else {
        let x = b.last();
        percent_encode(b.drop_last()) + if is_unreserved_byte(x) {
            seq![x as char]
        } else {
            seq!['%', hex_digit_char(x / 16), hex_digit_char(x % 16)]
        }
    }
}

/// Calls `urlencoding::encode`, which percent-encodes the UTF-8 bytes of `s`: letters,
/// digits, "-", ".", "_" and "~" stay, every other byte is written "%XX" with
/// upper-case hexadecimal digits.
#[verifier::external_body]
fn url_encode(s: &str) -> (r: String)
    ensures
        r@ == percent_encode(encode_utf8(s@)),
{
    urlencoding::encode(s).into_owned()
}

/// The SHA-256 digest of `data`.
pub uninterp spec fn sha256_digest(data: Seq<u8>) -> Seq<u8>;

/// Calls `sha2::Sha256::digest`; the result is named `sha256_digest` of the input and is
/// 32 bytes long.
#[verifier::external_body]
fn sha256(data: &[u8]) -> (r: Vec<u8>)
    ensures
        r@ == sha256_digest(data@),
        r@.len() == 32,
{
    sha2::Sha256::digest(data).to_vec()
}

/// The character of a 6-bit value in the URL-safe base64 alphabet: "A"-"Z", "a"-"z",
/// "0"-"9", "-" and "_".
pub open spec fn base64url_char(v: u8) -> char {
    if v < 26 {
        ((65 + v) as u8) as char
    } else if v < 52 {
        ((71 + v) as u8) as char
    } else if v < 62 {
        ((v - 4) as u8) as char
    } else if v == 62 {
        '-'
    } else {
        '_'
    }
}

/// The URL-safe base64 encoding of bytes without padding: each group of three bytes
/// gives four characters, a final group of two gives three, a final single byte gives
/// two.
pub open spec fn base64url(b: Seq<u8>) -> Seq<char>
    decreases b.len(),
{
    if b.len() == 0 {
        Seq::empty()
    } else if b.len() == 1 {
        seq![base64url_char(b[0] / 4), base64url_char(((b[0] % 4) * 16) as u8)]
    } else if b.len() == 2 {
        seq![
            base64url_char(b[0] / 4),
            base64url_char(((b[0] % 4) * 16 + b[1] / 16) as u8),
            base64url_char(((b[1] % 16) * 4) as u8),
        ]
    } else {
        seq![
            base64url_char(b[0] / 4),
            base64url_char(((b[0] % 4) * 16 + b[1] / 16) as u8),
            base64url_char(((b[1] % 16) * 4 + b[2] / 64) as u8),
            base64url_char(b[2] % 64),
        ] + base64url(b.skip(3))
    }
}

/// Base64 without padding writes four characters for each whole group of three bytes,
/// and one more than the bytes of a final partial group.
pub proof fn lemma_base64url_len(b: Seq<u8>)
    ensures
        base64url(b).len() == 4 * (b.len() / 3) + if b.len() % 3 == 0 {
            0
        } else {
            b.len() % 3 + 1
        },
    decreases b.len(),
{
    if b.len() >= 3 {
        lemma_base64url_len(b.skip(3));
    }
}

/// Calls the `encode` of `base64::engine::general_purpose::URL_SAFE_NO_PAD`.
#[verifier::external_body]
fn base64url_encode(data: &[u8]) -> (r: String)
    ensures
        r@ == base64url(data@),
{
    base64::engine::general_purpose::URL_SAFE_NO_PAD.encode(data)
}

/// A string of `len` random ASCII letters and digits: `rand::rng()` sampled with
/// `rand::distr::Alphanumeric`. Which characters come out is left open.
#[verifier::external_body]
fn random_alphanumeric(len: usize) -> (r: String)
    ensures
        r@.len() == len,
        forall|i: int| 0 <= i < len ==> is_ascii_alphanumeric(#[trigger] r@[i]),
{
    rand::rng().sample_iter(&rand::distr::Alphanumeric).take(len).map(char::from).collect()
}

/// The PKCE challenge of a verifier: the URL-safe base64 encoding, without padding, of
/// the SHA-256 digest of its bytes.
pub open spec fn code_challenge_spec(verifier: Seq<char>) -> Seq<char> {
    base64url(sha256_digest(encode_utf8(verifier)))
}

/// The PKCE challenge of a verifier, 43 characters long.
pub fn code_challenge(verifier: &str) -> (r: String)
    ensures
        r@ == code_challenge_spec(verifier@),
        r@.len() == 43,
{
    let digest = sha256(verifier.as_bytes());
    proof {
        lemma_base64url_len(digest@);
    }
    base64url_encode(digest.as_slice())
}

/// New PKCE data: a random state of 32 ASCII letters and digits, a random verifier of
/// 64, and the verifier's challenge, 43 characters long.
pub fn generate_pkce() -> (r: PkceData)
    ensures
        r.state@.len() == 32,
        forall|i: int| 0 <= i < 32 ==> is_ascii_alphanumeric(#[trigger] r.state@[i]),
        r.code_verifier@.len() == 64,
        forall|i: int| 0 <= i < 64 ==> is_ascii_alphanumeric(#[trigger] r.code_verifier@[i]),
        r.code_challenge@ == code_challenge_spec(r.code_verifier@),
        r.code_challenge@.len() == 43,
{
    let state = random_alphanumeric(32);
    let code_verifier = random_alphanumeric(64);
    let code_challenge = code_challenge(code_verifier.as_str());
    PkceData { code_verifier, code_challenge, state }
}

/// The scopes joined by single spaces.
pub open spec fn join_scopes(s: Seq<Seq<char>>) -> Seq<char> {
    crate::text::join_spaces(s)
}

/// The URL that starts a login at the issuer:
/// "{issuer}/auth?response_type=code&client_id=..&redirect_uri=..&scope=..&state=..
/// &code_challenge=..&code_challenge_method=S256", each value URL-encoded, the scopes
/// joined by spaces, and "&connector_id=.." when a connector is named.
pub open spec fn authorization_url_spec(
    issuer: Seq<char>,
    client_id: Seq<char>,
    redirect_uri: Seq<char>,
    scopes: Seq<Seq<char>>,
    state: Seq<char>,
    challenge: Seq<char>,
    connector: Option<Seq<char>>,
) -> Seq<char> {
    let enc = |s: Seq<char>| percent_encode(encode_utf8(s));
    let base = issuer + "/auth?response_type=code&client_id="@ + enc(client_id) + "&redirect_uri="@
        + enc(redirect_uri) + "&scope="@ + enc(join_scopes(scopes)) + "&state="@ + enc(state)
        + "&code_challenge="@ + enc(challenge) + "&code_challenge_method=S256"@;
    match connector {
        Some(c) => base + "&connector_id="@ + enc(c),
        None => base,
    }
}

/// The URL that starts a login with the given state and challenge.
pub fn authorization_url(config: &DexConfig, state: &str, challenge: &str, connector_id: Option<&str>) -> (r: String)
    ensures
        r@ == authorization_url_spec(
            config.issuer_url@,
            config.client_id@,
            config.redirect_uri@,
            views_of(config.scopes@),
            state@,
            challenge@,
            match connector_id {
                Some(c) => Some(c@),
                None => None,
            },
        ),
{
    let scopes = crate::text::join_with_spaces(&config.scopes);
    let mut url = concat2(config.issuer_url.as_str(), "/auth?response_type=code&client_id=");
    url.append(url_encode(config.client_id.as_str()).as_str());
    url.append("&redirect_uri=");
    url.append(url_encode(config.redirect_uri.as_str()).as_str());
    url.append("&scope=");
    url.append(url_encode(scopes.as_str()).as_str());
    url.append("&state=");
    url.append(url_encode(state).as_str());
    url.append("&code_challenge=");
    url.append(url_encode(challenge).as_str());
    url.append("&code_challenge_method=S256");
    match connector_id {
        Some(c) => {
            url.append("&connector_id=");
            url.append(url_encode(c).as_str());
        },
        None => {},
    }
    url
}

/// The URL of the issuer's token endpoint: "{issuer}/token".
pub fn token_url(issuer_url: &str) -> (r: String)
    ensures
        r@ == issuer_url@ + "/token"@,
{
    concat2(issuer_url, "/token")
}

/// The abstract value of form parameters.
pub open spec fn params_view(p: Seq<(String, String)>) -> Seq<(Seq<char>, Seq<char>)> {
    p.map_values(|kv: (String, String)| (kv.0@, kv.1@))
}

/// Appends one form parameter.
fn push_param(p: &mut Vec<(String, String)>, key: &str, value: &str)
    ensures
        params_view(final(p)@) == params_view(old(p)@).push((key@, value@)),
{
    let kv = (owned(key), owned(value));
    assert(params_view(p@.push(kv)) =~= params_view(p@).push((key@, value@)));
    p.push(kv);
}

/// The form of a code exchange: grant type "authorization_code", the code, the client
/// ID and the redirect URI; the client secret unless it is empty; the PKCE verifier when
/// there is one.
pub open spec fn code_exchange_spec(
    client_id: Seq<char>,
    client_secret: Seq<char>,
    redirect_uri: Seq<char>,
    code: Seq<char>,
    verifier: Option<Seq<char>>,
) -> Seq<(Seq<char>, Seq<char>)> {
    let base = seq![
        ("grant_type"@, "authorization_code"@),
        ("code"@, code),
        ("client_id"@, client_id),
        ("redirect_uri"@, redirect_uri),
    ];
    let with_secret = if client_secret.len() > 0 {
        base.push(("client_secret"@, client_secret))
    } else {
        base
    };
    match verifier {
        Some(v) => with_secret.push(("code_verifier"@, v)),
        None => with_secret,
    }
}

/// The form that exchanges an authorization code for tokens.
pub fn code_exchange_params(config: &DexConfig, code: &str, verifier: Option<&str>) -> (r: Vec<
    (String, String),
>)
    ensures
        params_view(r@) == code_exchange_spec(
            config.client_id@,
            config.client_secret@,
            config.redirect_uri@,
            code@,
            match verifier {
                Some(v) => Some(v@),
                None => None,
            },
        ),
{
    let mut p: Vec<(String, String)> = Vec::new();
    push_param(&mut p, "grant_type", "authorization_code");
    push_param(&mut p, "code", code);
    push_param(&mut p, "client_id", config.client_id.as_str());
    push_param(&mut p, "redirect_uri", config.redirect_uri.as_str());
    if !config.client_secret.as_str().is_empty() {
        push_param(&mut p, "client_secret", config.client_secret.as_str());
    } else {
        assert(config.client_secret@ =~= Seq::<char>::empty());
    }
    match verifier {
        Some(v) => push_param(&mut p, "code_verifier", v),
        None => {},
    }
    p
}

/// The form of a refresh: grant type "refresh_token", the refresh token and the client
/// ID; the client secret unless it is empty.
pub open spec fn refresh_spec(
    client_id: Seq<char>,
    client_secret: Seq<char>,
    refresh_token: Seq<char>,
) -> Seq<(Seq<char>, Seq<char>)> {
    let base = seq![
        ("grant_type"@, "refresh_token"@),
        ("refresh_token"@, refresh_token),
        ("client_id"@, client_id),
    ];
    if client_secret.len() > 0 {
        base.push(("client_secret"@, client_secret))
    } else {
        base
    }
}

/// The form that refreshes an access token.
pub fn refresh_params(config: &DexConfig, refresh_token: &str) -> (r: Vec<(String, String)>)
    ensures
        params_view(r@) == refresh_spec(config.client_id@, config.client_secret@, refresh_token@),
{
    let mut p: Vec<(String, String)> = Vec::new();
    push_param(&mut p, "grant_type", "refresh_token");
    push_param(&mut p, "refresh_token", refresh_token);
    push_param(&mut p, "client_id", config.client_id.as_str());
    if !config.client_secret.as_str().is_empty() {
        push_param(&mut p, "client_secret", config.client_secret.as_str());
    } else {
        assert(config.client_secret@ =~= Seq::<char>::empty());
    }
    p
}

/// The form that checks a user's password: grant type "password", the email as user
/// name, the password, the client ID and the scope "openid email profile".
pub fn password_params(config: &DexConfig, email: &str, password: &str) -> (r: Vec<
    (String, String),
>)
    ensures
        params_view(r@) == seq![
            ("grant_type"@, "password"@),
            ("username"@, email@),
            ("password"@, password@),
            ("client_id"@, config.client_id@),
            ("scope"@, "openid email profile"@),
        ],
{
    let mut p: Vec<(String, String)> = Vec::new();
    push_param(&mut p, "grant_type", "password");
    push_param(&mut p, "username", email);
    push_param(&mut p, "password", password);
    push_param(&mut p, "client_id", config.client_id.as_str());
    push_param(&mut p, "scope", "openid email profile");
    assert(params_view(p@) =~= seq![
        ("grant_type"@, "password"@),
        ("username"@, email@),
        ("password"@, password@),
        ("client_id"@, config.client_id@),
        ("scope"@, "openid email profile"@),
    ]);
    p
}

/// What a password check's HTTP status means: accepted on success, refused on 401, an
/// `HttpError` "Password verification failed: {status}" otherwise.
pub fn password_check_outcome(success: bool, status_code: u16, status_text: &str) -> (r: Result<
    bool,
    Error,
>)
    ensures
        success ==> r == Ok::<bool, Error>(true),
        !success && status_code == 401 ==> r == Ok::<bool, Error>(false),
        !success && status_code != 401 ==> (r matches Err(Error::HttpError(m)) && m@
            == "Password verification failed: "@ + status_text@),
{
    if success {
        Ok(true)
    } else if status_code == 401 {
        Ok(false)
    } else {
        Err(Error::HttpError(concat2("Password verification failed: ", status_text)))
    }
}

/// The error for a token request that the issuer refused: an `InvalidToken`
/// "{what} failed: {answer}", `what` being "Token exchange" or "Token refresh".
pub fn token_request_failure(what: &str, answer: &str) -> (r: Error)
    ensures
        r matches Error::InvalidToken(m) && m@ == what@ + " failed: "@ + answer@,
{
    Error::InvalidToken(concat3(what, " failed: ", answer))
}

/// The tokens of an issuer's answer, from the fields it holds as strings and integers:
/// the access token, or "" when missing; the refresh and ID tokens when present; the
/// token type, or "Bearer"; the lifetime in seconds, or 3600.
pub fn auth_tokens(
    access_token: Option<String>,
    refresh_token: Option<String>,
    id_token: Option<String>,
    token_type: Option<String>,
    expires_in: Option<i64>,
) -> (r: AuthTokens)
    ensures
        r.access_token@ == match access_token {
            Some(s) => s@,
            None => Seq::<char>::empty(),
        },
        r.refresh_token == refresh_token,
        r.id_token == id_token,
        r.token_type@ == match token_type {
            Some(s) => s@,
            None => "Bearer"@,
        },
        r.expires_in == match expires_in {
            Some(e) => e,
            None => 3600,
        },
{
    AuthTokens {
        access_token: match access_token {
            Some(s) => s,
            None => String::new(),
        },
        refresh_token,
        id_token,
        token_type: match token_type {
            Some(s) => s,
            None => owned("Bearer"),
        },
        expires_in: match expires_in {
            Some(e) => e,
            None => 3600,
        },
    }
}

/// The key ID of a token's header; an `InvalidToken` "Missing key ID" when there is
/// none.
pub fn require_key_id(kid: Option<String>) -> (r: Result<String, Error>)
    ensures
        match r {
            Ok(k) => kid == Some(k),
            Err(Error::InvalidToken(m)) => kid is None && m@ == "Missing key ID"@,
            Err(_) => false,
        },
{
    match kid {
        Some(k) => Ok(k),
        None => Err(Error::InvalidToken(owned("Missing key ID"))),
    }
}

/// The error for a key ID that the key set does not hold: an `InvalidToken`
/// "Unknown key ID: {kid}".
pub fn unknown_key_id(kid: &str) -> (r: Error)
    ensures
        r matches Error::InvalidToken(m) && m@ == "Unknown key ID: "@ + kid@,
{
    Error::InvalidToken(concat2("Unknown key ID: ", kid))
}

/// An optional string, or "" when absent.
fn or_empty(s: &Option<String>) -> (r: String)
    ensures
        r@ == match s {
            Some(t) => t@,
            None => Seq::<char>::empty(),
        },
{
    match s {
        Some(t) => copy_string(t),
        None => String::new(),
    }
}

/// The result of validating the claims of a decoded token at time `now`, in seconds: a
/// token that expired before `now` is refused with `TokenExpired`; otherwise it is valid,
/// with the email and names of its claims ("" when absent), as an external user with no
/// role.
pub fn validation_response(claims: &JwtClaims, now: i64) -> (r: Result<
    TokenValidationResponse,
    Error,
>)
    ensures
        match r {
            Ok(v) => claims.exp >= now && v.is_valid && v.user_email@ == match claims.email {
                Some(t) => t@,
                None => Seq::<char>::empty(),
            } && v.user_name@ == match claims.name {
                Some(t) => t@,
                None => Seq::<char>::empty(),
            } && v.family_name@ == match claims.family_name {
                Some(t) => t@,
                None => Seq::<char>::empty(),
            } && v.given_name@ == match claims.given_name {
                Some(t) => t@,
                None => Seq::<char>::empty(),
            } && !v.is_internal_user && v.user_role is None,
            Err(e) => claims.exp < now && e == Error::TokenExpired,
        },
{
    if claims.exp < now {
        return Err(Error::TokenExpired);
    }
    Ok(TokenValidationResponse {
        is_valid: true,
        user_email: or_empty(&claims.email),
        user_name: or_empty(&claims.name),
        family_name: or_empty(&claims.family_name),
        given_name: or_empty(&claims.given_name),
        is_internal_user: false,
        user_role: None,
    })
}

/// The URL of the issuer's discovery document:
/// "{issuer}/.well-known/openid-configuration".
pub fn discovery_url(issuer_url: &str) -> (r: String)
    ensures
        r@ == issuer_url@ + "/.well-known/openid-configuration"@,
{
    concat2(issuer_url, "/.well-known/openid-configuration")
}

/// The URL of the issuer's key set: the "jwks_uri" of its discovery document when that
/// was read, else "{issuer}/keys".
pub fn jwks_url(issuer_url: &str, discovered: Option<String>) -> (r: String)
    ensures
        r@ == match discovered {
            Some(u) => u@,
            None => issuer_url@ + "/keys"@,
        },
{
    match discovered {
        Some(u) => u,
        None => concat2(issuer_url, "/keys"),
    }
}

/// One key of a key set, with the members the key set gives as strings.
#[derive(Debug, Clone)]
pub struct JwkEntry {
    /// The key ID.
    pub kid: Option<String>,
    /// The RSA modulus.
    pub n: Option<String>,
    /// The RSA exponent.
    pub e: Option<String>,
}

/// The key ID, modulus and exponent of each of the first `count` entries that hold all
/// three, with a modulus and an exponent that `from_rsa_components` accepts, in order.
pub open spec fn usable_entries(entries: Seq<JwkEntry>, count: nat) -> Seq<
    (Seq<char>, Seq<char>, Seq<char>),
>
    decreases count,
{
    if count == 0 || count > entries.len() {
        Seq::empty()
    } else {
        let prev = usable_entries(entries, (count - 1) as nat);
        let k = entries[count - 1];
        match (k.kid, k.n, k.e) {
            (Some(kid), Some(n), Some(e)) => if rsa_components_accepted(n@, e@) {
                prev.push((kid@, n@, e@))
            } else {
                prev
            },
            _ => prev,
        }
    }
}

/// The key ID, modulus and exponent of an output pair.
pub open spec fn keyed_view(p: (String, RsaKey)) -> (Seq<char>, Seq<char>, Seq<char>) {
    (p.0@, p.1.modulus(), p.1.exponent())
}

/// The signing keys of a key set, each with its key ID, in order: entries without an ID,
/// a modulus or an exponent, or whose components are refused, are left out; each key is
/// built from the modulus and exponent of its own entry.
pub fn decoding_keys(entries: &Vec<JwkEntry>) -> (r: Vec<(String, RsaKey)>)
    ensures
        r@.map_values(|p: (String, RsaKey)| keyed_view(p)) == usable_entries(
            entries@,
            entries@.len(),
        ),
{
    let mut out: Vec<(String, RsaKey)> = Vec::new();
    let count = entries.len();
    for i in 0..count
        invariant
            count == entries@.len(),
            out@.map_values(|p: (String, RsaKey)| keyed_view(p)) == usable_entries(
                entries@,
                i as nat,
            ),
    {
        let k = &entries[i];
        match (&k.kid, &k.n, &k.e) {
            (Some(kid), Some(n), Some(e)) => {
                match rsa_decoding_key(n.as_str(), e.as_str()) {
                    Some(key) => {
                        let entry = (copy_string(kid), key);
                        assert(out@.push(entry).map_values(|p: (String, RsaKey)| keyed_view(p))
                            =~= out@.map_values(|p: (String, RsaKey)| keyed_view(p)).push(
                            (kid@, n@, e@),
                        ));
                        out.push(entry);
                    },
                    None => {},
                }
            },
            _ => {},
        }
    }
    out
}

} // verus!
