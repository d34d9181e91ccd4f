//! Verification of ID tokens: the key ID of the header, the RS256 signature and the
//! audience and issuer checks, the claims read from the payload, and the validation
//! answer.
use vstd::prelude::*;
use crate::text::{owned, copy_string, str_eq, views_of};
use super::error::Error;
use super::jwk::RsaKey;
use super::token::{require_key_id, unknown_key_id, validation_response, keyed_view};
use super::types::{JwtClaims, StringOrVec, TokenValidationResponse};

verus! {

/// A claim value of a token's payload: JSON null, a boolean, a number (with its value
/// when it is an integer that fits an `i64`), a string, an array (with each element
/// that is a string), or an object.
#[derive(Debug, Clone)]
pub enum ClaimValue {
    Null,
    Bool(bool),
    Number(Option<i64>),
    Str(String),
    Array(Vec<Option<String>>),
    Object,
}

/// The abstract value of a claim value.
pub enum ClaimView {
    Null,
    Bool(bool),
    Number(Option<i64>),
    Str(Seq<char>),
    Array(Seq<Option<Seq<char>>>),
    Object,
}

/// The abstract value of an optional string.
pub open spec fn opt_str_view(o: Option<String>) -> Option<Seq<char>> {
    match o {
        Some(s) => Some(s@),
        None => None,
    }
}

impl View for ClaimValue {
    type V = ClaimView;

    open spec fn view(&self) -> ClaimView {
        match self {
            ClaimValue::Null => ClaimView::Null,
            ClaimValue::Bool(b) => ClaimView::Bool(*b),
            ClaimValue::Number(n) => ClaimView::Number(*n),
            ClaimValue::Str(s) => ClaimView::Str(s@),
            ClaimValue::Array(a) => ClaimView::Array(
                a@.map_values(|x: Option<String>| opt_str_view(x)),
            ),
            ClaimValue::Object => ClaimView::Object,
        }
    }
}

/// The abstract value of the claims of a payload: each member's name and value, in the
/// payload's order.
pub open spec fn fields_view(f: Seq<(String, ClaimValue)>) -> Seq<(Seq<char>, ClaimView)> {
    f.map_values(|p: (String, ClaimValue)| (p.0@, p.1@))
}

impl ClaimValue {
    /// The claim value of a JSON value, variant by variant: a number keeps
    /// `Number::as_i64`, an array keeps `Value::as_str` of each element, an object
    /// keeps nothing. Used by `decode_rs256` on the members of a payload.
    #[verifier::external_body]
    fn of_json(v: serde_json::Value) -> ClaimValue {
        match v {
            serde_json::Value::Null => ClaimValue::Null,
            serde_json::Value::Bool(b) => ClaimValue::Bool(b),
            serde_json::Value::Number(n) => ClaimValue::Number(n.as_i64()),
            serde_json::Value::String(s) => ClaimValue::Str(s),
            serde_json::Value::Array(a) => ClaimValue::Array(
                a.into_iter().map(|x| x.as_str().map(|s| s.to_string())).collect(),
            ),
            serde_json::Value::Object(_) => ClaimValue::Object,
        }
    }
}

/// The key ID of a token's header, as `jsonwebtoken::decode_header` reads it: `None`
/// when the header does not decode, `Some(None)` when it has no "kid".
pub uninterp spec fn jwt_header_kid(token: Seq<char>) -> Option<Option<Seq<char>>>;

/// Calls `jsonwebtoken::decode_header`; the key ID it gives is `jwt_header_kid` of the
/// token, and its error is written as text.
#[verifier::external_body]
fn token_header_kid(token: &str) -> (r: Result<Option<String>, String>)
    ensures
        match r {
            Ok(k) => jwt_header_kid(token@) == Some(opt_str_view(k)),
            Err(_) => jwt_header_kid(token@) is None,
        },
{
    match jsonwebtoken::decode_header(token) {
        Ok(h) => Ok(h.kid),
        Err(e) => Err(e.to_string()),
    }
}

/// The claims of a token signed with RS256 under the RSA key of modulus `n` and
/// exponent `e`, as `jsonwebtoken::decode` gives them with a `Validation` for RS256 with
/// audience `aud` and issuer `iss`: `Some` of the payload's members, each value as
/// `ClaimValue::of_json` gives it, when the token decodes, its header names RS256, its
/// signature verifies, its payload is a JSON object with an "exp", its "aud" names
/// `aud` and its "iss" is `iss`; `None` otherwise. The checks against the clock
/// ("exp", "nbf") are not part of it.
pub uninterp spec fn jwt_signed_claims(
    token: Seq<char>,
    n: Seq<char>,
    e: Seq<char>,
    aud: Seq<char>,
    iss: Seq<char>,
) -> Option<Seq<(Seq<char>, ClaimView)>>;

/// Calls `jsonwebtoken::decode` for RS256 with the key, audience and issuer. The answer
/// also depends on the clock, which checks "exp" and "nbf": what holds of every outcome
/// is that claims come back only as `jwt_signed_claims` names them, and that a token it
/// refuses is refused.
#[verifier::external_body]
fn decode_rs256(token: &str, key: &RsaKey, audience: &str, issuer: &str) -> (r: Result<
    Vec<(String, ClaimValue)>,
    String,
>)
    ensures
        r matches Ok(f) ==> jwt_signed_claims(
            token@,
            key.modulus(),
            key.exponent(),
            audience@,
            issuer@,
        ) == Some(fields_view(f@)),
        jwt_signed_claims(token@, key.modulus(), key.exponent(), audience@, issuer@) is None
            ==> r is Err,
{
    let mut v = jsonwebtoken::Validation::new(jsonwebtoken::Algorithm::RS256);
    v.set_audience(&[audience]);
    v.set_issuer(&[issuer]);
    match jsonwebtoken::decode::<serde_json::Map<String, serde_json::Value>>(token, key.key(), &v) {
        Ok(d) => Ok(d.claims.into_iter().map(|(k, x)| (k, ClaimValue::of_json(x))).collect()),
        Err(e) => Err(e.to_string()),
    }
}

/// The value of the first member named `name` among the first `n` members.
pub open spec fn member(f: Seq<(Seq<char>, ClaimView)>, name: Seq<char>, n: nat) -> Option<ClaimView>
    decreases n,
{
    if n == 0 || n > f.len() {
        None
    } else {
        match member(f, name, (n - 1) as nat) {
            Some(v) => Some(v),
            None => if f[n - 1].0 == name {
                Some(f[n - 1].1)
            } else {
                None
            },
        }
    }
}

/// The value of the member named `name`, if the payload has one.
pub open spec fn field(f: Seq<(Seq<char>, ClaimView)>, name: Seq<char>) -> Option<ClaimView> {
    member(f, name, f.len())
}

/// A required string claim: present and a string.
pub open spec fn required_str(v: Option<ClaimView>) -> Option<Seq<char>> {
    match v {
        Some(ClaimView::Str(s)) => Some(s),
        _ => None,
    }
}

/// A required integer claim: present and an integer that fits an `i64`.
pub open spec fn required_int(v: Option<ClaimView>) -> Option<i64> {
    match v {
        Some(ClaimView::Number(Some(i))) => Some(i),
        _ => None,
    }
}

/// An optional string claim: `Some(None)` when absent or null, `Some(Some(s))` for a
/// string, `None` (refused) for any other value.
pub open spec fn optional_str(v: Option<ClaimView>) -> Option<Option<Seq<char>>> {
    match v {
        None => Some(None),
        Some(ClaimView::Null) => Some(None),
        Some(ClaimView::Str(s)) => Some(Some(s)),
        _ => None,
    }
}

/// An optional boolean claim: `Some(None)` when absent or null, `Some(Some(b))` for a
/// boolean, `None` (refused) for any other value.
pub open spec fn optional_bool(v: Option<ClaimView>) -> Option<Option<bool>> {
    match v {
        None => Some(None),
        Some(ClaimView::Null) => Some(None),
        Some(ClaimView::Bool(b)) => Some(Some(b)),
        _ => None,
    }
}

/// The strings of an array whose every element is a string; `None` otherwise.
pub open spec fn all_strings(items: Seq<Option<Seq<char>>>) -> Option<Seq<Seq<char>>> {
    if forall|i: int| 0 <= i < items.len() ==> (#[trigger] items[i]) is Some {
        Some(items.map_values(|x: Option<Seq<char>>| x.unwrap()))
    } else {
        None
    }
}

/// An optional list of strings: `Some(None)` when absent or null, `Some(Some(v))` for an
/// array of strings, `None` (refused) for any other value.
pub open spec fn optional_strings(v: Option<ClaimView>) -> Option<Option<Seq<Seq<char>>>> {
    match v {
        None => Some(None),
        Some(ClaimView::Null) => Some(None),
        Some(ClaimView::Array(items)) => match all_strings(items) {
            Some(x) => Some(Some(x)),
            None => None,
        },
        _ => None,
    }
}

/// The abstract value of an audience claim.
pub enum AudView {
    Single(Seq<char>),
    Multiple(Seq<Seq<char>>),
}

/// The audience claim: one string, or an array of strings; anything else, or nothing,
/// is refused.
pub open spec fn audience(v: Option<ClaimView>) -> Option<AudView> {
    match v {
        Some(ClaimView::Str(s)) => Some(AudView::Single(s)),
        Some(ClaimView::Array(items)) => match all_strings(items) {
            Some(x) => Some(AudView::Multiple(x)),
            None => None,
        },
        _ => None,
    }
}

/// The abstract value of the claims of a token.
pub struct ClaimsView {
    pub sub: Seq<char>,
    pub iss: Seq<char>,
    pub aud: AudView,
    pub exp: i64,
    pub iat: i64,
    pub email: Option<Seq<char>>,
    pub email_verified: Option<bool>,
    pub name: Option<Seq<char>>,
    pub given_name: Option<Seq<char>>,
    pub family_name: Option<Seq<char>>,
    pub groups: Option<Seq<Seq<char>>>,
}

/// The claims a payload holds: "sub" and "iss" strings, an "aud" string or array of
/// strings, "exp" and "iat" integers, and, when present and not null, an "email",
/// "name", "given_name" and "family_name" string, an "email_verified" boolean and a
/// "groups" array of strings; other members are ignored. `None` when a required claim is
/// missing or any of these has another type.
pub open spec fn claims_of(f: Seq<(Seq<char>, ClaimView)>) -> Option<ClaimsView> {
    let sub = required_str(field(f, "sub"@));
    let iss = required_str(field(f, "iss"@));
    let aud = audience(field(f, "aud"@));
    let exp = required_int(field(f, "exp"@));
    let iat = required_int(field(f, "iat"@));
    let email = optional_str(field(f, "email"@));
    let email_verified = optional_bool(field(f, "email_verified"@));
    let name = optional_str(field(f, "name"@));
    let given_name = optional_str(field(f, "given_name"@));
    let family_name = optional_str(field(f, "family_name"@));
    let groups = optional_strings(field(f, "groups"@));
    if sub is Some && iss is Some && aud is Some && exp is Some && iat is Some && email is Some
        && email_verified is Some && name is Some && given_name is Some && family_name is Some
        && groups is Some {
        Some(
            ClaimsView {
                sub: sub.unwrap(),
                iss: iss.unwrap(),
                aud: aud.unwrap(),
                exp: exp.unwrap(),
                iat: iat.unwrap(),
                email: email.unwrap(),
                email_verified: email_verified.unwrap(),
                name: name.unwrap(),
                given_name: given_name.unwrap(),
                family_name: family_name.unwrap(),
                groups: groups.unwrap(),
            },
        )
    } else {
        None
    }
}

/// Whether a payload member is absent, null, or a string.
pub open spec fn absent_null_or_str(v: Option<ClaimView>) -> bool {
    v is None || v == Some(ClaimView::Null) || v matches Some(ClaimView::Str(_))
}

/// Whether a list of array elements are all strings.
pub open spec fn every_element_str(items: Seq<Option<Seq<char>>>) -> bool {
    forall|i: int| 0 <= i < items.len() ==> (#[trigger] items[i]) is Some
}

/// The string of a member that is a string; `None` for an absent or null member.
pub open spec fn str_member(v: Option<ClaimView>) -> Option<Seq<char>> {
    match v {
        Some(ClaimView::Str(s)) => Some(s),
        _ => None,
    }
}

/// A payload with the required claims ("sub" and "iss" strings, "aud" a string or an
/// array of strings, "exp" and "iat" integers) and the optional ones absent, null or of
/// their type ("email", "name", "given_name", "family_name" strings, "email_verified" a
/// boolean, "groups" an array of strings) is read, each claim as the payload holds it:
/// a boolean "email_verified" b is read as `Some(b)`, an absent or null one as `None`.
pub proof fn law_well_typed_claims_are_read(f: Seq<(Seq<char>, ClaimView)>)
    requires
        field(f, "sub"@) matches Some(ClaimView::Str(_)),
        field(f, "iss"@) matches Some(ClaimView::Str(_)),
        field(f, "aud"@) matches Some(ClaimView::Str(_)) || (field(f, "aud"@) matches Some(
            ClaimView::Array(items),
        ) && every_element_str(items)),
        field(f, "exp"@) matches Some(ClaimView::Number(Some(_))),
        field(f, "iat"@) matches Some(ClaimView::Number(Some(_))),
        absent_null_or_str(field(f, "email"@)),
        absent_null_or_str(field(f, "name"@)),
        absent_null_or_str(field(f, "given_name"@)),
        absent_null_or_str(field(f, "family_name"@)),
        field(f, "email_verified"@) is None || field(f, "email_verified"@) == Some(ClaimView::Null)
            || field(f, "email_verified"@) matches Some(ClaimView::Bool(_)),
        field(f, "groups"@) is None || field(f, "groups"@) == Some(ClaimView::Null) || (field(
            f,
            "groups"@,
        ) matches Some(ClaimView::Array(items)) && every_element_str(items)),
    ensures
        claims_of(f) matches Some(c) && {
            &&& Some(c.sub) == str_member(field(f, "sub"@))
            &&& Some(c.iss) == str_member(field(f, "iss"@))
            &&& field(f, "exp"@) == Some(ClaimView::Number(Some(c.exp)))
            &&& field(f, "iat"@) == Some(ClaimView::Number(Some(c.iat)))
            &&& c.email == str_member(field(f, "email"@))
            &&& c.name == str_member(field(f, "name"@))
            &&& c.given_name == str_member(field(f, "given_name"@))
            &&& c.family_name == str_member(field(f, "family_name"@))
            &&& c.email_verified == match field(f, "email_verified"@) {
                Some(ClaimView::Bool(b)) => Some(b),
                _ => None,
            }
            &&& match field(f, "aud"@) {
                Some(ClaimView::Str(s)) => c.aud == AudView::Single(s),
                Some(ClaimView::Array(items)) => c.aud matches AudView::Multiple(v) && v.len()
                    == items.len() && forall|i: int| 0 <= i < v.len() ==> Some(#[trigger] v[i])
                    == items[i],
                _ => false,
            }
            &&& match field(f, "groups"@) {
                Some(ClaimView::Array(items)) => c.groups matches Some(v) && v.len() == items.len()
                    && forall|i: int| 0 <= i < v.len() ==> Some(#[trigger] v[i]) == items[i],
                _ => c.groups is None,
            }
        },
{
}

/// The abstract value of an audience claim of the library.
pub open spec fn aud_view(a: StringOrVec) -> AudView {
    match a {
        StringOrVec::Single(s) => AudView::Single(s@),
        StringOrVec::Multiple(v) => AudView::Multiple(views_of(v@)),
    }
}

/// The abstract value of the claims of the library.
pub open spec fn claims_view(c: JwtClaims) -> ClaimsView {
    ClaimsView {
        sub: c.sub@,
        iss: c.iss@,
        aud: aud_view(c.aud),
        exp: c.exp,
        iat: c.iat,
        email: opt_str_view(c.email),
        email_verified: c.email_verified,
        name: opt_str_view(c.name),
        given_name: opt_str_view(c.given_name),
        family_name: opt_str_view(c.family_name),
        groups: match c.groups {
            Some(g) => Some(views_of(g@)),
            None => None,
        },
    }
}

/// The abstract value of an optional claim value.
pub open spec fn opt_claim(v: Option<&ClaimValue>) -> Option<ClaimView> {
    match v {
        Some(c) => Some(c@),
        None => None,
    }
}

/// The value of the first member named `name`.
fn field_value<'a>(fields: &'a Vec<(String, ClaimValue)>, name: &str) -> (r: Option<&'a ClaimValue>)
    ensures
        opt_claim(r) == field(fields_view(fields@), name@),
{
    let ghost f = fields_view(fields@);
    let n = fields.len();
    for i in 0..n
        invariant
            n == fields@.len(),
            f == fields_view(fields@),
            member(f, name@, i as nat) is None,
    {
        assert(f[i as int] == (fields@[i as int].0@, fields@[i as int].1@));
        if str_eq(fields[i].0.as_str(), name) {
            proof {
                assert(member(f, name@, (i + 1) as nat) == Some(fields@[i as int].1@));
                lemma_member_found(f, name@, (i + 1) as nat, n as nat);
            }
            return Some(&fields[i].1);
        }
    }
    None
}

/// A member found among the first `k` members is the one found among the first `n`.
proof fn lemma_member_found(f: Seq<(Seq<char>, ClaimView)>, name: Seq<char>, k: nat, n: nat)
    requires
        k <= n <= f.len(),
        member(f, name, k) is Some,
    ensures
        member(f, name, n) == member(f, name, k),
    decreases n - k,
{
    if n > k {
        lemma_member_found(f, name, k, (n - 1) as nat);
    }
}

/// A required string claim.
fn read_required_str(v: Option<&ClaimValue>) -> (r: Option<String>)
    ensures
        opt_str_view(r) == required_str(opt_claim(v)),
{
    match v {
        Some(ClaimValue::Str(s)) => Some(copy_string(s)),
        _ => None,
    }
}

/// A required integer claim.
fn read_required_int(v: Option<&ClaimValue>) -> (r: Option<i64>)
    ensures
        r == required_int(opt_claim(v)),
{
    match v {
        Some(ClaimValue::Number(Some(i))) => Some(*i),
        _ => None,
    }
}

/// An optional string claim.
fn read_optional_str(v: Option<&ClaimValue>) -> (r: Option<Option<String>>)
    ensures
        match (r, optional_str(opt_claim(v))) {
            (Some(x), Some(y)) => opt_str_view(x) == y,
            (None, None) => true,
            _ => false,
        },
{
    match v {
        None => Some(None),
        Some(ClaimValue::Null) => Some(None),
        Some(ClaimValue::Str(s)) => Some(Some(copy_string(s))),
        _ => None,
    }
}

/// An optional boolean claim.
fn read_optional_bool(v: Option<&ClaimValue>) -> (r: Option<Option<bool>>)
    ensures
        r == optional_bool(opt_claim(v)),
{
    match v {
        None => Some(None),
        Some(ClaimValue::Null) => Some(None),
        Some(ClaimValue::Bool(b)) => Some(Some(*b)),
        _ => None,
    }
}

/// The strings of an array whose every element is a string.
fn read_all_strings(items: &Vec<Option<String>>) -> (r: Option<Vec<String>>)
    ensures
        match (r, all_strings(items@.map_values(|x: Option<String>| opt_str_view(x)))) {
            (Some(x), Some(y)) => views_of(x@) == y,
            (None, None) => true,
            _ => false,
        },
{
    let ghost iv = items@.map_values(|x: Option<String>| opt_str_view(x));
    let mut out: Vec<String> = Vec::new();
    let n = items.len();
    for i in 0..n
        invariant
            n == items@.len(),
            iv == items@.map_values(|x: Option<String>| opt_str_view(x)),
            out@.len() == i,
            forall|j: int| 0 <= j < i ==> (#[trigger] iv[j]) is Some && out@[j]@ == iv[j].unwrap(),
    {
        match &items[i] {
            Some(s) => {
                out.push(copy_string(s));
            },
            None => {
                assert(iv[i as int] is None);
                return None;
            },
        }
    }
    assert(views_of(out@) =~= iv.map_values(|x: Option<Seq<char>>| x.unwrap()));
    Some(out)
}

/// An optional list of strings.
fn read_optional_strings(v: Option<&ClaimValue>) -> (r: Option<Option<Vec<String>>>)
    ensures
        match (r, optional_strings(opt_claim(v))) {
            (Some(Some(x)), Some(Some(y))) => views_of(x@) == y,
            (Some(None), Some(None)) => true,
            (None, None) => true,
            _ => false,
        },
{
    match v {
        None => Some(None),
        Some(ClaimValue::Null) => Some(None),
        Some(ClaimValue::Array(items)) => match read_all_strings(items) {
            Some(x) => Some(Some(x)),
            None => None,
        },
        _ => None,
    }
}

/// The audience claim.
fn read_audience(v: Option<&ClaimValue>) -> (r: Option<StringOrVec>)
    ensures
        match (r, audience(opt_claim(v))) {
            (Some(x), Some(y)) => aud_view(x) == y,
            (None, None) => true,
            _ => false,
        },
{
    match v {
        Some(ClaimValue::Str(s)) => Some(StringOrVec::Single(copy_string(s))),
        Some(ClaimValue::Array(items)) => match read_all_strings(items) {
            Some(x) => Some(StringOrVec::Multiple(x)),
            None => None,
        },
        _ => None,
    }
}

/// The claims a payload holds, as `claims_of` states them; `None` when a required claim
/// is missing or a claim has another type.
pub fn claims_from_fields(fields: &Vec<(String, ClaimValue)>) -> (r: Option<JwtClaims>)
    ensures
        match (r, claims_of(fields_view(fields@))) {
            (Some(c), Some(v)) => claims_view(c) == v,
            (None, None) => true,
            _ => false,
        },
{
    let sub = read_required_str(field_value(fields, "sub"));
    let iss = read_required_str(field_value(fields, "iss"));
    let aud = read_audience(field_value(fields, "aud"));
    let exp = read_required_int(field_value(fields, "exp"));
    let iat = read_required_int(field_value(fields, "iat"));
    let email = read_optional_str(field_value(fields, "email"));
    let email_verified = read_optional_bool(field_value(fields, "email_verified"));
    let name = read_optional_str(field_value(fields, "name"));
    let given_name = read_optional_str(field_value(fields, "given_name"));
    let family_name = read_optional_str(field_value(fields, "family_name"));
    let groups = read_optional_strings(field_value(fields, "groups"));
    match (sub, iss, aud, exp, iat) {
        (Some(sub), Some(iss), Some(aud), Some(exp), Some(iat)) => match (
            email,
            email_verified,
            name,
            given_name,
            family_name,
            groups,
        ) {
            (
                Some(email),
                Some(email_verified),
                Some(name),
                Some(given_name),
                Some(family_name),
                Some(groups),
            ) => Some(
                JwtClaims {
                    sub,
                    iss,
                    aud,
                    exp,
                    iat,
                    email,
                    email_verified,
                    name,
                    given_name,
                    family_name,
                    groups,
                },
            ),
            _ => None,
        },
        _ => None,
    }
}

/// The key ID of a token's header: an `InvalidToken` error when the header does not
/// decode, "Missing key ID" when it has none.
pub fn token_key_id(token: &str) -> (r: Result<String, Error>)
    ensures
        match jwt_header_kid(token@) {
            None => r matches Err(Error::InvalidToken(_)),
            Some(None) => r matches Err(Error::InvalidToken(m)) && m@ == "Missing key ID"@,
            Some(Some(kid)) => r matches Ok(k) && k@ == kid,
        },
{
    match token_header_kid(token) {
        Ok(k) => require_key_id(k),
        Err(m) => Err(Error::InvalidToken(m)),
    }
}

/// The key ID, modulus and exponent of each key of a key set.
pub open spec fn key_set_view(keys: Seq<(String, RsaKey)>) -> Seq<(Seq<char>, Seq<char>, Seq<char>)> {
    keys.map_values(|p: (String, RsaKey)| keyed_view(p))
}

/// The index of the last key with ID `kid` among the first `n`, as a map built from the
/// key set in order holds it.
pub open spec fn key_index(keys: Seq<(Seq<char>, Seq<char>, Seq<char>)>, kid: Seq<char>, n: nat) -> Option<int>
    decreases n,
{
    if n == 0 || n > keys.len() {
        None
    } else if keys[n - 1].0 == kid {
        Some(n - 1)
    } else {
        key_index(keys, kid, (n - 1) as nat)
    }
}

/// The index found is a key of that ID among the first `n`.
proof fn lemma_key_index_in_range(keys: Seq<(Seq<char>, Seq<char>, Seq<char>)>, kid: Seq<char>, n: nat)
    ensures
        key_index(keys, kid, n) matches Some(i) ==> 0 <= i < n && n <= keys.len() && keys[i].0 == kid,
    decreases n,
{
    if n > 0 {
        lemma_key_index_in_range(keys, kid, (n - 1) as nat);
    }
}

/// The last key with ID `kid`.
fn find_key(keys: &Vec<(String, RsaKey)>, kid: &str) -> (r: Option<usize>)
    ensures
        match r {
            Some(i) => key_index(key_set_view(keys@), kid@, keys@.len()) == Some(i as int),
            None => key_index(key_set_view(keys@), kid@, keys@.len()) is None,
        },
{
    let ghost kv = key_set_view(keys@);
    let mut i = keys.len();
    while i > 0
        invariant
            i <= keys@.len(),
            kv == key_set_view(keys@),
            key_index(kv, kid@, keys@.len()) == key_index(kv, kid@, i as nat),
        decreases i,
    {
        assert(kv[i - 1].0 == keys@[i - 1].0@);
        if str_eq(keys[i - 1].0.as_str(), kid) {
            return Some(i - 1);
        }
        i = i - 1;
    }
    None
}

/// What checking a token against a key set finds, before the clock is consulted.
pub enum TokenCheck {
    /// The header does not decode.
    BadHeader,
    /// The header has no key ID.
    MissingKeyId,
    /// No key of the set has the header's key ID.
    UnknownKeyId(Seq<char>),
    /// The signature, algorithm, audience, issuer or payload is refused.
    Refused,
    /// The payload lacks a required claim or has a claim of another type.
    BadClaims,
    /// The token is signed by the key of its key ID and holds these claims.
    Claims(ClaimsView),
}

/// The check of a token against a key set, an audience and an issuer: the header's key
/// ID picks the key (the last of that ID), whose signature, audience and issuer checks
/// give the payload, whose claims are read.
pub open spec fn token_check(
    token: Seq<char>,
    keys: Seq<(Seq<char>, Seq<char>, Seq<char>)>,
    aud: Seq<char>,
    iss: Seq<char>,
) -> TokenCheck {
    match jwt_header_kid(token) {
        None => TokenCheck::BadHeader,
        Some(None) => TokenCheck::MissingKeyId,
        Some(Some(kid)) => match key_index(keys, kid, keys.len()) {
            None => TokenCheck::UnknownKeyId(kid),
            Some(i) => match jwt_signed_claims(token, keys[i].1, keys[i].2, aud, iss) {
                None => TokenCheck::Refused,
                Some(f) => match claims_of(f) {
                    None => TokenCheck::BadClaims,
                    Some(c) => TokenCheck::Claims(c),
                },
            },
        },
    }
}

/// An optional string, or "" when absent.
pub open spec fn or_empty_view(o: Option<Seq<char>>) -> Seq<char> {
    match o {
        Some(s) => s,
        None => Seq::empty(),
    }
}

/// Whether a validation answer is the valid one for claims: their email and names (""
/// when absent), an external user with no role.
pub open spec fn response_matches(v: TokenValidationResponse, c: ClaimsView) -> bool {
    &&& v.is_valid
    &&& v.user_email@ == or_empty_view(c.email)
    &&& v.user_name@ == or_empty_view(c.name)
    &&& v.family_name@ == or_empty_view(c.family_name)
    &&& v.given_name@ == or_empty_view(c.given_name)
    &&& !v.is_internal_user
    &&& v.user_role is None
}

/// Verifies a token with the signing keys of the issuer, for audience `client_id` and
/// issuer `issuer_url`, at time `now` in seconds. A header that does not decode, a
/// missing or unknown key ID, a refused signature, audience, issuer or payload, or
/// claims that do not read ("Invalid claims", unless the clock refused the token first)
/// are `InvalidToken` errors; claims that expired before `now`
/// give `TokenExpired`; otherwise the answer is valid with the claims' email and names.
/// The decoding also checks "exp" and "nbf" against the clock and may refuse the token
/// on that account, with an `InvalidToken` error.
pub fn verify_token_with(
    token: &str,
    keys: &Vec<(String, RsaKey)>,
    client_id: &str,
    issuer_url: &str,
    now: i64,
) -> (r: Result<TokenValidationResponse, Error>)
    ensures
        match token_check(token@, key_set_view(keys@), client_id@, issuer_url@) {
            TokenCheck::BadHeader => r matches Err(Error::InvalidToken(_)),
            TokenCheck::MissingKeyId => r matches Err(Error::InvalidToken(m)) && m@
                == "Missing key ID"@,
            TokenCheck::UnknownKeyId(kid) => r matches Err(Error::InvalidToken(m)) && m@
                == "Unknown key ID: "@ + kid,
            TokenCheck::Refused => r matches Err(Error::InvalidToken(_)),
            TokenCheck::BadClaims => r matches Err(Error::InvalidToken(_)),
            TokenCheck::Claims(c) => match r {
                Ok(v) => c.exp >= now && response_matches(v, c),
                Err(Error::TokenExpired) => c.exp < now,
                Err(Error::InvalidToken(_)) => true,
                Err(_) => false,
            },
        },
{
    let ghost kv = key_set_view(keys@);
    let kid = match token_header_kid(token) {
        Ok(k) => k,
        Err(m) => {
            return Err(Error::InvalidToken(m));
        },
    };
    let kid = match require_key_id(kid) {
        Ok(k) => k,
        Err(e) => {
            return Err(e);
        },
    };
    let i = match find_key(keys, kid.as_str()) {
        Some(i) => i,
        None => {
            return Err(unknown_key_id(kid.as_str()));
        },
    };
    proof {
        lemma_key_index_in_range(kv, kid@, kv.len());
    }
    assert(kv[i as int] == keyed_view(keys@[i as int]));
    let fields = match decode_rs256(token, &keys[i].1, client_id, issuer_url) {
        Ok(f) => f,
        Err(m) => {
            return Err(Error::InvalidToken(m));
        },
    };
    let claims = match claims_from_fields(&fields) {
        Some(c) => c,
        None => {
            return Err(Error::InvalidToken(owned("Invalid claims")));
        },
    };
    validation_response(&claims, now)
}

} // verus!
