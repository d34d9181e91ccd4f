//! RSA signing keys built from the modulus and exponent of a key set entry.
use vstd::prelude::*;
use super::token::base64url;

verus! {

#[verifier::external_type_specification]
#[verifier::external_body]
pub struct ExDecodingKey(jsonwebtoken::DecodingKey);

/// Whether `s` is the URL-safe base64 encoding, without padding, of some bytes. An
/// encoding is canonical: its unused trailing bits are zero.
pub open spec fn is_base64url(s: Seq<char>) -> bool {
    exists|b: Seq<u8>| #[trigger] base64url(b) == s
}

/// Whether `jsonwebtoken::DecodingKey::from_rsa_components` accepts a modulus and an
/// exponent: it decodes both with `URL_SAFE_NO_PAD`, which accepts exactly the canonical
/// unpadded URL-safe encodings, and then always succeeds.
pub open spec fn rsa_components_accepted(n: Seq<char>, e: Seq<char>) -> bool {
    is_base64url(n) && is_base64url(e)
}

/// An RSA signing key with the modulus and exponent it was built from. Its fields are
/// private to this module and only `rsa_decoding_key` builds one, so `key` is always
/// the key that `from_rsa_components` gave for `n` and `e`.
pub struct RsaKey {
    n: String,
    e: String,
    key: jsonwebtoken::DecodingKey,
}

impl RsaKey {
    /// The modulus the key was built from.
    pub closed spec fn modulus(&self) -> Seq<char> {
        self.n@
    }

    /// The exponent the key was built from.
    pub closed spec fn exponent(&self) -> Seq<char> {
        self.e@
    }

    /// The modulus the key was built from.
    pub fn n(&self) -> (r: &str)
        ensures
            r@ == self.modulus(),
    {
        self.n.as_str()
    }

    /// The exponent the key was built from.
    pub fn e(&self) -> (r: &str)
        ensures
            r@ == self.exponent(),
    {
        self.e.as_str()
    }

    /// The signing key.
    pub fn key(&self) -> &jsonwebtoken::DecodingKey {
        &self.key
    }

    /// The signing key, taken out.
    pub fn into_key(self) -> jsonwebtoken::DecodingKey {
        self.key
    }
}

/// Calls `jsonwebtoken::DecodingKey::from_rsa_components` on a modulus and an exponent;
/// `Some` exactly when it accepts them, as `rsa_components_accepted` states it, with the
/// key it gave kept beside the modulus and the exponent.
#[verifier::external_body]
pub(crate) fn rsa_decoding_key(n: &str, e: &str) -> (r: Option<RsaKey>)
    ensures
        r is Some <==> rsa_components_accepted(n@, e@),
        r matches Some(k) ==> k.modulus() == n@ && k.exponent() == e@,
{
    match jsonwebtoken::DecodingKey::from_rsa_components(n, e) {
        Ok(key) => Some(RsaKey { n: n.to_string(), e: e.to_string(), key }),
        Err(_) => None,
    }
}

} // verus!
