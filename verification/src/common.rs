//! Identifiers.
use vstd::prelude::*;

verus! {

/// Whether `c` is an ASCII letter or digit.
pub open spec fn is_ascii_alphanumeric(c: char) -> bool {
    ('0' <= c && c <= '9') || ('A' <= c && c <= 'Z') || ('a' <= c && c <= 'z')
}

/// A new KSUID in its text form: `svix_ksuid::Ksuid::new(None, None)` written with
/// `to_string`. The crate pads the base-62 digits of the 20 bytes to 27 characters with
/// "0", so the text is 27 ASCII letters and digits. Which KSUID comes out depends on the
/// time and a random source, and nothing more is stated of it.
#[verifier::external_body]
pub fn generate_id() -> (r: String)
    ensures
        r@.len() == 27,
        forall|i: int| 0 <= i < 27 ==> is_ascii_alphanumeric(#[trigger] r@[i]),
{
    <svix_ksuid::Ksuid as svix_ksuid::KsuidLike>::new(None, None).to_string()
}

} // verus!
