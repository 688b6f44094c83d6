//! Signing of the short-lived assertions that authenticate against a store.

use vstd::prelude::*;
use vstd::string::StringExecFns;
use crate::http::{failure, ApiError, ApiErrorView, ErrorKind};
use crate::protocol::{Assertion, AssertionView};

verus! {

/// The signature scheme of an assertion.
#[derive(Clone, Copy, Debug, PartialEq, Eq, Structural)]
pub enum SigningAlgorithm {
    /// ECDSA on P-256 with SHA-256.
    Es256,
    /// RSA PKCS#1 v1.5 with SHA-256.
    Rs256,
}

#[verifier::external_type_specification]
#[verifier::external_body]
pub struct ExEncodingKey(jsonwebtoken::EncodingKey);

/// Why `jsonwebtoken` refuses `pem` as an EC private key: the `Display` text
/// of its error, or `None` where it takes the key.
pub uninterp spec fn ec_key_refusal(pem: Seq<char>) -> Option<Seq<char>>;

/// Why `jsonwebtoken` refuses `pem` as an RSA private key: the `Display` text
/// of its error, or `None` where it takes the key.
pub uninterp spec fn rsa_key_refusal(pem: Seq<char>) -> Option<Seq<char>>;

/// The refusal in the result of reading a key, if it is one.
pub open spec fn refusal_in(r: Result<jsonwebtoken::EncodingKey, String>) -> Option<Seq<char>> {
    match r {
        Ok(_) => None,
        Err(why) => Some(why@),
    }
}

/// Calls `jsonwebtoken::EncodingKey::from_ec_pem` on the bytes of `pem` and
/// renders an error by its `Display`. The text alone decides whether the key
/// is taken; the contract names the refusal and says no more.
#[verifier::external_body]
pub(crate) fn ec_key_from_pem(pem: &str) -> (r: Result<jsonwebtoken::EncodingKey, String>)
    ensures
        refusal_in(r) == ec_key_refusal(pem@),
{
    jsonwebtoken::EncodingKey::from_ec_pem(pem.as_bytes()).map_err(|e| e.to_string())
}

/// Calls `jsonwebtoken::EncodingKey::from_rsa_pem` on the bytes of `pem` and
/// renders an error by its `Display`. The text alone decides whether the key
/// is taken; the contract names the refusal and says no more.
#[verifier::external_body]
pub(crate) fn rsa_key_from_pem(pem: &str) -> (r: Result<jsonwebtoken::EncodingKey, String>)
    ensures
        refusal_in(r) == rsa_key_refusal(pem@),
{
    jsonwebtoken::EncodingKey::from_rsa_pem(pem.as_bytes()).map_err(|e| e.to_string())
}

/// Calls `jsonwebtoken::encode` with a header of the given algorithm and key
/// identifier and with the claims named in `texts` and `numbers`, and renders
/// an error by its `Display`. Nothing is claimed of the outcome: a signature
/// may differ from one call to the next.
#[verifier::external_body]
pub(crate) fn encode(
    algorithm: SigningAlgorithm,
    key_id: &str,
    texts: &Vec<(String, String)>,
    numbers: &Vec<(String, i64)>,
    key: &jsonwebtoken::EncodingKey,
) -> (r: Result<String, String>) {
    let mut header = jsonwebtoken::Header::new(
        match algorithm {
            SigningAlgorithm::Es256 => jsonwebtoken::Algorithm::ES256,
            SigningAlgorithm::Rs256 => jsonwebtoken::Algorithm::RS256,
        },
    );
    header.kid = Some(key_id.to_string());
    let mut claims = serde_json::Map::new();
    for (name, value) in texts {
        claims.insert(name.clone(), serde_json::Value::String(value.clone()));
    }
    for (name, value) in numbers {
        claims.insert(name.clone(), serde_json::Value::from(*value));
    }
    jsonwebtoken::encode(&header, &claims, key).map_err(|e| e.to_string())
}

/// What an assertion states and how it is signed.
#[derive(Debug, PartialEq, Eq)]
pub struct Claims {
    pub algorithm: SigningAlgorithm,
    /// The identifier of the key, for the header.
    pub key_id: String,
    /// The claims that are texts, by name.
    pub texts: Vec<(String, String)>,
    /// The claims that are numbers, by name.
    pub numbers: Vec<(String, i64)>,
}

/// What a `Claims` holds.
pub struct ClaimsView {
    pub algorithm: SigningAlgorithm,
    pub key_id: Seq<char>,
    pub texts: Seq<(Seq<char>, Seq<char>)>,
    pub numbers: Seq<(Seq<char>, i64)>,
}

impl View for Claims {
    type V = ClaimsView;

    open spec fn view(&self) -> ClaimsView {
        ClaimsView {
            algorithm: self.algorithm,
            key_id: self.key_id@,
            texts: self.texts.deep_view(),
            numbers: self.numbers.deep_view(),
        }
    }
}

/// `message` begins with `lead`.
pub open spec fn led_by(message: Seq<char>, lead: Seq<char>) -> bool {
    message.len() >= lead.len() && message.subrange(0, lead.len() as int) == lead
}

/// A message begins with its lead.
pub proof fn lemma_led_by(lead: Seq<char>, detail: Seq<char>)
    ensures
        led_by(lead + detail, lead),
{
    assert((lead + detail).subrange(0, lead.len() as int) =~= lead);
}

/// What the encoder's result amounts to: the token it gave makes the
/// assertion for `audience`; its failure is one of the credential.
pub open spec fn sealed_as(encoded: Result<Seq<char>, Seq<char>>, audience: Seq<char>) -> Result<
    AssertionView,
    ApiErrorView,
> {
    match encoded {
        Ok(jwt) => Ok(AssertionView { jwt, audience }),
        Err(why) => Err(failure(ErrorKind::Credential, "Failed to encode JWT: "@ + why)),
    }
}

/// Makes the assertion for `audience` out of the encoder's result.
pub fn sealed(encoded: Result<String, String>, audience: &str) -> (r: Result<Assertion, ApiError>)
    ensures
        crate::protocol::signed_view(r) == sealed_as(crate::http::body_view(encoded), audience@),
        r matches Err(e) ==> led_by(e@.message, "Failed to encode JWT: "@),
{
    match encoded {
        Ok(jwt) => Ok(Assertion { jwt, audience: String::from_str(audience) }),
        Err(why) => {
            proof {
                lemma_led_by("Failed to encode JWT: "@, why@);
            }
            Err(ApiError::with_detail(ErrorKind::Credential, "Failed to encode JWT: ", why.as_str()))
        },
    }
}

} // verus!
