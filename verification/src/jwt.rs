//! Signed tokens: the claims of a payload, and the calls that sign a
//! payload and open a token with a shared secret.

use vstd::prelude::*;
use jsonwebtoken::{decode, encode, Algorithm, DecodingKey, EncodingKey, Header, Validation};
use serde_json::Value;

verus! {

/// The claims of an access token as its payload holds them.
#[derive(Debug, Clone, PartialEq, Eq)]
pub struct RawClaims {
    pub sub: String,
    pub session_id: String,
    pub exp: u64,
    pub iat: u64,
    pub roles: Vec<String>,
}

pub struct RawClaimsView {
    pub sub: Seq<char>,
    pub session_id: Seq<char>,
    pub exp: u64,
    pub iat: u64,
    pub roles: Seq<Seq<char>>,
}

impl View for RawClaims {
    type V = RawClaimsView;

    open spec fn view(&self) -> RawClaimsView {
        RawClaimsView {
            sub: self.sub@,
            session_id: self.session_id@,
            exp: self.exp,
            iat: self.iat,
            roles: self.roles.deep_view(),
        }
    }
}

/// The claims that `token` yields under `secret`: `None` where the token is
/// malformed, its HS256 signature does not verify under the secret, or its
/// payload lacks one of the five claims in the expected type. Expiry plays
/// no part in it.
pub uninterp spec fn jwt_payload(token: Seq<char>, secret: Seq<char>) -> Option<RawClaimsView>;

/// The token that the signer makes of `claims` under `secret`; `None` where
/// it makes none. HS256 draws on nothing but the payload and the secret.
pub uninterp spec fn jwt_signed(claims: RawClaimsView, secret: Seq<char>) -> Option<Seq<char>>;

/// The error of the `jsonwebtoken` crate.
#[verifier::external_type_specification]
#[verifier::external_body]
pub struct ExJwtError(jsonwebtoken::errors::Error);

/// `jsonwebtoken::encode` with the default header (HS256) on a payload of
/// the five claims, in the order `sub`, `session_id`, `exp`, `iat`, `roles`.
/// The outcome is named `jwt_signed`. A token that comes back opens under
/// the same secret to the same claims.
#[verifier::external_body]
pub(crate) fn jwt_encode(claims: &RawClaims, secret: &str) -> (r: Result<
    String,
    jsonwebtoken::errors::Error,
>)
    ensures
        match r {
            Ok(token) => jwt_signed(claims@, secret@) == Some(token@),
            Err(_) => jwt_signed(claims@, secret@) is None,
        },
        r matches Ok(token) ==> jwt_payload(token@, secret@) == Some(claims@),
{
    let mut payload = serde_json::Map::new();
    payload.insert("sub".to_string(), Value::from(claims.sub.as_str()));
    payload.insert("session_id".to_string(), Value::from(claims.session_id.as_str()));
    payload.insert("exp".to_string(), Value::from(claims.exp));
    payload.insert("iat".to_string(), Value::from(claims.iat));
    payload.insert("roles".to_string(), Value::from(claims.roles.clone()));
    encode(&Header::default(), &payload, &EncodingKey::from_secret(secret.as_bytes()))
}

/// `jsonwebtoken::decode` for HS256 with the expiry check switched off, and
/// the five claims read from the payload. The outcome is named
/// `jwt_payload`.
#[verifier::external_body]
pub(crate) fn jwt_decode(token: &str, secret: &str) -> (r: Option<RawClaims>)
    ensures
        match r {
            Some(claims) => jwt_payload(token@, secret@) == Some(claims@),
            None => jwt_payload(token@, secret@) is None,
        },
{
    let mut rules = Validation::new(Algorithm::HS256);
    rules.validate_exp = false;
    let key = DecodingKey::from_secret(secret.as_bytes());
    let c = decode::<Value>(token, &key, &rules).ok()?.claims;
    Some(RawClaims {
        sub: c.get("sub")?.as_str()?.to_string(),
        session_id: c.get("session_id")?.as_str()?.to_string(),
        exp: c.get("exp")?.as_u64()?,
        iat: c.get("iat")?.as_u64()?,
        roles: c.get("roles")?.as_array()?.iter().map(|r| r.as_str().map(String::from))
            .collect::<Option<_>>()?,
    })
}

} // verus!
