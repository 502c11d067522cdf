//! Session tokens: HMAC-SHA256 JSON web tokens embedding a subject, an
//! issue time and an expiry, all as integer timestamps.

use vstd::prelude::*;
use crate::errors::ErrorMessage;

verus! {

/// The claims a session token embeds.
#[derive(Debug)]
pub struct TokenClaims {
    pub sub: String,
    pub iat: u64,
    pub exp: u64,
}

/// The signed serialized token for these claims under this secret: a
/// function of its arguments alone.
pub uninterp spec fn hs256_token(sub: Seq<char>, iat: u64, exp: u64, secret: Seq<u8>) -> Seq<char>;

/// What signature-checked decoding (without expiry validation) returns
/// for a token under a secret: a function of its arguments alone.
pub uninterp spec fn hs256_claims(token: Seq<char>, secret: Seq<u8>) -> Option<
    (Seq<char>, u64, u64),
>;

/// Relies on jsonwebtoken::encode with the default (HS256) header: for
/// this algorithm and any claims it returns a token, a function of claims
/// and secret alone.
#[verifier::external_body]
fn jwt_encode(claims: &TokenClaims, secret: &[u8]) -> (r: Result<String, ()>)
    ensures
        r is Ok,
        r matches Ok(t) ==> t@ == hs256_token(claims.sub@, claims.iat, claims.exp, secret@),
{
    let mut map = serde_json::Map::new();
    map.insert(String::from("sub"), serde_json::Value::from(claims.sub.as_str()));
    map.insert(String::from("iat"), serde_json::Value::from(claims.iat));
    map.insert(String::from("exp"), serde_json::Value::from(claims.exp));
    jsonwebtoken::encode(
        &jsonwebtoken::Header::default(),
        &serde_json::Value::Object(map),
        &jsonwebtoken::EncodingKey::from_secret(secret),
    ).map_err(|_| ())
}

/// Relies on jsonwebtoken::decode with HS256, signature verification on
/// and expiry validation off: the outcome depends on the token and secret
/// alone, and decoding a token `encode` produced returns exactly the
/// claims it embedded.
#[verifier::external_body]
fn jwt_decode(token: &str, secret: &[u8]) -> (r: Option<TokenClaims>)
    ensures
        r is Some <==> hs256_claims(token@, secret@) is Some,
        r matches Some(c) ==> hs256_claims(token@, secret@) == Some((c.sub@, c.iat, c.exp)),
        r matches Some(c) ==> forall|sub: Seq<char>, iat: u64, exp: u64|
            token@ == hs256_token(sub, iat, exp, secret@) ==> (c.sub@ == sub && c.iat == iat
                && c.exp == exp),
        r is None ==> forall|sub: Seq<char>, iat: u64, exp: u64|
            token@ != hs256_token(sub, iat, exp, secret@),
{
    let mut validation = jsonwebtoken::Validation::new(jsonwebtoken::Algorithm::HS256);
    validation.validate_exp = false;
    let key = jsonwebtoken::DecodingKey::from_secret(secret);
    let data = jsonwebtoken::decode::<serde_json::Value>(token, &key, &validation).ok()?;
    let sub = String::from(data.claims.get("sub")?.as_str()?);
    let iat = data.claims.get("iat")?.as_u64()?;
    let exp = data.claims.get("exp")?.as_u64()?;
    Some(TokenClaims { sub, iat, exp })
}

/// What verifying `token` under `secret` at time `now` yields: the
/// embedded subject when the signature checks out and the expiry has not
/// passed, and `InvalidToken` otherwise.
pub open spec fn token_verification(token: Seq<char>, secret: Seq<u8>, now: u64) -> Result<
    Seq<char>,
    ErrorMessage,
> {
    match hs256_claims(token, secret) {
        None => Err(ErrorMessage::InvalidToken),
        Some(c) => if c.2 < now {
            Err(ErrorMessage::InvalidToken)
        } else {
            Ok(c.0)
        },
    }
}

/// Issues a signed token for `user_id`, issued at `now` and expiring
/// `expires_in_seconds` later. An empty subject is rejected.
pub fn create_token(user_id: &String, secret: &[u8], expires_in_seconds: u64, now: u64) -> (r:
    Result<String, ErrorMessage>)
    requires
        now + expires_in_seconds <= u64::MAX,
    ensures
        r is Ok <==> user_id@.len() > 0,
        r matches Ok(t) ==> t@ == hs256_token(
            user_id@,
            now,
            (now + expires_in_seconds) as u64,
            secret@,
        ),
        r matches Err(e) ==> e == ErrorMessage::InvalidToken,
{
    if user_id.as_str().unicode_len() == 0 {
        return Err(ErrorMessage::InvalidToken);
    }
    let claims = TokenClaims { sub: user_id.clone(), iat: now, exp: now + expires_in_seconds };
    match jwt_encode(&claims, secret) {
        Ok(t) => Ok(t),
        Err(_) => Err(ErrorMessage::InvalidToken),
    }
}

/// Verifies a token: the signature must check out under `secret` and the
/// embedded expiry must not lie before `now`; the embedded subject comes
/// back. In particular a token just issued for a subject verifies, under
/// the same secret, to exactly that subject.
pub fn decode_token(token: &String, secret: &[u8], now: u64) -> (r: Result<String, ErrorMessage>)
    ensures
        r is Ok <==> token_verification(token@, secret@, now) is Ok,
        r matches Ok(s) ==> token_verification(token@, secret@, now) == Ok::<_, ErrorMessage>(s@),
        r matches Err(e) ==> e == ErrorMessage::InvalidToken,
        forall|sub: Seq<char>, iat: u64, exp: u64|
            token@ == hs256_token(sub, iat, exp, secret@) && now <= exp ==> (r matches Ok(s) && s@
                == sub),
        forall|sub: Seq<char>, iat: u64, exp: u64|
            token@ == hs256_token(sub, iat, exp, secret@) && exp < now ==> r == Err::<
                String,
                _,
            >(ErrorMessage::InvalidToken),
{
    match jwt_decode(token.as_str(), secret) {
        None => Err(ErrorMessage::InvalidToken),
        Some(claims) => {
            if claims.exp < now {
                Err(ErrorMessage::InvalidToken)
            } else {
                Ok(claims.sub)
            }
        },
    }
}

} // verus!
