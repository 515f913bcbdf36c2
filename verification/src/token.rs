//! Token issuance and verification.
//!
//! A session token is a signed JWT whose payload holds `sub` (the subject
//! identifier in its text form), `iat` and `exp` in epoch seconds, with
//! `exp - iat` fixed at 60 minutes.  Signing uses a server-held symmetric
//! secret.  Any malformed, mis-signed, or expired token is one uniform
//! invalid-token failure: the caller is never told which check failed.

use vstd::prelude::*;

use crate::errors::Error;
use crate::ids::{id_text, parsed_id, format_id};

verus! {

/// The number of seconds a token stays valid after issuance.
pub const TOKEN_LIFETIME_SECS: usize = 3600;

/// Signed session payload.  Never persisted: derived and re-derived per
/// request.
#[derive(Debug)]
pub struct TokenClaims {
    /// The subject identifier, in its canonical text form.
    pub sub: String,
    /// Issuance time, epoch seconds.
    pub iat: usize,
    /// Expiry time, epoch seconds; the token is valid strictly before it.
    pub exp: usize,
}

/// The signed token the jsonwebtoken crate produces for the given secret
/// and payload.  Deterministic in its arguments: HMAC-SHA256 over a fixed
/// serialization.
pub uninterp spec fn jwt_of(secret: Seq<char>, sub: Seq<char>, iat: usize, exp: usize) -> Seq<
    char,
>;

/// The payload the jsonwebtoken crate recovers from a token under the given
/// secret, with the signature checked but expiry deliberately not: expiry
/// is judged in verified code against an explicit clock reading.  `None`
/// for anything malformed or mis-signed, and for a payload that does not
/// carry a string `sub` and numeric `iat` and `exp`.  Deterministic in its
/// arguments.
pub uninterp spec fn jwt_claims(secret: Seq<char>, token: Seq<char>) -> Option<
    (Seq<char>, usize, usize),
>;

/// Whether a token passes verification against `secret` at time `now`:
/// the signature is good and the expiry lies strictly in the future.
pub open spec fn token_accepted(secret: Seq<char>, token: Seq<char>, now: usize) -> bool {
    match jwt_claims(secret, token) {
        Some((sub, iat, exp)) => exp > now,
        None => false,
    }
}

/// The subject a token resolves to at time `now`: the parsed `sub` claim
/// of an accepted token, and nothing otherwise.
pub open spec fn token_subject(secret: Seq<char>, token: Seq<char>, now: usize) -> Option<u128> {
    match jwt_claims(secret, token) {
        Some((sub, iat, exp)) => if exp > now {
            parsed_id(sub)
        } else {
            None
        },
        None => None,
    }
}

/// Relies on `jsonwebtoken::encode` with the default header (HS256) and a
/// key from `from_secret`: produces the signed token for exactly this
/// payload, and `jsonwebtoken::decode` under the same secret recovers that
/// payload.  On this path encoding cannot fail: the key family always
/// matches the default header's algorithm, serializing a JSON object
/// cannot error, and HMAC signing is infallible.
#[verifier::external_body]
fn encode_token(secret: &str, sub: &str, iat: usize, exp: usize) -> (r: Option<String>)
    ensures
        r is Some,
        r matches Some(t) ==> t@ == jwt_of(secret@, sub@, iat, exp),
        r matches Some(t) ==> jwt_claims(secret@, t@) == Some((sub@, iat, exp)),
{
    let mut payload = serde_json::Map::new();
    payload.insert("sub".to_owned(), serde_json::Value::from(sub));
    payload.insert("iat".to_owned(), serde_json::Value::from(iat as u64));
    payload.insert("exp".to_owned(), serde_json::Value::from(exp as u64));
    let key = jsonwebtoken::EncodingKey::from_secret(secret.as_bytes());
    jsonwebtoken::encode(&jsonwebtoken::Header::default(), &serde_json::Value::Object(payload), &key).ok()
}

/// Relies on `jsonwebtoken::decode` with signature validation on and expiry
/// validation off, so that expiry can be judged in verified code against an
/// explicit clock reading rather than the process clock.
#[verifier::external_body]
fn decode_token(secret: &str, token: &str) -> (r: Option<TokenClaims>)
    ensures
        match r {
            Some(c) => jwt_claims(secret@, token@) == Some((c.sub@, c.iat, c.exp)),
            None => jwt_claims(secret@, token@) is None,
        },
{
    let key = jsonwebtoken::DecodingKey::from_secret(secret.as_bytes());
    let mut validation = jsonwebtoken::Validation::default();
    validation.validate_exp = false;
    let data = jsonwebtoken::decode::<serde_json::Value>(token, &key, &validation).ok()?;
    let sub = data.claims.get("sub")?.as_str()?.to_owned();
    let iat = usize::try_from(data.claims.get("iat")?.as_u64()?).ok()?;
    let exp = usize::try_from(data.claims.get("exp")?.as_u64()?).ok()?;
    Some(TokenClaims { sub, iat, exp })
}

/// Issue a signed token for `subject` at time `now`: `iat = now`,
/// `exp = now + 3600`.
pub fn issue(secret: &str, subject: u128, now: usize) -> (r: String)
    requires
        now + TOKEN_LIFETIME_SECS <= usize::MAX,
    ensures
        r@ == jwt_of(secret@, id_text(subject), now, (now + TOKEN_LIFETIME_SECS) as usize),
        jwt_claims(secret@, r@) == Some(
            (id_text(subject), now, (now + TOKEN_LIFETIME_SECS) as usize),
        ),
        parsed_id(id_text(subject)) == Some(subject),
{
    let sub = format_id(subject);
    match encode_token(secret, sub.as_str(), now, now + TOKEN_LIFETIME_SECS) {
        Some(t) => t,
        None => vstd::pervasive::unreached(),
    }
}

/// Verify a token at time `now`: check the signature and that `exp > now`.
///
/// Succeeds exactly on accepted tokens, returning the recovered claims;
/// every failure is the same uniform invalid-token error.
pub fn verify_token(secret: &str, token: &str, now: usize) -> (r: Result<TokenClaims, Error>)
    ensures
        match r {
            Ok(c) => {
                &&& jwt_claims(secret@, token@) == Some((c.sub@, c.iat, c.exp))
                &&& c.exp > now
            },
            Err(e) => {
                &&& !token_accepted(secret@, token@, now)
                &&& e matches Error::Authorization(m) && m@ == "Invalid token"@
            },
        },
        token_accepted(secret@, token@, now) ==> r is Ok,
{
    match decode_token(secret, token) {
        Some(c) => {
            if c.exp > now {
                Ok(c)
            } else {
                Err(Error::Authorization(String::from_str("Invalid token")))
            }
        },
        None => Err(Error::Authorization(String::from_str("Invalid token"))),
    }
}

/// A token issued at `t0` verifies successfully at any time strictly before
/// `t0 + 3600` and fails at any time from `t0 + 3600` on.
pub proof fn lemma_token_window(
    secret: Seq<char>,
    token: Seq<char>,
    sub: Seq<char>,
    t0: usize,
    t: usize,
)
    requires
        t0 + TOKEN_LIFETIME_SECS <= usize::MAX,
        jwt_claims(secret, token) == Some((sub, t0, (t0 + TOKEN_LIFETIME_SECS) as usize)),
    ensures
        token_accepted(secret, token, t) <==> (t as int) < t0 + TOKEN_LIFETIME_SECS,
        token_accepted(secret, token, t) ==> token_subject(secret, token, t) == parsed_id(sub),
{
}

} // verus!
