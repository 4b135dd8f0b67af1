//! The token service: encoding, signing, verifying and expiring session
//! tokens.
//!
//! A session token is an opaque signed string carrying {subject, company,
//! role, expiry}. Issuing signs with the process-wide secret and a fixed
//! lifetime; verification checks the signature and then the expiry, and
//! swallows every failure into "no identity": an invalid bearer
//! credential is a routine request shape, not an error.

use vstd::prelude::*;

use crate::claims::Claims;
use crate::errors::AuthError;
use crate::roles::Roles;
use crate::roles::lemma_role_label_round_trip;
use crate::roles::spec_role_label;
use crate::roles::spec_role_of_label;

verus! {

/// Lifetime of a session token: 24 hours from issuance.
pub const TOKEN_TTL_SECONDS: i64 = 60 * 60 * 24;

/// The signed token that the signing library produces from these claims
/// and this secret. The token is a function of its arguments alone.
pub uninterp spec fn token_of(
    sub: Seq<char>,
    company: Seq<char>,
    role_label: Seq<char>,
    exp: int,
    secret: Seq<u8>,
) -> Seq<char>;

/// What signature verification and payload parsing yield for a token and
/// a secret: the {subject, company, role label, expiry} claims, or `None`
/// when the token is malformed or was not signed with this secret. The
/// outcome is a function of the token and the secret alone; checking the
/// expiry against the clock is this library's own, verified work.
pub uninterp spec fn decode_of(token: Seq<char>, secret: Seq<u8>) -> Option<
    (Seq<char>, Seq<char>, Seq<char>, int),
>;

/// Relies on jsonwebtoken::encode with the default header (HS256) and a
/// key from EncodingKey::from_secret: the signed token is a deterministic
/// function of the claims and the secret, and jsonwebtoken::decode of it
/// with the same secret gives the claims back. On this path encoding
/// cannot fail: the key family always matches, the HMAC signer accepts
/// keys of any length and never errors, and a payload of plain strings
/// and an integer always serializes.
#[verifier::external_body]
fn jwt_encode(sub: &str, company: &str, role_label: &str, exp: i64, secret: &[u8]) -> (r: Option<
    String,
>)
    ensures
        r is Some,
        r matches Some(t) ==> t@ == token_of(sub@, company@, role_label@, exp as int, secret@),
        r matches Some(t) ==> decode_of(t@, secret@) == Some(
            (sub@, company@, role_label@, exp as int),
        ),
{
    let mut claims = serde_json::Map::new();
    claims.insert("sub".to_string(), serde_json::Value::String(sub.to_string()));
    claims.insert("company".to_string(), serde_json::Value::String(company.to_string()));
    claims.insert("role".to_string(), serde_json::Value::String(role_label.to_string()));
    claims.insert("exp".to_string(), serde_json::Value::Number(exp.into()));
    let key = jsonwebtoken::EncodingKey::from_secret(secret);
    jsonwebtoken::encode(&jsonwebtoken::Header::default(), &serde_json::Value::Object(claims), &key)
        .ok()
}

/// Relies on jsonwebtoken::decode over HS256 with expiry validation
/// turned off: it checks the signature and parses the payload, a
/// deterministic function of the token and the secret named `decode_of`.
#[verifier::external_body]
fn jwt_decode(token: &str, secret: &[u8]) -> (r: Option<(String, String, String, i64)>)
    ensures
        r is Some <==> decode_of(token@, secret@) is Some,
        r matches Some(c) ==> decode_of(token@, secret@) == Some((c.0@, c.1@, c.2@, c.3 as int)),
{
    let key = jsonwebtoken::DecodingKey::from_secret(secret);
    let mut validation = jsonwebtoken::Validation::new(jsonwebtoken::Algorithm::HS256);
    validation.validate_exp = false;
    validation.required_spec_claims = std::collections::HashSet::new();
    let data = jsonwebtoken::decode::<serde_json::Value>(token, &key, &validation).ok()?;
    let sub = data.claims.get("sub")?.as_str()?.to_string();
    let company = data.claims.get("company")?.as_str()?.to_string();
    let role = data.claims.get("role")?.as_str()?.to_string();
    let exp = data.claims.get("exp")?.as_i64()?;
    Some((sub, company, role, exp))
}

/// The claims a token verifies to at time `now`, if any: the parsed
/// payload of a well-signed token whose role label is known and whose
/// expiry has not passed. A token is accepted through its exact expiry
/// instant and rejected strictly after it.
pub open spec fn spec_verify(token: Seq<char>, secret: Seq<u8>, now: int) -> Option<
    (Seq<char>, Seq<char>, Roles, int),
> {
    match decode_of(token, secret) {
        None => None,
        Some((sub, company, label, exp)) => match spec_role_of_label(label) {
            None => None,
            Some(role) => if now <= exp {
                Some((sub, company, role, exp))
            } else {
                None
            },
        },
    }
}

/// Builds, signs and encodes a fresh session token for `subject` with
/// `role`, valid for 24 hours from `now`. Issuance always succeeds: on
/// the HMAC path the signing library cannot fail. The token round-trips:
/// at any moment up to and including its expiry it verifies back to
/// exactly the claims it was issued with.
pub fn issue_session_token(subject: &str, role: Roles, now: i64, secret: &[u8]) -> (r: Result<
    String,
    AuthError,
>)
    requires
        now + TOKEN_TTL_SECONDS <= i64::MAX,
    ensures
        r is Ok,
        r matches Ok(t) ==> t@ == token_of(
            subject@,
            "RRMDN"@,
            spec_role_label(role),
            now + TOKEN_TTL_SECONDS,
            secret@,
        ),
        r matches Ok(t) ==> forall|later: int|
            later <= now + TOKEN_TTL_SECONDS ==> spec_verify(t@, secret@, later) == Some(
                (subject@, "RRMDN"@, role, (now + TOKEN_TTL_SECONDS) as int),
            ),
{
    let exp = now + TOKEN_TTL_SECONDS;
    match jwt_encode(subject, "RRMDN", role.label(), exp, secret) {
        None => unreached(),
        Some(token) => {
            proof {
                lemma_role_label_round_trip(role);
            }
            Ok(token)
        },
    }
}

/// Attempts signature verification and the expiry check on an inbound
/// token. Every failure — malformed structure, wrong signature, unknown
/// role label, expiry already passed — yields `None`, never an error: it
/// means "treat the caller as unauthenticated". A token is still accepted
/// at its exact expiry instant.
pub fn verify_token(token: &str, secret: &[u8], now: i64) -> (r: Option<Claims>)
    ensures
        r is Some <==> spec_verify(token@, secret@, now as int) is Some,
        r matches Some(c) ==> spec_verify(token@, secret@, now as int) == Some(
            (c.sub@, c.company@, c.role, c.exp as int),
        ),
{
    match jwt_decode(token, secret) {
        None => None,
        Some((sub, company, label, exp)) => match Roles::from_label(label.as_str()) {
            None => None,
            Some(role) => if now <= exp {
                Some(Claims { sub, company, exp, role })
            } else {
                None
            },
        },
    }
}

/// Expiry enforcement: a token whose expiry lies strictly in the past
/// verifies to nothing at `now`, even when its signature is correct and
/// its payload parses.
pub proof fn lemma_expired_token_rejected(token: Seq<char>, secret: Seq<u8>, now: int)
    requires
        decode_of(token, secret) matches Some(c) && c.3 < now,
    ensures
        spec_verify(token, secret, now) is None,
{
}

} // verus!
