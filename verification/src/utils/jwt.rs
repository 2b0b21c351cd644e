//! The token codec: signed, time-bound identity assertions, and the two
//! screens that routes put in front of protected actions.

use vstd::prelude::*;
use crate::error::ApiError;
use crate::models::user::{Claims, User};
use crate::policy::{authorize, is_elevated, Capability, Resource};

verus! {

/// How long a session lasts, in seconds: 24 hours.
pub const SESSION_SECONDS: usize = 86400;

/// The payload member that names the subject.
pub const CLAIM_SUB: &'static str = "sub";

/// The payload member that holds the expiry.
pub const CLAIM_EXP: &'static str = "exp";

/// The payload member that holds the time of issue.
pub const CLAIM_IAT: &'static str = "iat";

/// The payload member that holds the account id.
pub const CLAIM_USER_ID: &'static str = "user_id";

/// The payload member that holds the role label.
pub const CLAIM_ROLE: &'static str = "role";

/// The error type of the token crate.
#[verifier::external_type_specification]
#[verifier::external_body]
pub struct ExTokenError(jsonwebtoken::errors::Error);

/// Why a token did not decode. Callers treat every kind alike; the kind is
/// for diagnostics.
#[derive(Clone, Copy, Debug, PartialEq, Eq, Structural)]
pub enum DecodeError {
    /// Not a token, or one whose payload is no identity assertion.
    MalformedToken,
    /// The signature does not match the key.
    BadSignature,
    /// The expiry has passed.
    Expired,
}

/// The fields of an identity assertion as a token's payload gives them:
/// each is absent where the payload lacks it or holds another kind of value.
#[derive(Debug, Clone)]
pub struct RawClaims {
    pub sub: Option<String>,
    pub exp: Option<u64>,
    pub iat: Option<u64>,
    pub user_id: Option<i64>,
    pub role: Option<String>,
}

/// The token that signing gives for a payload of these assertion fields
/// under this key with the default header, or `None` where signing fails.
pub uninterp spec fn signed_token(
    sub: Option<Seq<char>>,
    exp: Option<u64>,
    iat: Option<u64>,
    user_id: Option<i64>,
    role: Option<Seq<char>>,
    key: Seq<char>,
) -> Option<Seq<char>>;

/// The assertion fields (subject, expiry, issued-at, account id, role) of
/// the payload that decoding hands out for a token that it accepts under a
/// key. When a token is accepted depends on the time; what its payload
/// holds does not.
pub uninterp spec fn token_payload(token: Seq<char>, key: Seq<char>) -> (
    Option<Seq<char>>,
    Option<u64>,
    Option<u64>,
    Option<i64>,
    Option<Seq<char>>,
);

/// A text that may be absent, as its characters.
pub open spec fn text_view(text: Option<String>) -> Option<Seq<char>> {
    match text {
        Some(t) => Some(t@),
        None => None,
    }
}

/// The payload that carries an assertion: every field, as it is.
pub open spec fn payload_of_claims(claims: &Claims) -> RawClaims {
    RawClaims {
        sub: Some(claims.sub),
        exp: Some(claims.exp as u64),
        iat: Some(claims.iat as u64),
        user_id: Some(claims.user_id),
        role: Some(claims.role),
    }
}

/// The fields of a payload as plain values, in the order subject, expiry,
/// issued-at, account id, role.
pub open spec fn raw_fields(raw: &RawClaims) -> (
    Option<Seq<char>>,
    Option<u64>,
    Option<u64>,
    Option<i64>,
    Option<Seq<char>>,
) {
    (text_view(raw.sub), raw.exp, raw.iat, raw.user_id, text_view(raw.role))
}

/// The token of an assertion under a key.
pub open spec fn token_of(claims: &Claims, key: Seq<char>) -> Option<Seq<char>> {
    signed_token(
        Some(claims.sub@),
        Some(claims.exp as u64),
        Some(claims.iat as u64),
        Some(claims.user_id),
        Some(claims.role@),
        key,
    )
}

/// Whether a payload holds every field of an assertion, within the range
/// of its type.
pub open spec fn raw_complete(raw: &RawClaims) -> bool {
    &&& raw.sub is Some
    &&& raw.exp is Some && raw.exp->0 <= usize::MAX
    &&& raw.iat is Some && raw.iat->0 <= usize::MAX
    &&& raw.user_id is Some
    &&& raw.role is Some
}

/// Whether an assertion holds exactly the fields of a payload.
pub open spec fn claims_match(claims: &Claims, raw: &RawClaims) -> bool {
    &&& raw.sub == Some(claims.sub)
    &&& raw.exp == Some(claims.exp as u64)
    &&& raw.iat == Some(claims.iat as u64)
    &&& raw.user_id == Some(claims.user_id)
    &&& raw.role == Some(claims.role)
}

/// Calls `jsonwebtoken::encode` with the default header (HS256) on a JSON
/// object of the payload's five fields, an absent one as null: the result
/// is the token that signing gives for them under the key.
#[verifier::external_body]
fn sign_payload(payload: &RawClaims, key: &str) -> (r: Option<String>)
    ensures
        text_view(r) == signed_token(
            text_view(payload.sub),
            payload.exp,
            payload.iat,
            payload.user_id,
            text_view(payload.role),
            key@,
        ),
{
    let mut object = serde_json::Map::new();
    object.insert(CLAIM_SUB.to_string(), serde_json::Value::from(payload.sub.clone()));
    object.insert(CLAIM_EXP.to_string(), serde_json::Value::from(payload.exp));
    object.insert(CLAIM_IAT.to_string(), serde_json::Value::from(payload.iat));
    object.insert(CLAIM_USER_ID.to_string(), serde_json::Value::from(payload.user_id));
    object.insert(CLAIM_ROLE.to_string(), serde_json::Value::from(payload.role.clone()));
    let signing_key = jsonwebtoken::EncodingKey::from_secret(key.as_bytes());
    jsonwebtoken::encode(&jsonwebtoken::Header::default(), &object, &signing_key).ok()
}

/// Calls `jsonwebtoken::decode` with the default validation (HS256, expiry
/// checked against the clock) and hands out the payload's assertion fields.
/// Whether the token is accepted depends on the time of the call, and
/// nothing is promised of that. What is handed out for an accepted token
/// is read from the token's payload alone: it is the payload of that token
/// under that key.
#[verifier::external_body]
fn verify_token(token: &str, key: &str) -> (r: Result<RawClaims, jsonwebtoken::errors::Error>)
    ensures
        r matches Ok(raw) ==> raw_fields(&raw) == token_payload(token@, key@),
{
    let verifying_key = jsonwebtoken::DecodingKey::from_secret(key.as_bytes());
    let validation = jsonwebtoken::Validation::default();
    let data = jsonwebtoken::decode::<serde_json::Value>(token, &verifying_key, &validation)?;
    Ok(RawClaims {
        sub: data.claims.get(CLAIM_SUB).and_then(|v| v.as_str()).map(|s| s.to_string()),
        exp: data.claims.get(CLAIM_EXP).and_then(|v| v.as_u64()),
        iat: data.claims.get(CLAIM_IAT).and_then(|v| v.as_u64()),
        user_id: data.claims.get(CLAIM_USER_ID).and_then(|v| v.as_i64()),
        role: data.claims.get(CLAIM_ROLE).and_then(|v| v.as_str()).map(|s| s.to_string()),
    })
}

/// Reads `jsonwebtoken::errors::Error::kind`: an expired signature and an
/// invalid signature are told apart, every other kind is a malformed token.
#[verifier::external_body]
fn error_kind(error: &jsonwebtoken::errors::Error) -> (r: DecodeError) {
    match error.kind() {
        jsonwebtoken::errors::ErrorKind::ExpiredSignature => DecodeError::Expired,
        jsonwebtoken::errors::ErrorKind::InvalidSignature => DecodeError::BadSignature,
        _ => DecodeError::MalformedToken,
    }
}

/// Calls `chrono::Utc::now` and gives the seconds since the Unix epoch.
#[verifier::external_body]
pub(crate) fn current_timestamp() -> (r: i64) {
    chrono::Utc::now().timestamp()
}

/// The assertion for a session of `user` that starts at `now` (seconds
/// since the Unix epoch): it expires exactly 24 hours later. There is none
/// for an instant before the epoch or too late for its expiry to be held.
pub fn session_claims(user: &User, now: i64) -> (r: Option<Claims>)
    ensures
        r is Some <==> 0 <= now && now + SESSION_SECONDS <= usize::MAX,
        r matches Some(claims) ==> {
            &&& claims.sub == user.email
            &&& claims.user_id == user.id
            &&& claims.role == user.role
            &&& claims.iat == now
            &&& claims.exp == now + SESSION_SECONDS
            &&& claims.exp > claims.iat
        },
{
    if now < 0 || now as u64 > (usize::MAX - SESSION_SECONDS) as u64 {
        return None;
    }
    let issued = now as usize;
    Some(
        Claims {
            sub: user.email.clone(),
            exp: issued + SESSION_SECONDS,
            iat: issued,
            user_id: user.id,
            role: user.role.clone(),
        },
    )
}

/// The payload that carries an assertion.
pub fn payload_of(claims: &Claims) -> (r: RawClaims)
    ensures
        r == payload_of_claims(claims),
{
    RawClaims {
        sub: Some(claims.sub.clone()),
        exp: Some(claims.exp as u64),
        iat: Some(claims.iat as u64),
        user_id: Some(claims.user_id),
        role: Some(claims.role.clone()),
    }
}

/// Serialises the assertion and signs it with the key. Failure to sign is
/// an internal error.
pub fn issue(claims: &Claims, key: &str) -> (r: Result<String, ApiError>)
    ensures
        match r {
            Ok(token) => token_of(claims, key@) == Some(token@),
            Err(e) => e == ApiError::Internal && token_of(claims, key@) is None,
        },
{
    let payload = payload_of(claims);
    match sign_payload(&payload, key) {
        Some(token) => Ok(token),
        None => Err(ApiError::Internal),
    }
}

/// The assertion that a verified payload stands for: every field must be
/// there, else the token is malformed.
pub fn claims_from_raw(raw: RawClaims) -> (r: Result<Claims, DecodeError>)
    ensures
        match r {
            Ok(claims) => raw_complete(&raw) && claims_match(&claims, &raw),
            Err(e) => !raw_complete(&raw) && e == DecodeError::MalformedToken,
        },
{
    match (raw.sub, raw.exp, raw.iat, raw.user_id, raw.role) {
        (Some(sub), Some(exp), Some(iat), Some(user_id), Some(role)) => {
            if exp > usize::MAX as u64 || iat > usize::MAX as u64 {
                Err(DecodeError::MalformedToken)
            } else {
                Ok(Claims { sub, exp: exp as usize, iat: iat as usize, user_id, role })
            }
        },
        _ => Err(DecodeError::MalformedToken),
    }
}

/// The payload of an assertion holds every field, and the only assertion
/// that a payload equal to it stands for is that assertion itself. So a
/// token whose verified payload is the one that was signed decodes to the
/// assertion that was issued.
pub proof fn lemma_payload_round_trip(claims: &Claims, decoded: &Claims)
    requires
        claims_match(decoded, &payload_of_claims(claims)),
    ensures
        raw_complete(&payload_of_claims(claims)),
        *decoded == *claims,
{
    assert(decoded.exp as u64 == claims.exp as u64);
    assert(decoded.iat as u64 == claims.iat as u64);
}

/// Whether the token carries this assertion under the key: the assertion
/// holds each field of the token's payload, and no other.
pub open spec fn carries(token: Seq<char>, key: Seq<char>, claims: &Claims) -> bool {
    raw_fields(&payload_of_claims(claims)) == token_payload(token, key)
}

/// Whether the expiry of the assertion has passed at the instant `now`
/// (seconds since the Unix epoch).
pub open spec fn expired_at(claims: &Claims, now: i64) -> bool {
    now > claims.exp
}

/// Lets an assertion through at the instant `now` unless its expiry has
/// passed: then it is `Expired`, however valid its signature.
pub fn unexpired(claims: Claims, now: i64) -> (r: Result<Claims, DecodeError>)
    ensures
        r == if expired_at(&claims, now) {
            Err::<Claims, DecodeError>(DecodeError::Expired)
        } else {
            Ok::<Claims, DecodeError>(claims)
        },
{
    if now > 0 && now as u64 > claims.exp as u64 {
        Err(DecodeError::Expired)
    } else {
        Ok(claims)
    }
}

/// Verifies the token's signature under the key and gives the assertion
/// it carries, as of the instant `now`. Whether the verifier accepts the
/// token is its own matter, so no success is promised. An assertion that
/// comes back is the one that the token's payload holds under the key,
/// field for field, and its expiry has not passed at `now`.
pub fn decode_at(token: &str, key: &str, now: i64) -> (r: Result<Claims, DecodeError>)
    ensures
        r matches Ok(claims) ==> carries(token@, key@, &claims) && !expired_at(&claims, now),
{
    match verify_token(token, key) {
        Ok(raw) => match claims_from_raw(raw) {
            Ok(claims) => unexpired(claims, now),
            Err(e) => Err(e),
        },
        Err(e) => Err(error_kind(&e)),
    }
}

/// Verifies the token's signature and its expiry under the key, as of the
/// current time, and gives the assertion it carries. What the clock says
/// decides with the verifier, so no success is promised here; `decode_at`
/// says what holds at a given instant. An assertion that comes back is the
/// one that the token's payload holds under the key, field for field.
pub fn decode(token: &str, key: &str) -> (r: Result<Claims, DecodeError>)
    ensures
        r matches Ok(claims) ==> carries(token@, key@, &claims),
{
    decode_at(token, key, current_timestamp())
}

/// What a screen makes of a request's credential once decoded: absent or
/// undecodable is `Unauthenticated`; where elevated privilege is required,
/// a standard assertion is `Forbidden`; otherwise the assertion passes on.
pub open spec fn screened(
    decoded: Option<Result<Claims, DecodeError>>,
    admin_only: bool,
) -> Result<Claims, ApiError> {
    match decoded {
        Some(Ok(claims)) => if admin_only && !is_elevated(&claims) {
            Err(ApiError::Forbidden)
        } else {
            Ok(claims)
        },
        _ => Err(ApiError::Unauthenticated),
    }
}

/// Applies the access policy to a decoded credential: the `Authenticated`
/// capability, or `AdminOnly` where `admin_only` is set.
pub fn screen(decoded: Option<Result<Claims, DecodeError>>, admin_only: bool) -> (r: Result<
    Claims,
    ApiError,
>)
    ensures
        r == screened(decoded, admin_only),
{
    let capability = if admin_only {
        Capability::AdminOnly
    } else {
        Capability::Authenticated
    };
    match decoded {
        Some(Ok(claims)) => {
            match authorize(Some(&claims), capability, Resource::Unowned) {
                Ok(_) => Ok(claims),
                Err(e) => Err(e),
            }
        },
        _ => Err(ApiError::Unauthenticated),
    }
}

/// Decodes the bearer credential of a request, if there is one, as of the
/// instant `now`. An assertion that comes back is the one that the bearer
/// token carries under the key, and its expiry has not passed.
pub fn decode_bearer(bearer: Option<&str>, key: &str, now: i64) -> (r: Option<
    Result<Claims, DecodeError>,
>)
    ensures
        r is Some <==> bearer is Some,
        r matches Some(Ok(claims)) ==> carries((bearer->0)@, key@, &claims) && !expired_at(
            &claims,
            now,
        ),
{
    match bearer {
        Some(token) => Some(decode_at(token, key, now)),
        None => None,
    }
}

/// The screen in front of actions that any signed-in account may take, as
/// of the instant `now`: the request passes with the assertion that its
/// bearer token carries, unexpired, or it is `Unauthenticated`.
pub fn auth_middleware(bearer: Option<&str>, key: &str, now: i64) -> (r: Result<Claims, ApiError>)
    ensures
        bearer is None ==> r is Err,
        r matches Ok(claims) ==> {
            &&& bearer is Some
            &&& carries((bearer->0)@, key@, &claims)
            &&& !expired_at(&claims, now)
        },
        r matches Err(e) ==> e == ApiError::Unauthenticated,
{
    screen(decode_bearer(bearer, key, now), false)
}

/// The screen in front of administrative actions, as of the instant `now`:
/// the request passes with the assertion that its bearer token carries,
/// unexpired and elevated; it is `Forbidden` with a standard one, and
/// `Unauthenticated` without a valid one.
pub fn admin_middleware(bearer: Option<&str>, key: &str, now: i64) -> (r: Result<Claims, ApiError>)
    ensures
        bearer is None ==> (r matches Err(e) && e == ApiError::Unauthenticated),
        r matches Ok(claims) ==> {
            &&& bearer is Some
            &&& carries((bearer->0)@, key@, &claims)
            &&& !expired_at(&claims, now)
            &&& is_elevated(&claims)
        },
        r matches Err(e) ==> e == ApiError::Unauthenticated || e == ApiError::Forbidden,
{
    screen(decode_bearer(bearer, key, now), true)
}

} // verus!
