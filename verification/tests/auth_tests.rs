use newsdesk::error::{ApiError, Outcome};
use newsdesk::handlers::article::{update_article_handler, Lookup};
use newsdesk::handlers::auth::{
    credential, login_at, login_handler, login_message, new_user, register_handler, register_message,
    register_outcome, registration_role, AccountLookup, Credential, InsertResult,
};
use newsdesk::models::user::{Claims, LoginPayload, RegisterPayload, User};
use newsdesk::policy::Role;
use newsdesk::utils::jwt::{
    admin_middleware, auth_middleware, claims_from_raw, decode, decode_at, decode_bearer, issue, payload_of, screen,
    session_claims, unexpired, DecodeError, RawClaims,
};
use newsdesk::utils::security::{hash_password, hash_with_salt, verify_password};

const KEY: &str = "test-signing-key";

fn now() -> i64 {
    std::time::SystemTime::now().duration_since(std::time::UNIX_EPOCH).unwrap().as_secs() as i64
}

fn payload(name: &str, email: &str, pw: &str) -> RegisterPayload {
    RegisterPayload { username: name.to_string(), email: email.to_string(), password: pw.to_string() }
}

fn stored(id: i64, row: &newsdesk::handlers::auth::NewUser) -> User {
    User {
        id,
        username: row.username.clone(),
        email: row.email.clone(),
        password_hash: row.password_hash.clone(),
        role: row.role.clone(),
    }
}

fn far_future_claims(user_id: i64, role: &str) -> Claims {
    Claims { sub: "a@x.com".to_string(), exp: 4_000_000_000, iat: 1_700_000_000, user_id, role: role.to_string() }
}

#[test]
fn first_account_rule() {
    assert_eq!(registration_role(0, Credential::Absent), Ok(Role::Elevated));
    assert_eq!(registration_role(0, Credential::Invalid), Ok(Role::Elevated));
    assert_eq!(registration_role(0, Credential::Valid(Role::Standard)), Ok(Role::Elevated));
    assert_eq!(registration_role(1, Credential::Absent), Err(ApiError::Forbidden));
    assert_eq!(registration_role(1, Credential::Invalid), Err(ApiError::Unauthenticated));
    assert_eq!(registration_role(1, Credential::Valid(Role::Standard)), Err(ApiError::Forbidden));
    assert_eq!(registration_role(1, Credential::Valid(Role::Elevated)), Ok(Role::Standard));
    assert_eq!(registration_role(u64::MAX, Credential::Valid(Role::Elevated)), Ok(Role::Standard));
}

#[test]
fn credential_of_decoded_token() {
    assert_eq!(credential(&None), Credential::Absent);
    assert_eq!(credential(&Some(Err(DecodeError::Expired))), Credential::Invalid);
    assert_eq!(credential(&Some(Ok(far_future_claims(1, "admin")))), Credential::Valid(Role::Elevated));
    assert_eq!(credential(&Some(Ok(far_future_claims(2, "editor")))), Credential::Valid(Role::Standard));
}

#[test]
fn new_user_never_stores_the_secret() {
    let p = payload("bob", "b@x.com", "pw2");
    let row = new_user(&p, Role::Standard, Ok("digest".to_string())).unwrap();
    assert_eq!(row.password_hash, "digest");
    assert_eq!(row.role, "editor");
    assert_eq!(row.username, "bob");
    assert_eq!(row.email, "b@x.com");
    assert_eq!(new_user(&p, Role::Elevated, Err("no".to_string())).err(), Some(ApiError::Internal));
}

#[test]
fn register_outcomes_and_messages() {
    assert_eq!(register_outcome(InsertResult::Inserted), Outcome::Created);
    assert_eq!(register_outcome(InsertResult::Duplicate), Outcome::Failed(ApiError::Conflict));
    assert_eq!(register_outcome(InsertResult::Duplicate).status_code(), 409);
    assert_eq!(register_outcome(InsertResult::Failed), Outcome::Failed(ApiError::Internal));
    assert_eq!(register_outcome(InsertResult::Failed).status_code(), 500);
    assert_eq!(register_message(Outcome::Created), "Usuario creado exitosamente");
    assert_eq!(register_message(Outcome::Failed(ApiError::Forbidden)), "Solo un admin puede crear usuarios");
    assert_eq!(register_message(Outcome::Failed(ApiError::Internal)), "Error de seguridad");
    assert_eq!(register_message(Outcome::Failed(ApiError::Conflict)), "El usuario o email ya existe");
    assert_eq!(register_message(Outcome::Failed(ApiError::Unauthenticated)), "");
    assert_eq!(login_message(ApiError::Unauthenticated), "Credenciales inválidas");
    assert_eq!(login_message(ApiError::Internal), "Error generando token");
}

#[test]
fn accounts_and_articles_scenario() {
    // No account yet: alice registers without a token and is elevated.
    let alice_row = register_handler(0, None, KEY, now(), &payload("alice", "a@x.com", "pw1")).unwrap();
    assert_eq!(alice_row.role, "admin");
    assert_eq!(register_outcome(InsertResult::Inserted).status_code(), 201);
    let alice = stored(1, &alice_row);

    // bob without a token is refused.
    let refused = register_handler(1, None, KEY, now(), &payload("bob", "b@x.com", "pw2"));
    assert_eq!(refused.err(), Some(ApiError::Forbidden));
    assert_eq!(ApiError::Forbidden.status_code(), 403);

    // alice logs in and registers bob with her token.
    let login = LoginPayload { email: "a@x.com".to_string(), password: "pw1".to_string() };
    let session = login_handler(AccountLookup::Found(&alice), &login, KEY).unwrap();
    assert_eq!(session.token_type, "Bearer");
    let bob_row = register_handler(1, Some(&session.token), KEY, now(), &payload("bob", "b@x.com", "pw2")).unwrap();
    assert_eq!(bob_row.role, "editor");
    let bob = stored(2, &bob_row);
    let carol_row = register_handler(2, Some(&session.token), KEY, now(), &payload("carol", "c@x.com", "pw3")).unwrap();
    assert_eq!(carol_row.role, "editor");
    let carol = stored(3, &carol_row);

    // bob cannot register anyone with his own token.
    let bob_login = LoginPayload { email: "b@x.com".to_string(), password: "pw2".to_string() };
    let bob_session = login_handler(AccountLookup::Found(&bob), &bob_login, KEY).unwrap();
    let by_bob = register_handler(3, Some(&bob_session.token), KEY, now(), &payload("dave", "d@x.com", "pw4"));
    assert_eq!(by_bob.err(), Some(ApiError::Forbidden));
    let garbled = register_handler(3, Some("not-a-token"), KEY, now(), &payload("dave", "d@x.com", "pw4"));
    assert_eq!(garbled.err(), Some(ApiError::Unauthenticated));

    // bob owns article 42: bob and alice may edit it, carol may not.
    let bob_claims = auth_middleware(Some(&bob_session.token), KEY, now()).unwrap();
    assert_eq!(bob_claims.user_id, 2);
    let article_42 = Lookup::Found(Some(bob_claims.user_id));
    assert_eq!(update_article_handler(&bob_claims, article_42), Ok(()));
    let carol_login = LoginPayload { email: "c@x.com".to_string(), password: "pw3".to_string() };
    let carol_session = login_handler(AccountLookup::Found(&carol), &carol_login, KEY).unwrap();
    let carol_claims = auth_middleware(Some(&carol_session.token), KEY, now()).unwrap();
    assert_eq!(update_article_handler(&carol_claims, article_42), Err(ApiError::Forbidden));
    let alice_claims = admin_middleware(Some(&session.token), KEY, now()).unwrap();
    assert_eq!(update_article_handler(&alice_claims, article_42), Ok(()));
}

#[test]
fn login_does_not_tell_unknown_account_from_wrong_secret() {
    let row = register_handler(0, None, KEY, now(), &payload("alice", "a@x.com", "pw1")).unwrap();
    let alice = stored(1, &row);
    let wrong = LoginPayload { email: "a@x.com".to_string(), password: "nope".to_string() };
    assert_eq!(login_handler(AccountLookup::Found(&alice), &wrong, KEY).err(), Some(ApiError::Unauthenticated));
    assert_eq!(login_handler(AccountLookup::Missing, &wrong, KEY).err(), Some(ApiError::Unauthenticated));
    assert_eq!(ApiError::Unauthenticated.status_code(), 401);
}

#[test]
fn session_lasts_24_hours() {
    let user = User {
        id: 5,
        username: "eve".to_string(),
        email: "e@x.com".to_string(),
        password_hash: String::new(),
        role: "editor".to_string(),
    };
    let claims = session_claims(&user, 1_700_000_000).unwrap();
    assert_eq!(claims.iat, 1_700_000_000);
    assert_eq!(claims.exp, 1_700_086_400);
    assert_eq!(claims.sub, "e@x.com");
    assert_eq!(claims.user_id, 5);
    assert_eq!(claims.role, "editor");
    assert!(session_claims(&user, -1).is_none());
    let latest = (usize::MAX - 86_400).min(i64::MAX as usize) as i64;
    assert_eq!(session_claims(&user, latest).unwrap().exp, latest as usize + 86_400);
    if (i64::MAX as u128) + 86_400 > usize::MAX as u128 {
        assert!(session_claims(&user, i64::MAX).is_none());
    }
    assert!(session_claims(&user, 0).is_some());
    assert_eq!(login_at(&user, -1, KEY).err(), Some(ApiError::Internal));
}

#[test]
fn login_token_carries_the_current_session() {
    let user = User {
        id: 5,
        username: "eve".to_string(),
        email: "e@x.com".to_string(),
        password_hash: hash_password("pw").unwrap(),
        role: "editor".to_string(),
    };
    let login = LoginPayload { email: "e@x.com".to_string(), password: "pw".to_string() };
    let session = login_handler(AccountLookup::Found(&user), &login, KEY).unwrap();
    let claims = decode(&session.token, KEY).unwrap();
    assert_eq!(claims.exp - claims.iat, 86_400);
    assert!(claims.iat > 1_600_000_000);
    assert_eq!(claims.user_id, 5);
    assert_eq!(claims.sub, "e@x.com");
}

#[test]
fn token_round_trip() {
    let claims = far_future_claims(7, "editor");
    let token = issue(&claims, KEY).unwrap();
    assert_eq!(token.split('.').count(), 3);
    let back = decode(&token, KEY).unwrap();
    assert_eq!(back.sub, claims.sub);
    assert_eq!(back.exp, claims.exp);
    assert_eq!(back.iat, claims.iat);
    assert_eq!(back.user_id, claims.user_id);
    assert_eq!(back.role, claims.role);
    assert_eq!(issue(&claims, KEY).unwrap(), token);
    assert_ne!(issue(&claims, "another-key").unwrap(), token);
}

#[test]
fn decode_errors() {
    let claims = far_future_claims(7, "editor");
    let token = issue(&claims, KEY).unwrap();
    assert_eq!(decode(&token, "another-key").err(), Some(DecodeError::BadSignature));
    assert_eq!(decode("garbage", KEY).err(), Some(DecodeError::MalformedToken));
    assert_eq!(decode("", KEY).err(), Some(DecodeError::MalformedToken));
    let old = Claims { exp: 1_000, iat: 900, ..far_future_claims(7, "editor") };
    let stale = issue(&old, KEY).unwrap();
    assert_eq!(decode(&stale, KEY).err(), Some(DecodeError::Expired));
}

#[test]
fn payload_must_hold_every_field() {
    let full = RawClaims {
        sub: Some("a@x.com".to_string()),
        exp: Some(20),
        iat: Some(10),
        user_id: Some(-3),
        role: Some("admin".to_string()),
    };
    let claims = claims_from_raw(full.clone()).unwrap();
    assert_eq!((claims.sub.as_str(), claims.exp, claims.iat, claims.user_id, claims.role.as_str()), ("a@x.com", 20, 10, -3, "admin"));
    assert_eq!(claims_from_raw(RawClaims { sub: None, ..full.clone() }).err(), Some(DecodeError::MalformedToken));
    assert_eq!(claims_from_raw(RawClaims { exp: None, ..full.clone() }).err(), Some(DecodeError::MalformedToken));
    assert_eq!(claims_from_raw(RawClaims { iat: None, ..full.clone() }).err(), Some(DecodeError::MalformedToken));
    assert_eq!(claims_from_raw(RawClaims { user_id: None, ..full.clone() }).err(), Some(DecodeError::MalformedToken));
    assert_eq!(claims_from_raw(RawClaims { role: None, ..full }).err(), Some(DecodeError::MalformedToken));
}

#[test]
fn screens() {
    let admin = issue(&far_future_claims(1, "admin"), KEY).unwrap();
    let editor = issue(&far_future_claims(2, "editor"), KEY).unwrap();
    assert_eq!(auth_middleware(None, KEY, now()).err(), Some(ApiError::Unauthenticated));
    assert_eq!(auth_middleware(Some("x.y.z"), KEY, now()).err(), Some(ApiError::Unauthenticated));
    assert_eq!(auth_middleware(Some(&editor), KEY, now()).unwrap().user_id, 2);
    assert_eq!(admin_middleware(None, KEY, now()).err(), Some(ApiError::Unauthenticated));
    assert_eq!(admin_middleware(Some(&editor), KEY, now()).err(), Some(ApiError::Forbidden));
    assert_eq!(admin_middleware(Some(&editor), "other", now()).err(), Some(ApiError::Unauthenticated));
    assert_eq!(admin_middleware(Some(&admin), KEY, now()).unwrap().user_id, 1);
    assert_eq!(screen(Some(Err(DecodeError::Expired)), false).err(), Some(ApiError::Unauthenticated));
    assert_eq!(screen(Some(Ok(far_future_claims(2, "editor"))), true).err(), Some(ApiError::Forbidden));
    assert_eq!(screen(Some(Ok(far_future_claims(2, "editor"))), false).unwrap().user_id, 2);
}

#[test]
fn hashing_and_verifying() {
    let digest = hash_password("s3cret").unwrap();
    assert!(digest.starts_with("$argon2"));
    assert_ne!(digest, "s3cret");
    assert!(verify_password("s3cret", &digest));
    assert!(!verify_password("other", &digest));
    assert!(!verify_password("s3cret", "not a digest"));
    assert!(!verify_password("s3cret", ""));
    assert_ne!(hash_password("s3cret").unwrap(), digest);
}

#[test]
fn hashing_under_a_given_salt() {
    let a = hash_with_salt("s3cret", "c29tZXNhbHR2YWx1ZQ").unwrap();
    let b = hash_with_salt("s3cret", "c29tZXNhbHR2YWx1ZQ").unwrap();
    assert_eq!(a, b);
    assert!(a.contains("c29tZXNhbHR2YWx1ZQ"));
    assert!(verify_password("s3cret", &a));
    assert_ne!(hash_with_salt("s3cret", "YW5vdGhlcnNhbHQxMjM").unwrap(), a);
    assert_eq!(hash_with_salt("s3cret", "!").err(), Some("Error al encriptar contraseña".to_string()));
}

#[test]
fn payload_carries_every_field_and_comes_back() {
    let claims = far_future_claims(7, "editor");
    let payload = payload_of(&claims);
    assert_eq!(payload.sub.as_deref(), Some("a@x.com"));
    assert_eq!(payload.exp, Some(4_000_000_000));
    assert_eq!(payload.iat, Some(1_700_000_000));
    assert_eq!(payload.user_id, Some(7));
    assert_eq!(payload.role.as_deref(), Some("editor"));
    let back = claims_from_raw(payload).unwrap();
    assert_eq!((back.sub, back.exp, back.iat, back.user_id, back.role), (claims.sub, claims.exp, claims.iat, claims.user_id, claims.role));
}

#[test]
fn bearer_is_decoded_only_when_present() {
    assert!(decode_bearer(None, KEY, now()).is_none());
    assert_eq!(decode_bearer(Some("junk"), KEY, now()).map(|r| r.err()), Some(Some(DecodeError::MalformedToken)));
    let token = issue(&far_future_claims(7, "editor"), KEY).unwrap();
    assert_eq!(decode_bearer(Some(&token), KEY, now()).map(|r| r.map(|c| c.user_id).ok()), Some(Some(7)));
}

#[test]
fn token_whose_payload_lacks_a_field_gives_no_assertion() {
    let mut partial = serde_json::Map::new();
    partial.insert("sub".to_string(), serde_json::Value::from("a@x.com"));
    partial.insert("exp".to_string(), serde_json::Value::from(4_000_000_000u64));
    partial.insert("iat".to_string(), serde_json::Value::from(1_700_000_000u64));
    partial.insert("user_id".to_string(), serde_json::Value::from(7));
    let signing_key = jsonwebtoken::EncodingKey::from_secret(KEY.as_bytes());
    let token = jsonwebtoken::encode(&jsonwebtoken::Header::default(), &partial, &signing_key).unwrap();
    assert_eq!(decode(&token, KEY).err(), Some(DecodeError::MalformedToken));
    partial.insert("role".to_string(), serde_json::Value::from("admin"));
    let token = jsonwebtoken::encode(&jsonwebtoken::Header::default(), &partial, &signing_key).unwrap();
    let claims = decode(&token, KEY).unwrap();
    assert_eq!(
        (claims.sub.as_str(), claims.exp, claims.iat, claims.user_id, claims.role.as_str()),
        ("a@x.com", 4_000_000_000, 1_700_000_000, 7, "admin")
    );
}

#[test]
fn failed_lookup_on_login_is_internal() {
    let login = LoginPayload { email: "a@x.com".to_string(), password: "pw1".to_string() };
    assert_eq!(login_handler(AccountLookup::Failed, &login, KEY).err(), Some(ApiError::Internal));
    assert_eq!(ApiError::Internal.status_code(), 500);
    assert_eq!(login_handler(AccountLookup::Missing, &login, KEY).err(), Some(ApiError::Unauthenticated));
}

#[test]
fn expiry_is_checked_against_the_given_instant() {
    let claims = far_future_claims(7, "admin");
    let token = issue(&claims, KEY).unwrap();
    assert_eq!(decode_at(&token, KEY, 4_000_000_000).map(|c| c.user_id), Ok(7));
    assert_eq!(decode_at(&token, KEY, 4_000_000_001).err(), Some(DecodeError::Expired));
    assert_eq!(decode_at(&token, KEY, -5).map(|c| c.user_id), Ok(7));
    assert_eq!(decode_at(&token, "another-key", 0).err(), Some(DecodeError::BadSignature));
    assert_eq!(auth_middleware(Some(&token), KEY, 4_000_000_001).err(), Some(ApiError::Unauthenticated));
    assert_eq!(admin_middleware(Some(&token), KEY, 4_000_000_001).err(), Some(ApiError::Unauthenticated));
    assert_eq!(admin_middleware(Some(&token), KEY, 4_000_000_000).map(|c| c.user_id), Ok(7));
    let refused = register_handler(1, Some(&token), KEY, 4_000_000_001, &payload("bob", "b@x.com", "pw2"));
    assert_eq!(refused.err(), Some(ApiError::Unauthenticated));
    assert_eq!(decode_bearer(Some(&token), KEY, i64::MAX).map(|r| r.err()), Some(Some(DecodeError::Expired)));
}

#[test]
fn unexpired_lets_through_up_to_the_expiry() {
    let zero = Claims { exp: 0, iat: 0, ..far_future_claims(1, "admin") };
    assert_eq!(unexpired(zero.clone(), 0).map(|c| c.exp), Ok(0));
    assert_eq!(unexpired(zero.clone(), -1).map(|c| c.exp), Ok(0));
    assert_eq!(unexpired(zero, 1).err(), Some(DecodeError::Expired));
    let c = far_future_claims(1, "admin");
    assert_eq!(unexpired(c.clone(), 3_999_999_999).map(|c| c.user_id), Ok(1));
    assert_eq!(unexpired(c, i64::MAX).err(), Some(DecodeError::Expired));
}
