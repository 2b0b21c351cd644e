//! Account creation under the first-account rule, and login.

use vstd::prelude::*;
use crate::error::{ApiError, Outcome};
use crate::models::user::{AuthResponse, Claims, LoginPayload, RegisterPayload, User};
use crate::policy::{label_of_role, role_label, role_of, role_of_label, Role, ADMIN_ROLE};
use crate::utils::jwt::{
    current_timestamp,
    decode_bearer,
    issue,
    session_claims,
    token_of,
    token_payload,
    DecodeError,
    SESSION_SECONDS,
};
use crate::utils::security::{
    argon2_accepts,
    argon2_digest,
    hash_password,
    phc_well_formed,
    verify_password,
};

verus! {

/// The fixed label of the token type that login returns.
pub const TOKEN_TYPE: &'static str = "Bearer";

/// The text sent with a successful account creation.
pub const MSG_USER_CREATED: &'static str = "Usuario creado exitosamente";

/// The text sent when account creation needs an elevated assertion.
pub const MSG_ADMIN_ONLY: &'static str = "Solo un admin puede crear usuarios";

/// The text sent when the secret could not be hashed.
pub const MSG_SECURITY: &'static str = "Error de seguridad";

/// The text sent when the handle or the address is taken.
pub const MSG_USER_EXISTS: &'static str = "El usuario o email ya existe";

/// The text sent when login fails, for whatever reason.
pub const MSG_BAD_CREDENTIALS: &'static str = "Credenciales inválidas";

/// The text sent when no token could be made.
pub const MSG_TOKEN_FAILURE: &'static str = "Error generando token";

/// What an account-creation request presents, once its token is decoded.
#[derive(Clone, Copy, Debug, PartialEq, Eq, Structural)]
pub enum Credential {
    /// No token.
    Absent,
    /// A token that did not decode.
    Invalid,
    /// A valid assertion of this privilege level.
    Valid(Role),
}

/// The account row that a granted creation request asks the store to insert.
#[derive(Debug, Clone)]
pub struct NewUser {
    pub username: String,
    pub email: String,
    pub password_hash: String,
    pub role: String,
}

/// The first-account rule. With no account yet, the request is granted
/// without any check and the account is elevated. With any account, only
/// a valid elevated assertion is granted, and the account is standard: no
/// token or a standard assertion is `Forbidden`, an undecodable token is
/// `Unauthenticated`.
pub open spec fn gate(count: nat, credential: Credential) -> Result<Role, ApiError> {
    if count == 0 {
        Ok(Role::Elevated)
    } else {
        match credential {
            Credential::Absent => Err(ApiError::Forbidden),
            Credential::Invalid => Err(ApiError::Unauthenticated),
            Credential::Valid(Role::Standard) => Err(ApiError::Forbidden),
            Credential::Valid(Role::Elevated) => Ok(Role::Standard),
        }
    }
}

/// What a decoded bearer token amounts to as a credential.
pub open spec fn credential_of(decoded: Option<Result<Claims, DecodeError>>) -> Credential {
    match decoded {
        None => Credential::Absent,
        Some(Err(_)) => Credential::Invalid,
        Some(Ok(claims)) => Credential::Valid(role_of_label(claims.role@)),
    }
}

/// What a decoded bearer token amounts to as a credential.
pub fn credential(decoded: &Option<Result<Claims, DecodeError>>) -> (r: Credential)
    ensures
        r == credential_of(*decoded),
{
    match decoded {
        None => Credential::Absent,
        Some(Err(_)) => Credential::Invalid,
        Some(Ok(claims)) => Credential::Valid(role_of(claims.role.as_str())),
    }
}

/// The privilege level of the account that a creation request may create,
/// or why it may create none.
pub fn registration_role(user_count: u64, credential: Credential) -> (r: Result<Role, ApiError>)
    ensures
        r == gate(user_count as nat, credential),
{
    if user_count == 0 {
        Ok(Role::Elevated)
    } else {
        match credential {
            Credential::Absent => Err(ApiError::Forbidden),
            Credential::Invalid => Err(ApiError::Unauthenticated),
            Credential::Valid(Role::Standard) => Err(ApiError::Forbidden),
            Credential::Valid(Role::Elevated) => Ok(Role::Standard),
        }
    }
}

/// The row to insert for a granted request: the privilege level is the one
/// granted, never one the client sent. Without a digest there is no row:
/// the secret is never stored in its place.
pub fn new_user(payload: &RegisterPayload, role: Role, digest: Result<String, String>) -> (r:
    Result<NewUser, ApiError>)
    ensures
        match r {
            Ok(user) => {
                &&& digest == Ok::<String, String>(user.password_hash)
                &&& user.username == payload.username
                &&& user.email == payload.email
                &&& user.role@ == label_of_role(role)
            },
            Err(e) => digest is Err && e == ApiError::Internal,
        },
{
    match digest {
        Ok(password_hash) => Ok(
            NewUser {
                username: payload.username.clone(),
                email: payload.email.clone(),
                password_hash,
                role: String::from_str(role_label(role)),
            },
        ),
        Err(_) => Err(ApiError::Internal),
    }
}

/// Decides an account-creation request at the instant `now` against the
/// number of accounts that exist, and prepares the row. With no account
/// yet the token is not even looked at. With any account, a row comes back
/// only for a bearer token that carries the elevated role and has not
/// expired; without a token the request is `Forbidden`. A row that comes
/// back carries the digest of the secret under some salt, and is elevated
/// exactly when it is the first.
pub fn register_handler(
    user_count: u64,
    bearer: Option<&str>,
    key: &str,
    now: i64,
    payload: &RegisterPayload,
) -> (r: Result<NewUser, ApiError>)
    ensures
        user_count > 0 && bearer is None ==> (r matches Err(e) && e == ApiError::Forbidden),
        user_count == 0 ==> (r matches Err(e) ==> e == ApiError::Internal),
        user_count > 0 && r is Ok ==> {
            &&& bearer is Some
            &&& token_payload((bearer->0)@, key@).4 == Some(ADMIN_ROLE@)
            &&& token_payload((bearer->0)@, key@).1 is Some
            &&& now <= token_payload((bearer->0)@, key@).1->0
        },
        r matches Ok(user) ==> {
            &&& user.username == payload.username
            &&& user.email == payload.email
            &&& user.role@ == label_of_role(
                if user_count == 0 {
                    Role::Elevated
                } else {
                    Role::Standard
                },
            )
            &&& exists|salt: Seq<char>| #[trigger]
                argon2_digest(payload.password@, salt) == Some(user.password_hash@)
        },
        r matches Err(e) ==> e == ApiError::Forbidden || e == ApiError::Unauthenticated || e
            == ApiError::Internal,
{
    let presented = if user_count == 0 {
        Credential::Absent
    } else {
        let decoded = decode_bearer(bearer, key, now);
        credential(&decoded)
    };
    match registration_role(user_count, presented) {
        Err(e) => Err(e),
        Ok(role) => new_user(payload, role, hash_password(payload.password.as_str())),
    }
}

/// How the store answered the insert of a new account.
#[derive(Clone, Copy, Debug, PartialEq, Eq, Structural)]
pub enum InsertResult {
    /// The row was written.
    Inserted,
    /// The handle or the address is taken.
    Duplicate,
    /// The store failed for a reason of its own.
    Failed,
}

/// What the store's answer to the insert means: `Created`; `Conflict`
/// where the handle or the address was taken; `Internal` for any other
/// failure of the store.
pub fn register_outcome(result: InsertResult) -> (r: Outcome)
    ensures
        r == match result {
            InsertResult::Inserted => Outcome::Created,
            InsertResult::Duplicate => Outcome::Failed(ApiError::Conflict),
            InsertResult::Failed => Outcome::Failed(ApiError::Internal),
        },
{
    match result {
        InsertResult::Inserted => Outcome::Created,
        InsertResult::Duplicate => Outcome::Failed(ApiError::Conflict),
        InsertResult::Failed => Outcome::Failed(ApiError::Internal),
    }
}

/// The short text that goes with the outcome of an account creation.
pub fn register_message(outcome: Outcome) -> (r: &'static str)
    ensures
        r@ == match outcome {
            Outcome::Created => MSG_USER_CREATED@,
            Outcome::Failed(ApiError::Forbidden) => MSG_ADMIN_ONLY@,
            Outcome::Failed(ApiError::Internal) => MSG_SECURITY@,
            Outcome::Failed(ApiError::Conflict) => MSG_USER_EXISTS@,
            _ => ""@,
        },
{
    match outcome {
        Outcome::Created => MSG_USER_CREATED,
        Outcome::Failed(ApiError::Forbidden) => MSG_ADMIN_ONLY,
        Outcome::Failed(ApiError::Internal) => MSG_SECURITY,
        Outcome::Failed(ApiError::Conflict) => MSG_USER_EXISTS,
        _ => "",
    }
}

/// The assertion of a session of `user` that starts at `now`.
pub open spec fn claims_at(user: &User, now: i64) -> Claims {
    Claims {
        sub: user.email,
        exp: (now + SESSION_SECONDS) as usize,
        iat: now as usize,
        user_id: user.id,
        role: user.role,
    }
}

/// Whether a session can start at `now`: not before the epoch, and early
/// enough for its expiry to be held.
pub open spec fn session_possible(now: i64) -> bool {
    0 <= now && now + SESSION_SECONDS <= usize::MAX
}

/// Opens a session for an account whose secret was accepted, at the
/// instant `now`: the response carries the signed assertion of that
/// session and the fixed token type. Where no session can start then, or
/// signing fails, the failure is `Internal`.
pub fn login_at(user: &User, now: i64, key: &str) -> (r: Result<AuthResponse, ApiError>)
    ensures
        match r {
            Ok(response) => {
                &&& session_possible(now)
                &&& token_of(&claims_at(user, now), key@) == Some(response.token@)
                &&& response.token_type@ == TOKEN_TYPE@
            },
            Err(e) => e == ApiError::Internal && (!session_possible(now) || token_of(
                &claims_at(user, now),
                key@,
            ) is None),
        },
{
    match session_claims(user, now) {
        None => Err(ApiError::Internal),
        Some(claims) => {
            assert(claims == claims_at(user, now));
            match issue(&claims, key) {
                Ok(token) => Ok(AuthResponse { token, token_type: String::from_str(TOKEN_TYPE) }),
                Err(e) => Err(e),
            }
        },
    }
}

/// Whether the secret of a login request is the one of the account found
/// under its address. No account accepts nothing.
pub open spec fn login_accepted(user: Option<&User>, payload: &LoginPayload) -> bool {
    match user {
        Some(account) => phc_well_formed(account.password_hash@) && argon2_accepts(
            payload.password@,
            account.password_hash@,
        ),
        None => false,
    }
}

/// What the store said when asked for the account under an address.
#[derive(Clone, Copy, Debug)]
pub enum AccountLookup<'a> {
    /// The lookup itself failed.
    Failed,
    /// There is no account under the address.
    Missing,
    /// The account under the address.
    Found(&'a User),
}

/// The account that a lookup found, if it found one.
pub open spec fn found_account<'a>(lookup: AccountLookup<'a>) -> Option<&'a User> {
    match lookup {
        AccountLookup::Found(account) => Some(account),
        _ => None,
    }
}

/// Decides a login request, given what the store said when asked for the
/// account under its address. A failed lookup is `Internal` and is not
/// taken for an unknown account. An unknown account and a wrong secret
/// are the same `Unauthenticated`; an accepted secret opens a session from
/// the current time, and fails only as `Internal`.
pub fn login_handler<'a>(lookup: AccountLookup<'a>, payload: &LoginPayload, key: &str) -> (r:
    Result<AuthResponse, ApiError>)
    ensures
        lookup is Failed ==> (r matches Err(e) && e == ApiError::Internal),
        !(lookup is Failed) && !login_accepted(found_account(lookup), payload) ==> (r matches Err(e)
            && e == ApiError::Unauthenticated),
        login_accepted(found_account(lookup), payload) ==> match r {
            Ok(response) => response.token_type@ == TOKEN_TYPE@ && exists|now: i64|
                session_possible(now) && #[trigger] token_of(
                    &claims_at(found_account(lookup)->0, now),
                    key@,
                ) == Some(response.token@),
            Err(e) => e == ApiError::Internal,
        },
{
    match lookup {
        AccountLookup::Failed => Err(ApiError::Internal),
        AccountLookup::Missing => Err(ApiError::Unauthenticated),
        AccountLookup::Found(account) => {
            if !verify_password(payload.password.as_str(), account.password_hash.as_str()) {
                return Err(ApiError::Unauthenticated);
            }
            login_at(account, current_timestamp(), key)
        },
    }
}

/// The short text that goes with a failed login.
pub fn login_message(error: ApiError) -> (r: &'static str)
    ensures
        r@ == match error {
            ApiError::Unauthenticated => MSG_BAD_CREDENTIALS@,
            ApiError::Internal => MSG_TOKEN_FAILURE@,
            _ => ""@,
        },
{
    match error {
        ApiError::Unauthenticated => MSG_BAD_CREDENTIALS,
        ApiError::Internal => MSG_TOKEN_FAILURE,
        _ => "",
    }
}

/// An account as the first-account rule sees it.
pub struct Account {
    pub handle: Seq<char>,
    pub email: Seq<char>,
    pub role: Role,
}

/// One account-creation request that reached the store: what it presented
/// and the handle and address it asked for.
pub struct Attempt {
    pub credential: Credential,
    pub handle: Seq<char>,
    pub email: Seq<char>,
}

/// Whether the handle or the address is already some account's.
pub open spec fn taken(accounts: Seq<Account>, handle: Seq<char>, email: Seq<char>) -> bool {
    exists|i: int|
        0 <= i < accounts.len() && (#[trigger] accounts[i].handle == handle || accounts[i].email
            == email)
}

/// What one request does to the accounts: refused by the rule, nothing;
/// granted but with a handle or address that is taken, nothing, and
/// `Conflict`; else one more account, with the privilege the rule grants.
pub open spec fn register(accounts: Seq<Account>, attempt: Attempt) -> (Seq<Account>, Outcome) {
    match gate(accounts.len(), attempt.credential) {
        Err(e) => (accounts, Outcome::Failed(e)),
        Ok(role) => if taken(accounts, attempt.handle, attempt.email) {
            (accounts, Outcome::Failed(ApiError::Conflict))
        } else {
            (
                accounts.push(Account { handle: attempt.handle, email: attempt.email, role }),
                Outcome::Created,
            )
        },
    }
}

/// The accounts that exist after a sequence of requests, starting from none.
pub open spec fn replay(attempts: Seq<Attempt>) -> Seq<Account>
    decreases attempts.len(),
{
    if attempts.len() == 0 {
        Seq::empty()
    } else {
        register(replay(attempts.drop_last()), attempts.last()).0
    }
}

/// The rule grants a request without a valid elevated assertion only when
/// no account exists, and then the account is elevated; every account
/// granted otherwise is standard.
pub proof fn lemma_gate_bootstrap(count: nat, credential: Credential)
    ensures
        count == 0 ==> gate(count, credential) == Ok::<Role, ApiError>(Role::Elevated),
        credential != Credential::Valid(Role::Elevated) && gate(count, credential) is Ok ==> count
            == 0,
        count > 0 && gate(count, credential) is Ok ==> gate(count, credential) == Ok::<
            Role,
            ApiError,
        >(Role::Standard),
{
}

/// For every sequence of requests that reach the store: the first one
/// creates an account, whatever it presents, and that account is
/// elevated; no later account is; and a later request without a valid
/// elevated assertion creates nothing. So the unchecked path is taken
/// exactly once, when no account exists.
pub proof fn lemma_bootstrap_once(attempts: Seq<Attempt>)
    ensures
        attempts.len() > 0 ==> replay(attempts).len() >= 1 && replay(attempts)[0] == (Account {
            handle: attempts[0].handle,
            email: attempts[0].email,
            role: Role::Elevated,
        }),
        replay(attempts).len() <= attempts.len(),
        forall|i: int| 1 <= i < replay(attempts).len() ==> (#[trigger] replay(attempts)[i]).role
            == Role::Standard,
        forall|k: int|
            1 <= k < attempts.len() && (#[trigger] attempts[k]).credential != Credential::Valid(
                Role::Elevated,
            ) ==> replay(attempts.take(k + 1)) == replay(attempts.take(k)),
    decreases attempts.len(),
{
    if attempts.len() > 0 {
        let earlier = attempts.drop_last();
        lemma_bootstrap_once(earlier);
        let before = replay(earlier);
        if earlier.len() == 0 {
            assert(!taken(before, attempts.last().handle, attempts.last().email));
        } else {
            assert(earlier[0] == attempts[0]);
        }
        assert forall|k: int|
            1 <= k < attempts.len() && (#[trigger] attempts[k]).credential != Credential::Valid(
                Role::Elevated,
            ) implies replay(attempts.take(k + 1)) == replay(attempts.take(k)) by {
            if k < earlier.len() {
                assert(earlier[k] == attempts[k]);
                assert(attempts.take(k + 1) == earlier.take(k + 1));
                assert(attempts.take(k) == earlier.take(k));
            } else {
                assert(attempts.take(k + 1) == attempts);
                assert(attempts.take(k) == earlier);
                assert(before.len() >= 1);
            }
        }
    }
}

} // verus!
