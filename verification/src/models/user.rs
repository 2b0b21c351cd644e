//! Accounts, the bodies of the account requests, and the identity assertion
//! that a session token carries.

use vstd::prelude::*;

verus! {

/// An account as stored. The credential hash never leaves the backend.
#[derive(Debug, Clone)]
pub struct User {
    pub id: i64,
    pub username: String,
    pub email: String,
    pub password_hash: String,
    pub role: String,
}

/// The body of a login request.
#[derive(Debug, Clone)]
pub struct LoginPayload {
    pub email: String,
    pub password: String,
}

/// The body of an account-creation request. It carries no privilege level:
/// that is never the client's to choose.
#[derive(Debug, Clone)]
pub struct RegisterPayload {
    pub username: String,
    pub email: String,
    pub password: String,
}

/// What a successful login returns.
#[derive(Debug, Clone)]
pub struct AuthResponse {
    pub token: String,
    pub token_type: String,
}

/// The identity assertion inside a session token: who the bearer is, with
/// which privilege, from when and until when (seconds since the Unix epoch).
#[derive(Debug, Clone)]
pub struct Claims {
    pub sub: String,
    pub exp: usize,
    pub iat: usize,
    pub user_id: i64,
    pub role: String,
}

} // verus!
