use vstd::prelude::*;
use crate::clock::{now_seconds, MAX_TIMESTAMP_SECONDS};

verus! {

/// Lifetime of an issued token: 30 days, in seconds.
pub const TOKEN_LIFETIME_SECONDS: i64 = 2_592_000;

/// The claims of an authentication token.
pub struct Claims {
    /// User id.
    pub sub: String,
    /// Expiry, in seconds since the Unix epoch.
    pub exp: i64,
    /// Issue time, in seconds since the Unix epoch.
    pub iat: i64,
}

impl Claims {
    /// Claims for `user_id` issued at `now`, expiring 30 days later.
    pub fn issued_at(user_id: String, now: i64) -> (r: Self)
        requires
            now <= i64::MAX - TOKEN_LIFETIME_SECONDS,
        ensures
            r.sub == user_id,
            r.iat == now,
            r.exp == now + TOKEN_LIFETIME_SECONDS,
    {
        Claims { sub: user_id, exp: now + TOKEN_LIFETIME_SECONDS, iat: now }
    }

    /// Claims for `user_id` issued now, expiring 30 days later.
    pub fn new(user_id: String) -> (r: Self)
        ensures
            r.sub == user_id,
            0 <= r.iat <= MAX_TIMESTAMP_SECONDS,
            r.exp == r.iat + TOKEN_LIFETIME_SECONDS,
    {
        let now = now_seconds();
        Claims::issued_at(user_id, now)
    }
}

/// Registration request body.
pub struct RegisterRequest {
    pub name: String,
    pub email: String,
    pub password: String,
}

/// Login request body.
pub struct LoginRequest {
    pub email: String,
    pub password: String,
}

/// A user as shown to clients.
pub struct UserResponse {
    pub id: String,
    pub name: String,
    pub email: String,
}

/// Reply to a successful registration or login.
pub struct AuthResponse {
    pub user: UserResponse,
    pub message: String,
}

} // verus!
