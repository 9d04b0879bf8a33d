//! The authenticated principal and the session-expiry rule.
//!
//! Token signing and parsing belong to the external JWT collaborator; this
//! module holds what the core needs of it: the claims that identify the
//! subject, and the decision whether a decoded session is still live at a
//! given time.

use vstd::prelude::*;

verus! {

/// How long a session token stays valid: seven days, in seconds.
pub const SESSION_LIFETIME_SECS: u64 = 604800;

/// Why a bearer token was not accepted.
#[derive(Clone, Copy, Debug, PartialEq, Eq, Structural)]
pub enum AuthError {
    /// The token did not parse or its signature did not verify.
    InvalidToken,
    /// The token parsed but its expiry time has passed.
    ExpiredToken,
    /// No token accompanied the request.
    TokenNotPresent,
}

/// The claims carried by a session token: the stable subject identifier the
/// processors key records by, and the session's expiry bookkeeping.
#[derive(Debug)]
pub struct Claims {
    pub result: bool,
    /// The stable numeric subject identifier; keys the onboarding records.
    pub auth_usernid: i32,
    pub email: String,
    /// The expiry instant, as seconds since the epoch.
    pub expired_token: u64,
    pub is_active: bool,
    /// The expiry instant again, as the JWT `exp` claim.
    pub exp: u64,
}

impl Claims {
    /// Fresh claims for a subject, expiring one session lifetime after
    /// `now`.
    pub fn new(auth_usernid: i32, email: String, is_active: bool, now: u64) -> (c: Claims)
        requires
            now + SESSION_LIFETIME_SECS <= u64::MAX,
        ensures
            c.result,
            c.auth_usernid == auth_usernid,
            c.email@ == email@,
            c.is_active == is_active,
            c.exp == now + SESSION_LIFETIME_SECS,
            c.expired_token == c.exp,
    {
        let exp = now + SESSION_LIFETIME_SECS;
        Claims { result: true, auth_usernid, email, expired_token: exp, is_active, exp }
    }

    /// Whether the session has expired at time `now`.
    pub fn is_expired(&self, now: u64) -> (b: bool)
        ensures
            b == (self.exp < now),
    {
        self.exp < now
    }
}

/// The expiry rule applied to a decoded token: claims still live at `now`
/// pass through; expired claims are rejected, exactly when `exp` lies
/// before `now`.
pub fn evaluate_session(claims: Claims, now: u64) -> (r: Result<Claims, AuthError>)
    ensures
        claims.exp < now ==> r == Err::<Claims, AuthError>(AuthError::ExpiredToken),
        claims.exp >= now ==> (r matches Ok(c) && c == claims),
{
    if claims.exp < now {
        Err(AuthError::ExpiredToken)
    } else {
        Ok(claims)
    }
}

} // verus!
