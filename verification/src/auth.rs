use vstd::prelude::*;

verus! {

/// How old a token may grow before it is rejected: once two full hours have
/// elapsed since issue, the whole hours elapsed exceed one.
pub const MAX_TOKEN_AGE_SECONDS: i64 = 7200;

/// The authenticated user id carried by a validated bearer token. The
/// service shell verifies the token's signature and shape; this type holds
/// the id it vouches for.
#[derive(Debug, Clone, Copy, PartialEq, Eq, Structural)]
pub struct ValidateAuth(pub i32);

/// The claims of an access token: the subject user id and the issue time in
/// epoch seconds.
#[derive(Debug, Clone, Copy, PartialEq, Eq, Structural)]
pub struct AuthToken {
    pub id: i32,
    pub issued_at: i64,
}

impl AuthToken {
    /// Claims for a token issued at `issued_at` for this user. The clock is
    /// the service shell's; the library takes the time as a plain value.
    pub fn new(id: i32, issued_at: i64) -> (r: Self)
        ensures
            r == (AuthToken { id, issued_at }),
    {
        AuthToken { id, issued_at }
    }
}

/// A token is expired exactly when two or more full hours have elapsed since
/// issue. A token carrying an issue time in the future has seen no full hour
/// elapse, so it is not expired.
pub open spec fn spec_token_expired(issued_at: i64, now: i64) -> bool {
    now - issued_at >= MAX_TOKEN_AGE_SECONDS
}

/// The freshness decision on a token's claims at time `now`.
pub fn token_expired(claims: &AuthToken, now: i64) -> (r: bool)
    ensures
        r == spec_token_expired(claims.issued_at, now),
{
    let age: i128 = now as i128 - claims.issued_at as i128;
    age >= MAX_TOKEN_AGE_SECONDS as i128
}

} // verus!
