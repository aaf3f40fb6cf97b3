//! The bearer token and its lifecycle.
//!
//! A token is an immutable value: it is created by a successful login or
//! refresh exchange and superseded wholesale — never mutated — when a
//! refresh succeeds.

use vstd::prelude::*;

use crate::errors::ParseError;
use crate::models::{AuthResponse, RefreshTokenResponse};
use crate::text::{all_digits, digits_val, parse_u32};

verus! {

/// An access credential, a refresh credential, and the absolute instant —
/// seconds since the Unix epoch, in the client's clock domain — at which
/// the access credential expires.
#[derive(Clone, Debug, PartialEq)]
pub struct Token {
    pub access_token: String,
    pub refresh_token: String,
    pub expires_at: i64,
}

/// The largest instant a token construction accepts for `now`, so that
/// adding any `u32` lifetime cannot overflow the expiry instant.
pub open spec fn max_construction_instant() -> int {
    i64::MAX - u32::MAX
}

impl Token {
    /// The token is expired at instant `now`: expiry is at exact equality,
    /// with no grace or skew margin.
    pub open spec fn is_expired_spec(self, now: int) -> bool {
        now >= self.expires_at
    }

    /// True iff the token is expired at instant `now` (seconds since the
    /// epoch).
    pub fn is_expired(&self, now: i64) -> (r: bool)
        ensures
            r == self.is_expired_spec(now as int),
    {
        now >= self.expires_at
    }

    /// Reads the clock and applies `is_expired` to the current instant.
    ///
    /// Nothing is pinned down about the result, since nothing is known of
    /// the clock; a caller that needs an exact answer passes its own
    /// instant to `is_expired`.
    pub fn is_expired_now(&self) -> bool {
        let now = clock_now();
        self.is_expired(now)
    }

    /// Builds the token a login exchange produced, expiring `expires_in`
    /// seconds after `now`.  The login path reports the lifetime as a
    /// string-encoded integer; a string that is not one is a hard failure.
    pub fn from_auth_response(response: &AuthResponse, now: i64) -> (r: Result<Token, ParseError>)
        requires
            0 <= now <= max_construction_instant(),
        ensures
            match r {
                Ok(t) => {
                    &&& response.expires_in@.len() > 0
                    &&& all_digits(response.expires_in@)
                    &&& digits_val(response.expires_in@) <= u32::MAX
                    &&& t.access_token@ == response.access_token@
                    &&& t.refresh_token@ == response.refresh_token@
                    &&& t.expires_at == now + digits_val(response.expires_in@)
                },
                Err(e) => e == ParseError::Number && (response.expires_in@.len() == 0
                    || !all_digits(response.expires_in@) || digits_val(response.expires_in@)
                    > u32::MAX),
            },
    {
        match parse_u32(response.expires_in.as_str()) {
            Ok(lifetime) => Ok(
                Token {
                    access_token: response.access_token.clone(),
                    refresh_token: response.refresh_token.clone(),
                    expires_at: now + lifetime as i64,
                },
            ),
            Err(e) => Err(e),
        }
    }

    /// Builds the token a refresh exchange produced, expiring
    /// `response.expires_in` seconds after `now`.  The refresh path does
    /// not return a refresh credential, so the one that was sent is
    /// carried forward unchanged.
    pub fn from_refresh_response(
        response: &RefreshTokenResponse,
        refresh_credential: &str,
        now: i64,
    ) -> (t: Token)
        requires
            0 <= now <= max_construction_instant(),
        ensures
            t.access_token@ == response.access_token@,
            t.refresh_token@ == refresh_credential@,
            t.expires_at == now + response.expires_in,
    {
        Token {
            access_token: response.access_token.clone(),
            refresh_token: refresh_credential.to_owned(),
            expires_at: now + response.expires_in as i64,
        }
    }
}

/// Expiry boundary: every token is expired at exactly its expiry instant
/// and not one second before.
pub proof fn lemma_expiry_boundary(t: Token)
    ensures
        t.is_expired_spec(t.expires_at as int),
        !t.is_expired_spec(t.expires_at - 1),
{
}

/// Relies on chrono::Utc::now for the current instant, reduced to seconds
/// since the Unix epoch; chrono refuses (by panic) a system clock set
/// before the epoch, so a returned instant is never negative.
#[verifier::external_body]
fn clock_now() -> (r: i64)
    ensures
        r >= 0,
{
    chrono::Utc::now().timestamp()
}

} // verus!
