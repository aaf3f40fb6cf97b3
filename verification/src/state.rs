//! The UI session's state: who is signed in, and the single-slot caches.
//!
//! The state is owned by the session and replaced wholesale by `reduce`;
//! each cache slot is a "have I fetched once this session" memo,
//! invalidated only by a fresh login.  Persisting the entries that
//! `storage_entries` lays out, and reading them back at startup, is the
//! key/value store's concern and stays with the caller.

use vstd::prelude::*;

use crate::models::{Event, RunResult};
use crate::text::{all_digits, dec_digits, dec_str, digits_val, parse_u64};
use crate::token::Token;

verus! {

/// The signed-in account: its identifier and the token held for it.
#[derive(Clone, Debug)]
pub struct AuthData {
    pub athlete_id: String,
    pub token: Token,
}

/// The single-slot caches of the fetched listings.
#[derive(Clone, Debug)]
pub struct Cache {
    pub results_cache: Option<Vec<RunResult>>,
    pub events_cache: Option<Vec<Event>>,
}

impl Default for Cache {
    /// Both slots empty.
    fn default() -> (c: Self)
        ensures
            c.results_cache is None,
            c.events_cache is None,
    {
        Cache { results_cache: None, events_cache: None }
    }
}

/// The whole session state.
#[derive(Clone, Debug)]
pub struct AuthState {
    pub data: Option<AuthData>,
    pub cache: Cache,
}

/// What can happen to the session state.
pub enum AuthAction {
    /// A fresh sign-in: the caller also persists the new token data.
    Login(AuthData),
    /// A refresh replaced the token; the account stays the same.
    Refresh(Token),
    /// The results listing was fetched once; keep it.
    CacheResults(Vec<RunResult>),
    /// The events listing was fetched once; keep it.
    CacheEvents(Vec<Event>),
}

impl AuthState {
    /// The next state after `action`.
    ///
    /// A login replaces the account and empties both caches; a refresh
    /// replaces only the token; caching a listing fills only its own slot.
    pub fn reduce(self, action: AuthAction) -> (r: AuthState)
        requires
            action is Refresh ==> self.data is Some,
        ensures
            match action {
                AuthAction::Login(auth_data) => {
                    &&& r.data == Some(auth_data)
                    &&& r.cache.results_cache is None
                    &&& r.cache.events_cache is None
                },
                AuthAction::Refresh(token) => {
                    &&& r.data is Some
                    &&& r.data->0.token == token
                    &&& r.data->0.athlete_id == self.data->0.athlete_id
                    &&& r.cache == self.cache
                },
                AuthAction::CacheResults(results) => {
                    &&& r.data == self.data
                    &&& r.cache.results_cache == Some(results)
                    &&& r.cache.events_cache == self.cache.events_cache
                },
                AuthAction::CacheEvents(events) => {
                    &&& r.data == self.data
                    &&& r.cache.results_cache == self.cache.results_cache
                    &&& r.cache.events_cache == Some(events)
                },
            },
    {
        match action {
            AuthAction::Login(auth_data) => AuthState {
                data: Some(auth_data),
                cache: Cache::default(),
            },
            AuthAction::Refresh(token) => match self.data {
                Some(account) => AuthState {
                    data: Some(AuthData { athlete_id: account.athlete_id, token }),
                    cache: self.cache,
                },
                None => {
                    proof {
                        assert(false);
                    }
                    AuthState { data: None, cache: self.cache }
                },
            },
            AuthAction::CacheResults(results) => AuthState {
                data: self.data,
                cache: Cache {
                    results_cache: Some(results),
                    events_cache: self.cache.events_cache,
                },
            },
            AuthAction::CacheEvents(events) => AuthState {
                data: self.data,
                cache: Cache {
                    results_cache: self.cache.results_cache,
                    events_cache: Some(events),
                },
            },
        }
    }
}

/// The fixed entries a session writes to the key/value store on a
/// successful login or refresh: the two credentials, the expiry instant
/// as a decimal numeral, and the account identifier.
pub open spec fn storage_entries_of(
    athlete_id: Seq<char>,
    access: Seq<char>,
    refresh: Seq<char>,
    expires_at: int,
) -> Seq<(Seq<char>, Seq<char>)> {
    seq![
        ("access_token"@, access),
        ("refresh_token"@, refresh),
        ("token_expires_at"@, dec_digits(expires_at as nat)),
        ("athlete_id"@, athlete_id),
    ]
}

/// Lays out what to persist for `data`, as `storage_entries_of` describes.
pub fn storage_entries(data: &AuthData) -> (r: Vec<(String, String)>)
    requires
        data.token.expires_at >= 0,
    ensures
        r.deep_view() == storage_entries_of(
            data.athlete_id@,
            data.token.access_token@,
            data.token.refresh_token@,
            data.token.expires_at as int,
        ),
{
    let mut r: Vec<(String, String)> = Vec::new();
    r.push((String::from_str("access_token"), data.token.access_token.clone()));
    r.push((String::from_str("refresh_token"), data.token.refresh_token.clone()));
    r.push((String::from_str("token_expires_at"), dec_str(data.token.expires_at as u64)));
    r.push((String::from_str("athlete_id"), data.athlete_id.clone()));
    proof {
        assert(r.deep_view() =~= storage_entries_of(
            data.athlete_id@,
            data.token.access_token@,
            data.token.refresh_token@,
            data.token.expires_at as int,
        ));
    }
    r
}

/// Round trip through the store: the expiry numeral that
/// `storage_entries_of` lays out is a valid stored instant and reads back
/// as the same instant, so a persisted session resumes with its own
/// token.
pub proof fn lemma_storage_expiry_round_trip(expires_at: int)
    requires
        0 <= expires_at <= i64::MAX,
    ensures
        valid_expiry_str(dec_digits(expires_at as nat)),
        digits_val(dec_digits(expires_at as nat)) == expires_at,
{
    crate::text::lemma_dec_digits_round_trip(expires_at as nat);
}

/// A stored expiry instant: a decimal numeral no greater than the largest
/// instant a token can carry.
pub open spec fn valid_expiry_str(s: Seq<char>) -> bool {
    s.len() > 0 && all_digits(s) && digits_val(s) <= i64::MAX
}

/// Rebuilds the session's account from the stored entries, if all four
/// are present and the stored expiry instant is a valid numeral; used at
/// session startup to resume without re-authenticating.
pub fn auth_data_from_entries(
    access: Option<String>,
    refresh: Option<String>,
    expires_at: Option<String>,
    athlete_id: Option<String>,
) -> (r: Option<AuthData>)
    ensures
        match r {
            Some(d) => {
                &&& access matches Some(a) && d.token.access_token@ == a@
                &&& refresh matches Some(t) && d.token.refresh_token@ == t@
                &&& athlete_id matches Some(i) && d.athlete_id@ == i@
                &&& expires_at matches Some(e) && valid_expiry_str(e@) && d.token.expires_at
                    == digits_val(e@)
            },
            None => access is None || refresh is None || athlete_id is None || (match expires_at {
                Some(e) => !valid_expiry_str(e@),
                None => true,
            }),
        },
{
    let access = match access {
        Some(a) => a,
        None => {
            return None;
        },
    };
    let refresh = match refresh {
        Some(t) => t,
        None => {
            return None;
        },
    };
    let athlete_id = match athlete_id {
        Some(i) => i,
        None => {
            return None;
        },
    };
    let expires_str = match expires_at {
        Some(e) => e,
        None => {
            return None;
        },
    };
    let expires = match parse_u64(expires_str.as_str()) {
        Ok(n) => {
            if n <= i64::MAX as u64 {
                n as i64
            } else {
                return None;
            }
        },
        Err(_) => {
            return None;
        },
    };
    Some(
        AuthData {
            athlete_id,
            token: Token { access_token: access, refresh_token: refresh, expires_at: expires },
        },
    )
}

} // verus!
