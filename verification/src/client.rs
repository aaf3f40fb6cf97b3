//! Building outgoing requests and managing the token across calls.
//!
//! The library does not own a network transport.  An outgoing request is
//! described exactly by a `RequestSpec` of plain values; whatever sends it
//! resolves the path against the service's base address, attaches the
//! fixed application credential where `client_auth` asks for it, and hands
//! the response body back as plain values.

use vstd::prelude::*;

use crate::models::RefreshTokenResponse;
use crate::token::{max_construction_instant, Token};

verus! {

/// The request methods the client uses.
#[derive(Clone, Copy, Debug, PartialEq, Eq, Structural)]
pub enum HttpMethod {
    Get,
    Post,
}

/// A complete description of one outgoing request, as plain values.
#[derive(Clone, Debug)]
pub struct RequestSpec {
    pub method: HttpMethod,
    /// Path, or a link target from a page envelope, to be resolved as a
    /// URL relative to the service's base address.
    pub path: String,
    pub query: Vec<(String, String)>,
    pub headers: Vec<(String, String)>,
    /// Form fields of the body; empty for requests without a body.
    pub form: Vec<(String, String)>,
    /// Whether the fixed application credential — a basic-auth pair shared
    /// by every user, injected by the transport, never held here — must be
    /// attached.
    pub client_auth: bool,
}

/// The mathematical value of a `RequestSpec`.
#[verifier::ext_equal]
pub ghost struct RequestSpecView {
    pub method: HttpMethod,
    pub path: Seq<char>,
    pub query: Seq<(Seq<char>, Seq<char>)>,
    pub headers: Seq<(Seq<char>, Seq<char>)>,
    pub form: Seq<(Seq<char>, Seq<char>)>,
    pub client_auth: bool,
}

impl View for RequestSpec {
    type V = RequestSpecView;

    open spec fn view(&self) -> RequestSpecView {
        RequestSpecView {
            method: self.method,
            path: self.path@,
            query: self.query.deep_view(),
            headers: self.headers.deep_view(),
            form: self.form.deep_view(),
            client_auth: self.client_auth,
        }
    }
}

/// The fixed header identifying the client software, carried by every
/// outgoing request, authenticated or not.
pub open spec fn client_header() -> (Seq<char>, Seq<char>) {
    ("X-Powered-By"@, "Park Rust"@)
}

/// The content-type header of the form-encoded exchanges.
pub open spec fn form_content_type() -> (Seq<char>, Seq<char>) {
    ("Content-Type"@, "application/x-www-form-urlencoded"@)
}

/// `athlete_id` with a single leading letter prefix stripped: the
/// service's public-facing IDs are prefixed with `A` (in either case),
/// but the API expects the bare numeric form.
pub open spec fn normalized_athlete_id(athlete_id: Seq<char>) -> Seq<char> {
    if athlete_id.len() > 0 && (athlete_id[0] == 'A' || athlete_id[0] == 'a') {
        athlete_id.drop_first()
    } else {
        athlete_id
    }
}

/// Strips a single leading `A` or `a` from `athlete_id`, if present.
pub fn normalize_athlete_id(athlete_id: &str) -> (r: String)
    ensures
        r@ == normalized_athlete_id(athlete_id@),
{
    let len = athlete_id.unicode_len();
    if len > 0 {
        let first = athlete_id.get_char(0);
        if first == 'A' || first == 'a' {
            let bare = athlete_id.substring_char(1, len);
            proof {
                assert(athlete_id@.subrange(1, len as int) =~= athlete_id@.drop_first());
            }
            return bare.to_owned();
        }
    }
    athlete_id.to_owned()
}

/// The form fields of the password-grant login exchange.
pub open spec fn login_form(athlete_id: Seq<char>, password: Seq<char>) -> Seq<
    (Seq<char>, Seq<char>),
> {
    seq![
        ("username"@, normalized_athlete_id(athlete_id)),
        ("password"@, password),
        ("scope"@, "app"@),
        ("grant_type"@, "password"@),
    ]
}

/// The form fields of the refresh-grant exchange.
pub open spec fn refresh_form(refresh_credential: Seq<char>) -> Seq<(Seq<char>, Seq<char>)> {
    seq![("refresh_token"@, refresh_credential), ("grant_type"@, "refresh_token"@)]
}

/// Prefix stripping behind the login exchange is insensitive to the case
/// of the leading letter and leaves an already-bare ID alone: for any ID
/// that does not itself begin with the letter, the prefixed and the bare
/// form produce the same outgoing username, and the same whole login form.
pub proof fn lemma_login_prefix_insensitive(bare: Seq<char>, password: Seq<char>)
    requires
        bare.len() == 0 || (bare[0] != 'A' && bare[0] != 'a'),
    ensures
        normalized_athlete_id(seq!['A'] + bare) == bare,
        normalized_athlete_id(seq!['a'] + bare) == bare,
        normalized_athlete_id(bare) == bare,
        login_form(seq!['A'] + bare, password) == login_form(bare, password),
        login_form(seq!['a'] + bare, password) == login_form(bare, password),
{
    assert((seq!['A'] + bare).drop_first() =~= bare);
    assert((seq!['a'] + bare).drop_first() =~= bare);
    assert(login_form(seq!['A'] + bare, password) =~= login_form(bare, password));
    assert(login_form(seq!['a'] + bare, password) =~= login_form(bare, password));
}

fn client_header_pair() -> (r: (String, String))
    ensures
        (r.0@, r.1@) == client_header(),
{
    (String::from_str("X-Powered-By"), String::from_str("Park Rust"))
}

/// The password-grant login exchange: a form-encoded POST to the fixed
/// login endpoint, carrying the application credential, the client
/// header, and the normalized username.
pub fn login_request(athlete_id: &str, password: &str) -> (r: RequestSpec)
    ensures
        r@.method == HttpMethod::Post,
        r@.path == "/user_auth.php"@,
        r@.query == Seq::<(Seq<char>, Seq<char>)>::empty(),
        r@.headers == seq![client_header(), form_content_type()],
        r@.form == login_form(athlete_id@, password@),
        r@.client_auth,
{
    let mut headers: Vec<(String, String)> = Vec::new();
    headers.push(client_header_pair());
    headers.push(
        (String::from_str("Content-Type"), String::from_str("application/x-www-form-urlencoded")),
    );
    let mut form: Vec<(String, String)> = Vec::new();
    form.push((String::from_str("username"), normalize_athlete_id(athlete_id)));
    form.push((String::from_str("password"), password.to_owned()));
    form.push((String::from_str("scope"), String::from_str("app")));
    form.push((String::from_str("grant_type"), String::from_str("password")));
    let r = RequestSpec {
        method: HttpMethod::Post,
        path: String::from_str("/user_auth.php"),
        query: Vec::new(),
        headers,
        form,
        client_auth: true,
    };
    proof {
        assert(r@.query =~= Seq::<(Seq<char>, Seq<char>)>::empty());
        assert(r@.headers =~= seq![client_header(), form_content_type()]);
        assert(r@.form =~= login_form(athlete_id@, password@));
    }
    r
}

/// The refresh-grant exchange: a form-encoded POST to the fixed refresh
/// endpoint, carrying the application credential and the client header.
pub fn refresh_request(refresh_credential: &str) -> (r: RequestSpec)
    ensures
        r@.method == HttpMethod::Post,
        r@.path == "/auth/refresh"@,
        r@.query == Seq::<(Seq<char>, Seq<char>)>::empty(),
        r@.headers == seq![client_header(), form_content_type()],
        r@.form == refresh_form(refresh_credential@),
        r@.client_auth,
{
    let mut headers: Vec<(String, String)> = Vec::new();
    headers.push(client_header_pair());
    headers.push(
        (String::from_str("Content-Type"), String::from_str("application/x-www-form-urlencoded")),
    );
    let mut form: Vec<(String, String)> = Vec::new();
    form.push((String::from_str("refresh_token"), refresh_credential.to_owned()));
    form.push((String::from_str("grant_type"), String::from_str("refresh_token")));
    let r = RequestSpec {
        method: HttpMethod::Post,
        path: String::from_str("/auth/refresh"),
        query: Vec::new(),
        headers,
        form,
        client_auth: true,
    };
    proof {
        assert(r@.query =~= Seq::<(Seq<char>, Seq<char>)>::empty());
        assert(r@.headers =~= seq![client_header(), form_content_type()]);
        assert(r@.form =~= refresh_form(refresh_credential@));
    }
    r
}

/// What `send_with_refresh` does before dispatching a request.
#[derive(Clone, Copy, Debug, PartialEq, Eq, Structural)]
pub enum SendPlan {
    /// Perform one refresh exchange, replace the held token, then send.
    RefreshFirst,
    /// Send directly.
    Direct,
}

/// The refresh exchanges a plan performs.
pub open spec fn refresh_calls(p: SendPlan) -> nat {
    match p {
        SendPlan::RefreshFirst => 1,
        SendPlan::Direct => 0,
    }
}

/// The plan for a token at instant `now`: refresh first exactly when the
/// token is expired.
pub open spec fn send_plan(token: Token, now: int) -> SendPlan {
    if token.is_expired_spec(now) {
        SendPlan::RefreshFirst
    } else {
        SendPlan::Direct
    }
}

/// An expired token triggers exactly one refresh exchange before the
/// request is dispatched; a valid token triggers none.
pub proof fn lemma_refresh_count(token: Token, now: int)
    ensures
        token.is_expired_spec(now) ==> refresh_calls(send_plan(token, now)) == 1,
        !token.is_expired_spec(now) ==> refresh_calls(send_plan(token, now)) == 0,
{
}

/// The client of the authenticated API: the held token, plus the request
/// shapes built around it.  The network transport that carries the
/// requests lives with the caller.
#[derive(Clone, Debug)]
pub struct AuthenticatedParkrunClient {
    pub token: Token,
}

impl AuthenticatedParkrunClient {
    pub fn new(token: Token) -> (c: Self)
        ensures
            c.token == token,
    {
        AuthenticatedParkrunClient { token }
    }

    /// An authenticated request: the access credential rides along as the
    /// `access_token` query parameter, and the client header is attached.
    pub fn request(&self, method: HttpMethod, path: &str) -> (r: RequestSpec)
        ensures
            r@.method == method,
            r@.path == path@,
            r@.query == seq![("access_token"@, self.token.access_token@)],
            r@.headers == seq![client_header()],
            r@.form == Seq::<(Seq<char>, Seq<char>)>::empty(),
            !r@.client_auth,
    {
        let mut headers: Vec<(String, String)> = Vec::new();
        headers.push(client_header_pair());
        let mut query: Vec<(String, String)> = Vec::new();
        query.push((String::from_str("access_token"), self.token.access_token.clone()));
        let r = RequestSpec {
            method,
            path: path.to_owned(),
            query,
            headers,
            form: Vec::new(),
            client_auth: false,
        };
        proof {
            assert(r@.query =~= seq![("access_token"@, self.token.access_token@)]);
            assert(r@.headers =~= seq![client_header()]);
            assert(r@.form =~= Seq::<(Seq<char>, Seq<char>)>::empty());
        }
        r
    }

    /// Decides `send_with_refresh`'s first step at instant `now`.  Only
    /// one refresh is ever attempted per call; a refresh failure aborts
    /// the call rather than falling back to an unauthenticated request.
    pub fn plan_send(&self, now: i64) -> (p: SendPlan)
        ensures
            p == send_plan(self.token, now as int),
    {
        if self.token.is_expired(now) {
            SendPlan::RefreshFirst
        } else {
            SendPlan::Direct
        }
    }

    /// Replaces the held token with the outcome of a refresh exchange.
    /// The refresh credential is carried forward unchanged: the service
    /// does not rotate it on this flow.
    pub fn complete_refresh(&mut self, response: &RefreshTokenResponse, now: i64)
        requires
            0 <= now <= max_construction_instant(),
        ensures
            final(self).token.access_token@ == response.access_token@,
            final(self).token.refresh_token@ == old(self).token.refresh_token@,
            final(self).token.expires_at == now + response.expires_in,
    {
        let fresh = Token::from_refresh_response(response, self.token.refresh_token.as_str(), now);
        self.token = fresh;
    }
}

} // verus!
