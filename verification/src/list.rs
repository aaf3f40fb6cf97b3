//! The paginated list protocol.
//!
//! Every listable resource is fetched the same way: one GET against the
//! resource's endpoint with its query arguments, then one plain GET per
//! `rel="next"` link, until a page carries no such link.  All decoded
//! items accumulate into one sequence, in page order, preserving
//! within-page order; a decode failure on any page aborts the whole call
//! with no partial result.
//!
//! The fetching itself is the caller's: it builds each request from the
//! `RequestSpec` values here, decodes each body into items and links, and
//! feeds them back through `ListSession::on_page` until the session is
//! finished.

use vstd::prelude::*;

use crate::client::{AuthenticatedParkrunClient, HttpMethod, RequestSpec};
use crate::errors::DecodeError;
use crate::models::{
    Event, EventsQuery, LinkView, ListEvents, ListResponse, ListResponseLink, ListResults,
    ResultsQuery, RunResult,
};
use crate::wire::{decode_event, decode_run_result, event_from_wire, run_result_from_wire};

verus! {

/// The target of the first `rel="next"` link, if any: its presence is the
/// protocol's sole continuation condition.
pub open spec fn next_link(links: Seq<LinkView>) -> Option<Seq<char>>
    decreases links.len(),
{
    if links.len() == 0 {
        None
    } else if links[0].rel == "next"@ {
        Some(links[0].href)
    } else {
        next_link(links.drop_first())
    }
}

/// Scans `links` for the first `rel="next"` entry and returns its target.
pub fn find_next_link(links: &Vec<ListResponseLink>) -> (r: Option<String>)
    ensures
        r.deep_view() == next_link(links.deep_view()),
{
    let next = String::from_str("next");
    let n = links.len();
    let mut i: usize = 0;
    proof {
        assert(links.deep_view().skip(0) =~= links.deep_view());
    }
    while i < n
        invariant
            0 <= i <= n == links.len(),
            next@ == "next"@,
            next_link(links.deep_view()) == next_link(links.deep_view().skip(i as int)),
        decreases n - i,
    {
        let link = &links[i];
        proof {
            assert(links.deep_view().skip(i as int)[0] == links.deep_view()[i as int]);
            assert(links.deep_view()[i as int] == links@[i as int]@);
        }
        if link.rel == next {
            return Some(link.href.clone());
        }
        proof {
            assert(links.deep_view().skip(i as int).drop_first() =~= links.deep_view().skip(
                i as int + 1,
            ));
        }
        i += 1;
    }
    proof {
        assert(links.deep_view().skip(n as int) =~= Seq::<LinkView>::empty());
    }
    None
}

/// One decoded page, as the session consumes it: the page's items and its
/// pagination links.
#[verifier::ext_equal]
pub ghost struct PageModel<R> {
    pub items: Seq<R>,
    pub links: Seq<LinkView>,
}

/// The state of one run of the list protocol.
#[verifier::ext_equal]
pub ghost struct SessionModel<R> {
    pub items: Seq<R>,
    pub pages: nat,
    pub finished: bool,
}

/// The state before any page was consumed.
pub open spec fn session_start<R>() -> SessionModel<R> {
    SessionModel { items: Seq::empty(), pages: 0, finished: false }
}

/// Consuming one page: its items are appended in order, one more request
/// is accounted for, and the protocol finishes exactly when the page
/// carries no next link.
pub open spec fn session_after<R>(s: SessionModel<R>, page: PageModel<R>) -> SessionModel<R> {
    SessionModel {
        items: s.items + page.items,
        pages: s.pages + 1,
        finished: next_link(page.links) is None,
    }
}

/// The session state after consuming `pages` in order, from the start.
pub open spec fn session_run<R>(pages: Seq<PageModel<R>>) -> SessionModel<R>
    decreases pages.len(),
{
    if pages.len() == 0 {
        session_start()
    } else {
        session_after(session_run(pages.drop_last()), pages.last())
    }
}

/// The concatenation of the pages' items, in page order.
pub open spec fn all_page_items<R>(pages: Seq<PageModel<R>>) -> Seq<R>
    decreases pages.len(),
{
    if pages.len() == 0 {
        Seq::empty()
    } else {
        all_page_items(pages.drop_last()) + pages.last().items
    }
}

/// An accumulating run of the list protocol.
pub struct ListSession<R> {
    pub items: Vec<R>,
    pub pages: u64,
    pub finished: bool,
}

impl<R> View for ListSession<R> {
    type V = SessionModel<R>;

    open spec fn view(&self) -> SessionModel<R> {
        SessionModel { items: self.items@, pages: self.pages as nat, finished: self.finished }
    }
}

impl<R> ListSession<R> {
    /// Opens a run: nothing accumulated, nothing fetched, not finished.
    pub fn new() -> (s: Self)
        ensures
            s@ == session_start::<R>(),
    {
        let s = ListSession { items: Vec::new(), pages: 0, finished: false };
        proof {
            assert(s@ =~= session_start::<R>());
        }
        s
    }

    /// Consumes one decoded page and returns the link target to fetch
    /// next, or `None` when the run is finished.
    pub fn on_page(&mut self, page_items: Vec<R>, links: &Vec<ListResponseLink>) -> (next: Option<
        String,
    >)
        requires
            !old(self)@.finished,
            old(self)@.pages < u64::MAX,
        ensures
            final(self)@ == session_after(
                old(self)@,
                PageModel { items: page_items@, links: links.deep_view() },
            ),
            next.deep_view() == next_link(links.deep_view()),
    {
        let mut arriving = page_items;
        self.items.append(&mut arriving);
        self.pages = self.pages + 1;
        let next = find_next_link(links);
        self.finished = next.is_none();
        proof {
            assert(self@ =~= session_after(
                old(self)@,
                PageModel { items: page_items@, links: links.deep_view() },
            ));
        }
        next
    }
}

/// The protocol collects every page's items, in page order, and issues
/// exactly one request per page consumed.
pub proof fn lemma_session_collects_all<R>(pages: Seq<PageModel<R>>)
    ensures
        session_run(pages).items == all_page_items(pages),
        session_run(pages).pages == pages.len(),
    decreases pages.len(),
{
    if pages.len() > 0 {
        lemma_session_collects_all(pages.drop_last());
    }
}

/// Three pages, of which the first two carry a next link and the third
/// does not: the run returns the concatenation of all three pages' items
/// in order, stays unfinished after pages one and two, and finishes —
/// having issued exactly three requests — after page three.
pub proof fn lemma_three_page_run<R>(p1: PageModel<R>, p2: PageModel<R>, p3: PageModel<R>)
    requires
        next_link(p1.links) is Some,
        next_link(p2.links) is Some,
        next_link(p3.links) is None,
    ensures
        !session_run(seq![p1]).finished,
        !session_run(seq![p1, p2]).finished,
        session_run(seq![p1, p2, p3]).finished,
        session_run(seq![p1, p2, p3]).items == p1.items + p2.items + p3.items,
        session_run(seq![p1, p2, p3]).pages == 3,
{
    reveal_with_fuel(session_run, 4);
    assert(seq![p1].drop_last() =~= Seq::<PageModel<R>>::empty());
    assert(seq![p1, p2].drop_last() =~= seq![p1]);
    assert(seq![p1, p2, p3].drop_last() =~= seq![p1, p2]);
    let s1 = session_after(session_start(), p1);
    let s2 = session_after(s1, p2);
    let s3 = session_after(s2, p3);
    assert(session_run(seq![p1]) == s1);
    assert(session_run(seq![p1, p2]) == s2);
    assert(session_run(seq![p1, p2, p3]) == s3);
    assert(s3.items =~= p1.items + p2.items + p3.items);
}

/// The capability every listable resource type implements: a fixed
/// endpoint, and the payload-wrapper field name under which its records
/// are nested in a page envelope.
pub trait Listable: Sized {
    spec fn endpoint_spec() -> Seq<char>;

    spec fn data_key_spec() -> Seq<char>;

    fn endpoint() -> (r: &'static str)
        ensures
            r@ == Self::endpoint_spec(),
    ;

    fn data_key() -> (r: &'static str)
        ensures
            r@ == Self::data_key_spec(),
    ;
}

impl Listable for Event {
    open spec fn endpoint_spec() -> Seq<char> {
        "/v1/events"@
    }

    open spec fn data_key_spec() -> Seq<char> {
        "events"@
    }

    fn endpoint() -> (r: &'static str) {
        "/v1/events"
    }

    fn data_key() -> (r: &'static str) {
        "events"
    }
}

impl Listable for RunResult {
    open spec fn endpoint_spec() -> Seq<char> {
        "/v1/results"@
    }

    open spec fn data_key_spec() -> Seq<char> {
        "results"@
    }

    fn endpoint() -> (r: &'static str) {
        "/v1/results"
    }

    fn data_key() -> (r: &'static str) {
        "results"
    }
}

impl EventsQuery {
    /// The query parameters of the events listing's first page.
    pub fn to_query(&self) -> (q: Vec<(String, String)>)
        ensures
            q.deep_view() == seq![("athleteId"@, self.athlete_id@)],
    {
        let mut q: Vec<(String, String)> = Vec::new();
        q.push((String::from_str("athleteId"), self.athlete_id.clone()));
        proof {
            assert(q.deep_view() =~= seq![("athleteId"@, self.athlete_id@)]);
        }
        q
    }
}

impl ResultsQuery {
    /// The query parameters of the results listing's first page.
    pub fn to_query(&self) -> (q: Vec<(String, String)>)
        ensures
            q.deep_view() == seq![("athleteId"@, self.athlete_id@)],
    {
        let mut q: Vec<(String, String)> = Vec::new();
        q.push((String::from_str("athleteId"), self.athlete_id.clone()));
        proof {
            assert(q.deep_view() =~= seq![("athleteId"@, self.athlete_id@)]);
        }
        q
    }
}

impl AuthenticatedParkrunClient {
    /// The first-page request of a listing: a GET against the resource's
    /// endpoint carrying the access credential and the resource's query
    /// arguments.  Subsequent pages are plain authenticated GETs of each
    /// next link's target, built with `request`, since a next link already
    /// encodes the query.
    pub fn list_request<T: Listable>(&self, query_args: Vec<(String, String)>) -> (r: RequestSpec)
        ensures
            r@.method == HttpMethod::Get,
            r@.path == T::endpoint_spec(),
            r@.query == seq![("access_token"@, self.token.access_token@)]
                + query_args.deep_view(),
            r@.headers == seq![crate::client::client_header()],
            r@.form == Seq::<(Seq<char>, Seq<char>)>::empty(),
            !r@.client_auth,
    {
        let mut r = self.request(HttpMethod::Get, T::endpoint());
        let mut arriving = query_args;
        r.query.append(&mut arriving);
        proof {
            assert(r@.query =~= seq![("access_token"@, self.token.access_token@)]
                + query_args.deep_view());
        }
        r
    }
}

/// Decodes one results page: every record of `records` (each already
/// split into its wire pairs) is decoded, all or nothing, and the links
/// are carried through unchanged.
pub fn decode_results_page(records: &Vec<Vec<(String, String)>>, links: Vec<ListResponseLink>) -> (r:
    Result<ListResponse<ListResults>, DecodeError>)
    ensures
        match r {
            Ok(resp) => {
                &&& resp.links == links
                &&& resp.data.results.deep_view().len() == records.deep_view().len()
                &&& forall|i: int|
                    0 <= i < records.deep_view().len() ==> run_result_from_wire(
                        #[trigger] records.deep_view()[i],
                    ) == Some(resp.data.results.deep_view()[i])
            },
            Err(e) => e == DecodeError::MissingField && exists|i: int|
                0 <= i < records.deep_view().len() && run_result_from_wire(
                    #[trigger] records.deep_view()[i],
                ) is None,
        },
{
    let n = records.len();
    let mut results: Vec<RunResult> = Vec::new();
    let mut i: usize = 0;
    while i < n
        invariant
            0 <= i <= n == records.len(),
            results.deep_view().len() == i,
            forall|j: int|
                0 <= j < i ==> run_result_from_wire(#[trigger] records.deep_view()[j]) == Some(
                    results.deep_view()[j],
                ),
        decreases n - i,
    {
        proof {
            assert(records.deep_view()[i as int] == records@[i as int].deep_view());
        }
        match decode_run_result(&records[i]) {
            Ok(record) => {
                results.push(record);
            },
            Err(e) => {
                return Err(e);
            },
        }
        i += 1;
    }
    Ok(ListResponse { data: ListResults { results }, links })
}

/// Decodes one events page; as `decode_results_page`, for event records.
pub fn decode_events_page(records: &Vec<Vec<(String, String)>>, links: Vec<ListResponseLink>) -> (r:
    Result<ListResponse<ListEvents>, DecodeError>)
    ensures
        match r {
            Ok(resp) => {
                &&& resp.links == links
                &&& resp.data.events.deep_view().len() == records.deep_view().len()
                &&& forall|i: int|
                    0 <= i < records.deep_view().len() ==> event_from_wire(
                        #[trigger] records.deep_view()[i],
                    ) == Some(resp.data.events.deep_view()[i])
            },
            Err(e) => e == DecodeError::MissingField && exists|i: int|
                0 <= i < records.deep_view().len() && event_from_wire(
                    #[trigger] records.deep_view()[i],
                ) is None,
        },
{
    let n = records.len();
    let mut events: Vec<Event> = Vec::new();
    let mut i: usize = 0;
    while i < n
        invariant
            0 <= i <= n == records.len(),
            events.deep_view().len() == i,
            forall|j: int|
                0 <= j < i ==> event_from_wire(#[trigger] records.deep_view()[j]) == Some(
                    events.deep_view()[j],
                ),
        decreases n - i,
    {
        proof {
            assert(records.deep_view()[i as int] == records@[i as int].deep_view());
        }
        match decode_event(&records[i]) {
            Ok(record) => {
                events.push(record);
            },
            Err(e) => {
                return Err(e);
            },
        }
        i += 1;
    }
    Ok(ListResponse { data: ListEvents { events }, links })
}

/// A page that carries a next link never finishes the run, whatever the
/// link's target — a degenerate page whose next link points back at
/// itself is fetched again without end.  The protocol has no page cap:
/// termination rests on the server eventually omitting the next link.
pub proof fn lemma_next_link_always_followed<R>(s: SessionModel<R>, page: PageModel<R>)
    requires
        next_link(page.links) is Some,
    ensures
        !session_after(s, page).finished,
{
}

} // verus!
