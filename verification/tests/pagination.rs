use parkrust::client::{AuthenticatedParkrunClient, HttpMethod};
use parkrust::errors::DecodeError;
use parkrust::list::{
    decode_events_page, decode_results_page, find_next_link, Listable, ListSession,
};
use parkrust::models::{Event, EventsQuery, ListResponseLink, ResultsQuery, RunResult};
use parkrust::token::Token;
use parkrust::wire::{encode_event, encode_run_result};

fn link(rel: &str, href: &str) -> ListResponseLink {
    ListResponseLink { rel: String::from(rel), href: String::from(href) }
}

#[test]
fn find_next_link_takes_first_next_relation() {
    let links = vec![
        link("self", "/v1/results?page=2"),
        link("next", "/v1/results?page=3"),
        link("next", "/v1/results?page=9"),
    ];
    assert_eq!(find_next_link(&links), Some(String::from("/v1/results?page=3")));
    assert_eq!(find_next_link(&vec![link("self", "/v1/results")]), None);
    assert_eq!(find_next_link(&vec![]), None);
}

#[test]
fn three_pages_accumulate_in_order_with_three_requests() {
    let mut session: ListSession<u32> = ListSession::new();

    let next1 = session.on_page(vec![1, 2], &vec![link("next", "/p2")]);
    assert_eq!(next1, Some(String::from("/p2")));
    assert!(!session.finished);

    let next2 = session.on_page(vec![3], &vec![link("next", "/p3")]);
    assert_eq!(next2, Some(String::from("/p3")));
    assert!(!session.finished);

    let next3 = session.on_page(vec![4, 5], &vec![link("self", "/p3")]);
    assert_eq!(next3, None);
    assert!(session.finished);

    assert_eq!(session.items, vec![1, 2, 3, 4, 5]);
    assert_eq!(session.pages, 3);
}

#[test]
fn self_pointing_next_link_keeps_the_run_unfinished() {
    // A degenerate envelope whose next link points back at itself: the
    // protocol follows it again, so a run over such pages never ends.
    let mut session: ListSession<u32> = ListSession::new();
    let next = session.on_page(vec![1], &vec![link("next", "/same-page")]);
    assert_eq!(next, Some(String::from("/same-page")));
    assert!(!session.finished);
    let again = session.on_page(vec![1], &vec![link("next", "/same-page")]);
    assert_eq!(again, Some(String::from("/same-page")));
    assert!(!session.finished);
}

#[test]
fn listable_endpoints_and_data_keys() {
    assert_eq!(<Event as Listable>::endpoint(), "/v1/events");
    assert_eq!(<Event as Listable>::data_key(), "events");
    assert_eq!(<RunResult as Listable>::endpoint(), "/v1/results");
    assert_eq!(<RunResult as Listable>::data_key(), "results");
}

#[test]
fn queries_use_camel_cased_athlete_id() {
    let events_query = EventsQuery { athlete_id: String::from("718005") };
    assert_eq!(events_query.to_query(), vec![(String::from("athleteId"), String::from("718005"))]);
    let results_query = ResultsQuery { athlete_id: String::from("718005") };
    assert_eq!(
        results_query.to_query(),
        vec![(String::from("athleteId"), String::from("718005"))]
    );
}

#[test]
fn list_request_carries_access_token_then_args() {
    let token = Token {
        access_token: String::from("tok"),
        refresh_token: String::from("ref"),
        expires_at: 10,
    };
    let client = AuthenticatedParkrunClient::new(token);
    let query = ResultsQuery { athlete_id: String::from("718005") };
    let r = client.list_request::<RunResult>(query.to_query());
    assert_eq!(r.method, HttpMethod::Get);
    assert_eq!(r.path, "/v1/results");
    assert_eq!(
        r.query,
        vec![
            (String::from("access_token"), String::from("tok")),
            (String::from("athleteId"), String::from("718005")),
        ]
    );
}

fn sample_run_result(run_id: &str) -> RunResult {
    RunResult {
        series_id: String::from("1"),
        event_number: String::from("102"),
        run_id: String::from(run_id),
        finish_position: String::from("33"),
        gender_position: String::from("21"),
        event_date: String::from("2018-03-10"),
        athlete_id: String::from("718005"),
        run_time: String::from("0:32:47"),
        was_pb_run: String::from("0"),
        age_grading: String::from("51.2"),
        age_category: String::from("JM15-17"),
        first_timer: String::from("0"),
        genuine_pb: String::from("1"),
        updated: String::from("2018-03-10 10:01:02"),
        assisted: None,
    }
}

#[test]
fn decode_results_page_keeps_order_and_links() {
    let first = sample_run_result("1");
    let second = sample_run_result("2");
    let records = vec![encode_run_result(&first), encode_run_result(&second)];
    let links = vec![link("next", "/p2")];
    let page = decode_results_page(&records, links.clone()).unwrap();
    assert_eq!(page.data.results, vec![first, second]);
    assert_eq!(page.links, links);
}

#[test]
fn decode_results_page_is_all_or_nothing() {
    let good = encode_run_result(&sample_run_result("1"));
    let mut bad = encode_run_result(&sample_run_result("2"));
    bad.retain(|(k, _)| k != "EventDate");
    assert_eq!(
        decode_results_page(&vec![good, bad], vec![]),
        Err(DecodeError::MissingField)
    );
}

#[test]
fn decode_events_page_decodes_records() {
    let event = Event {
        event_number: String::from("102"),
        event_name: String::from("brighton"),
        event_short_name: String::from("Brighton"),
        event_long_name: String::from("Brighton parkrun"),
        event_location: String::from("Hove Park"),
        country_code: String::from("97"),
        preferred_language: String::from("en"),
        series_id: String::from("1"),
        next_anniversary: String::from("2024-10-02"),
        home_run_selection: String::from("0"),
        status_live: String::from("1"),
        anniversary_saturday_of_month: String::from("1"),
        event_status: String::from("live"),
        user_favourite: None,
        accessible_to_public: String::from("1"),
    };
    let page = decode_events_page(&vec![encode_event(&event)], vec![]).unwrap();
    assert_eq!(page.data.events, vec![event]);
    assert!(page.links.is_empty());
}
