use parkrust::errors::DecodeError;
use parkrust::models::{Athlete, Event, RunResult};
use parkrust::wire::{
    decode_athlete, decode_event, decode_run_result, encode_athlete, encode_event,
    encode_run_result, lookup,
};

fn sample_run_result(assisted: Option<&str>) -> RunResult {
    RunResult {
        series_id: String::from("1"),
        event_number: String::from("102"),
        run_id: String::from("4567"),
        finish_position: String::from("33"),
        gender_position: String::from("21"),
        event_date: String::from("2018-03-10"),
        athlete_id: String::from("718005"),
        run_time: String::from("0:32:47"),
        was_pb_run: String::from("0"),
        age_grading: String::from("51.2"),
        age_category: String::from("JM15-17"),
        first_timer: String::from("0"),
        genuine_pb: String::from("1"),
        updated: String::from("2018-03-10 10:01:02"),
        assisted: assisted.map(String::from),
    }
}

fn sample_event(user_favourite: Option<String>) -> Event {
    Event {
        event_number: String::from("102"),
        event_name: String::from("brighton"),
        event_short_name: String::from("Brighton"),
        event_long_name: String::from("Brighton parkrun"),
        event_location: String::from("Hove Park"),
        country_code: String::from("97"),
        preferred_language: String::from("en"),
        series_id: String::from("1"),
        next_anniversary: String::from("2024-10-02"),
        home_run_selection: String::from("0"),
        status_live: String::from("1"),
        anniversary_saturday_of_month: String::from("1"),
        event_status: String::from("live"),
        user_favourite,
        accessible_to_public: String::from("1"),
    }
}

#[test]
fn run_result_round_trip() {
    let record = sample_run_result(None);
    let pairs = encode_run_result(&record);
    assert_eq!(decode_run_result(&pairs), Ok(record));
}

#[test]
fn run_result_round_trip_with_assisted() {
    let record = sample_run_result(Some("1"));
    let pairs = encode_run_result(&record);
    assert_eq!(decode_run_result(&pairs), Ok(record));
}

#[test]
fn event_round_trip() {
    for favourite in [None, Some("1")] {
        let record = sample_event(favourite.map(String::from));
        let pairs = encode_event(&record);
        assert_eq!(decode_event(&pairs), Ok(record));
    }
}

#[test]
fn athlete_round_trip() {
    let record = Athlete {
        athlete_id: String::from("718005"),
        first_name: String::from("Jane"),
        last_name: String::from("Doe"),
    };
    let pairs = encode_athlete(&record);
    assert_eq!(decode_athlete(&pairs), Ok(record));
}

#[test]
fn wire_keys_use_the_service_casing() {
    let pairs = encode_run_result(&sample_run_result(None));
    let keys: Vec<&str> = pairs.iter().map(|(k, _)| k.as_str()).collect();
    assert!(keys.contains(&"SeriesID"));
    assert!(keys.contains(&"AthleteID"));
    assert!(keys.contains(&"GenuinePB"));
    assert!(keys.contains(&"RunTime"));
    assert!(!keys.contains(&"SeriesId"));
}

#[test]
fn decode_fails_on_missing_required_field() {
    let mut pairs = encode_run_result(&sample_run_result(None));
    pairs.retain(|(k, _)| k != "RunTime");
    assert_eq!(decode_run_result(&pairs), Err(DecodeError::MissingField));
}

#[test]
fn decode_ignores_absent_optional_field() {
    let record = sample_run_result(None);
    let pairs = encode_run_result(&record);
    let decoded = decode_run_result(&pairs).unwrap();
    assert_eq!(decoded.assisted, None);
}

#[test]
fn lookup_returns_first_match() {
    let pairs = vec![
        (String::from("k"), String::from("first")),
        (String::from("k"), String::from("second")),
        (String::from("other"), String::from("x")),
    ];
    assert_eq!(lookup(&pairs, &String::from("k")), Some(String::from("first")));
    assert_eq!(lookup(&pairs, &String::from("missing")), None);
}
