use parkrust::date::Date;
use parkrust::errors::ParseError;
use parkrust::models::RunResult;
use parkrust::requests::{
    average_finishing_position, average_speed, average_time, best_finishing_position,
    duration_formatter, events, fastest_time, format_total_time, total_time,
};

fn result_with(run_time: &str, finish_position: &str, event_number: &str) -> RunResult {
    RunResult {
        series_id: String::from("1"),
        event_number: String::from(event_number),
        run_id: String::from("4567"),
        finish_position: String::from(finish_position),
        gender_position: String::from("21"),
        event_date: String::from("2018-03-10"),
        athlete_id: String::from("718005"),
        run_time: String::from(run_time),
        was_pb_run: String::from("0"),
        age_grading: String::from("51.2"),
        age_category: String::from("JM15-17"),
        first_timer: String::from("0"),
        genuine_pb: String::from("1"),
        updated: String::from("2018-03-10 10:01:02"),
        assisted: None,
    }
}

#[test]
fn duration_reads_minutes_and_seconds_positionally() {
    let r = result_with("0:32:47", "33", "102");
    assert_eq!(r.duration(), 32 * 60 + 47);
    // the hours component is ignored
    assert_eq!(result_with("1:02:03", "33", "102").duration(), 123);
}

#[test]
fn duration_defaults_to_zero_on_malformed_input() {
    assert_eq!(result_with("32:47", "33", "102").duration(), 0);
    assert_eq!(result_with("0:x:47", "33", "102").duration(), 0);
    assert_eq!(result_with("", "33", "102").duration(), 0);
}

#[test]
fn speed_is_duration_over_five_kilometres() {
    assert_eq!(result_with("0:25:00", "33", "102").speed(), 300);
}

#[test]
fn average_speed_of_identical_durations_is_their_pace() {
    let d = 32 * 60 + 47;
    let rs = vec![
        result_with("0:32:47", "1", "102"),
        result_with("0:32:47", "2", "102"),
        result_with("0:32:47", "3", "103"),
    ];
    assert_eq!(average_speed(&rs), d / 5);
}

#[test]
fn totals_and_extremes() {
    let rs = vec![
        result_with("0:20:00", "5", "102"),
        result_with("0:30:00", "3", "103"),
        result_with("0:25:00", "9", "102"),
    ];
    assert_eq!(total_time(&rs), 1200 + 1800 + 1500);
    assert_eq!(average_time(&rs), 1500);
    assert_eq!(fastest_time(&rs), 1200);
    assert_eq!(best_finishing_position(&rs), 3);
    assert_eq!(average_finishing_position(&rs), (5 + 3 + 9) / 3);
}

#[test]
fn events_lists_distinct_event_numbers() {
    let rs = vec![
        result_with("0:20:00", "5", "102"),
        result_with("0:30:00", "3", "103"),
        result_with("0:25:00", "9", "102"),
    ];
    let mut distinct = events(&rs);
    distinct.sort();
    assert_eq!(distinct, vec![String::from("102"), String::from("103")]);
}

#[test]
fn duration_formatter_pads_components() {
    assert_eq!(duration_formatter(32 * 60 + 47), "32:47");
    assert_eq!(duration_formatter(5 * 60 + 3), "05:03");
    assert_eq!(duration_formatter(3600 + 2 * 60 + 5), "01:02:05");
    assert_eq!(duration_formatter(0), "00:00");
}

#[test]
fn format_total_time_picks_a_coarse_unit() {
    assert_eq!(format_total_time(99 * 60), "99m");
    assert_eq!(format_total_time(100 * 60), "1h");
    assert_eq!(format_total_time(999 * 3600), "999h");
    assert_eq!(format_total_time(1000 * 3600), "41d");
}

#[test]
fn date_parses_the_fixed_format() {
    let r = result_with("0:32:47", "33", "102");
    assert_eq!(r.date(), Ok(Date { year: 2018, month: 3, day: 10 }));
}

#[test]
fn date_checks_the_calendar() {
    let leap = result_with("0:32:47", "33", "102");
    let mut on_leap_day = leap.clone();
    on_leap_day.event_date = String::from("2020-02-29");
    assert_eq!(on_leap_day.date(), Ok(Date { year: 2020, month: 2, day: 29 }));
    let mut off_calendar = leap.clone();
    off_calendar.event_date = String::from("2019-02-29");
    assert_eq!(off_calendar.date(), Err(ParseError::Date));
    let mut malformed = leap;
    malformed.event_date = String::from("2019/02/01");
    assert_eq!(malformed.date(), Err(ParseError::Date));
}

#[test]
fn position_parses_the_numeral() {
    assert_eq!(result_with("0:32:47", "33", "102").position(), Ok(33));
    assert_eq!(result_with("0:32:47", "first", "102").position(), Err(ParseError::Number));
    assert_eq!(result_with("0:32:47", "", "102").position(), Err(ParseError::Number));
}
