//! Domain records and wire envelopes.
//!
//! Every record field is transmitted as a string, whatever its logical
//! type; derived quantities (duration, date, position, pace) are computed
//! on demand from the string fields and never cached on the record.

use vstd::prelude::*;

use crate::date::{parse_date, valid_date_str, date_of_str, Date};
use crate::errors::ParseError;
use crate::text::{all_digits, digits_val, parse_u32, parse_u64, split_seq, split_str};

verus! {

/// The body of a successful password-grant login exchange.  The token
/// lifetime arrives as a string-encoded integer on this path.
#[derive(Clone, Debug, PartialEq)]
pub struct AuthResponse {
    pub access_token: String,
    pub refresh_token: String,
    pub expires_in: String,
}

/// The body of a successful refresh exchange.  Unlike login, the lifetime
/// arrives as a plain number, and no refresh credential is returned.
#[derive(Clone, Debug, PartialEq)]
pub struct RefreshTokenResponse {
    pub access_token: String,
    pub expires_in: u32,
}

/// One pagination link of a page envelope.
#[derive(Clone, Debug, PartialEq)]
pub struct ListResponseLink {
    pub rel: String,
    pub href: String,
}

/// The mathematical value of a pagination link.
#[verifier::ext_equal]
pub ghost struct LinkView {
    pub rel: Seq<char>,
    pub href: Seq<char>,
}

impl View for ListResponseLink {
    type V = LinkView;

    open spec fn view(&self) -> LinkView {
        LinkView { rel: self.rel@, href: self.href@ }
    }
}

impl DeepView for ListResponseLink {
    type V = LinkView;

    open spec fn deep_view(&self) -> LinkView {
        self.view()
    }
}

/// A page envelope: one page's payload plus its pagination links.
#[derive(Clone, Debug, PartialEq)]
pub struct ListResponse<T> {
    pub data: T,
    pub links: Vec<ListResponseLink>,
}

/// An athlete record.
#[derive(Clone, Debug, PartialEq)]
pub struct Athlete {
    pub athlete_id: String,
    pub first_name: String,
    pub last_name: String,
}

/// The mathematical value of an `Athlete`.
#[verifier::ext_equal]
pub ghost struct AthleteView {
    pub athlete_id: Seq<char>,
    pub first_name: Seq<char>,
    pub last_name: Seq<char>,
}

impl View for Athlete {
    type V = AthleteView;

    open spec fn view(&self) -> AthleteView {
        AthleteView {
            athlete_id: self.athlete_id@,
            first_name: self.first_name@,
            last_name: self.last_name@,
        }
    }
}

impl DeepView for Athlete {
    type V = AthleteView;

    open spec fn deep_view(&self) -> AthleteView {
        self.view()
    }
}

/// The payload wrapper under which athlete records are nested.
#[derive(Clone, Debug, PartialEq)]
pub struct ListAthletes {
    pub athletes: Vec<Athlete>,
}

/// An event record.
#[derive(Clone, Debug, PartialEq)]
pub struct Event {
    pub event_number: String,
    pub event_name: String,
    pub event_short_name: String,
    pub event_long_name: String,
    pub event_location: String,
    pub country_code: String,
    pub preferred_language: String,
    pub series_id: String,
    pub next_anniversary: String,
    pub home_run_selection: String,
    pub status_live: String,
    pub anniversary_saturday_of_month: String,
    pub event_status: String,
    pub user_favourite: Option<String>,
    pub accessible_to_public: String,
}

/// The mathematical value of an `Event`.
#[verifier::ext_equal]
pub ghost struct EventView {
    pub event_number: Seq<char>,
    pub event_name: Seq<char>,
    pub event_short_name: Seq<char>,
    pub event_long_name: Seq<char>,
    pub event_location: Seq<char>,
    pub country_code: Seq<char>,
    pub preferred_language: Seq<char>,
    pub series_id: Seq<char>,
    pub next_anniversary: Seq<char>,
    pub home_run_selection: Seq<char>,
    pub status_live: Seq<char>,
    pub anniversary_saturday_of_month: Seq<char>,
    pub event_status: Seq<char>,
    pub user_favourite: Option<Seq<char>>,
    pub accessible_to_public: Seq<char>,
}

impl View for Event {
    type V = EventView;

    open spec fn view(&self) -> EventView {
        EventView {
            event_number: self.event_number@,
            event_name: self.event_name@,
            event_short_name: self.event_short_name@,
            event_long_name: self.event_long_name@,
            event_location: self.event_location@,
            country_code: self.country_code@,
            preferred_language: self.preferred_language@,
            series_id: self.series_id@,
            next_anniversary: self.next_anniversary@,
            home_run_selection: self.home_run_selection@,
            status_live: self.status_live@,
            anniversary_saturday_of_month: self.anniversary_saturday_of_month@,
            event_status: self.event_status@,
            user_favourite: self.user_favourite.deep_view(),
            accessible_to_public: self.accessible_to_public@,
        }
    }
}

impl DeepView for Event {
    type V = EventView;

    open spec fn deep_view(&self) -> EventView {
        self.view()
    }
}

/// The payload wrapper under which event records are nested.
#[derive(Clone, Debug, PartialEq)]
pub struct ListEvents {
    pub events: Vec<Event>,
}

/// Query arguments of the events listing.
#[derive(Clone, Debug, PartialEq)]
pub struct EventsQuery {
    pub athlete_id: String,
}

/// A finished-run record.
#[derive(Clone, Debug, PartialEq)]
pub struct RunResult {
    pub series_id: String,
    pub event_number: String,
    pub run_id: String,
    pub finish_position: String,
    pub gender_position: String,
    pub event_date: String,
    pub athlete_id: String,
    pub run_time: String,
    pub was_pb_run: String,
    pub age_grading: String,
    pub age_category: String,
    pub first_timer: String,
    pub genuine_pb: String,
    pub updated: String,
    pub assisted: Option<String>,
}

/// The mathematical value of a `RunResult`.
#[verifier::ext_equal]
pub ghost struct RunResultView {
    pub series_id: Seq<char>,
    pub event_number: Seq<char>,
    pub run_id: Seq<char>,
    pub finish_position: Seq<char>,
    pub gender_position: Seq<char>,
    pub event_date: Seq<char>,
    pub athlete_id: Seq<char>,
    pub run_time: Seq<char>,
    pub was_pb_run: Seq<char>,
    pub age_grading: Seq<char>,
    pub age_category: Seq<char>,
    pub first_timer: Seq<char>,
    pub genuine_pb: Seq<char>,
    pub updated: Seq<char>,
    pub assisted: Option<Seq<char>>,
}

impl View for RunResult {
    type V = RunResultView;

    open spec fn view(&self) -> RunResultView {
        RunResultView {
            series_id: self.series_id@,
            event_number: self.event_number@,
            run_id: self.run_id@,
            finish_position: self.finish_position@,
            gender_position: self.gender_position@,
            event_date: self.event_date@,
            athlete_id: self.athlete_id@,
            run_time: self.run_time@,
            was_pb_run: self.was_pb_run@,
            age_grading: self.age_grading@,
            age_category: self.age_category@,
            first_timer: self.first_timer@,
            genuine_pb: self.genuine_pb@,
            updated: self.updated@,
            assisted: self.assisted.deep_view(),
        }
    }
}

impl DeepView for RunResult {
    type V = RunResultView;

    open spec fn deep_view(&self) -> RunResultView {
        self.view()
    }
}

/// The payload wrapper under which run-result records are nested.
#[derive(Clone, Debug, PartialEq)]
pub struct ListResults {
    pub results: Vec<RunResult>,
}

/// Query arguments of the results listing.
#[derive(Clone, Debug, PartialEq)]
pub struct ResultsQuery {
    pub athlete_id: String,
}

/// The seconds a wire duration of the form `H:MM:SS` stands for.
///
/// The minutes and seconds components are taken positionally and the hours
/// component is ignored, as the service reports durations below an hour as
/// `0:MM:SS`.  A string with fewer than three components, or whose minutes
/// or seconds component is not a decimal integer in `u32` range, stands
/// for zero seconds.
pub open spec fn duration_secs(s: Seq<char>) -> nat {
    let parts = split_seq(s, ':');
    if parts.len() >= 3 && parts[1].len() > 0 && all_digits(parts[1]) && digits_val(parts[1])
        <= u32::MAX && parts[2].len() > 0 && all_digits(parts[2]) && digits_val(parts[2])
        <= u32::MAX {
        60 * digits_val(parts[1]) + digits_val(parts[2])
    } else {
        0
    }
}

impl RunResult {
    /// The run's duration in seconds, read from `run_time`; zero when the
    /// field is malformed.
    pub fn duration(&self) -> (r: u64)
        ensures
            r as nat == duration_secs(self.run_time@),
    {
        let parts = split_str(self.run_time.as_str(), ':');
        if parts.len() >= 3 {
            proof {
                assert(parts.deep_view()[1] == parts@[1]@);
                assert(parts.deep_view()[2] == parts@[2]@);
            }
            let minutes = parse_u32(parts[1]);
            let seconds = parse_u32(parts[2]);
            match (minutes, seconds) {
                (Ok(m), Ok(s)) => 60 * (m as u64) + (s as u64),
                _ => 0,
            }
        } else {
            0
        }
    }

    /// The run's date, read from `event_date` in the form `YYYY-MM-DD`.
    pub fn date(&self) -> (r: Result<Date, ParseError>)
        ensures
            match r {
                Ok(d) => valid_date_str(self.event_date@) && d == date_of_str(self.event_date@),
                Err(e) => e == ParseError::Date && !valid_date_str(self.event_date@),
            },
    {
        parse_date(self.event_date.as_str())
    }

    /// The finishing position as a number, read from `finish_position`.
    pub fn position(&self) -> (r: Result<u64, ParseError>)
        ensures
            match r {
                Ok(n) => self.finish_position@.len() > 0 && all_digits(self.finish_position@)
                    && n as nat == digits_val(self.finish_position@),
                Err(e) => e == ParseError::Number && (self.finish_position@.len() == 0
                    || !all_digits(self.finish_position@) || digits_val(self.finish_position@)
                    > u64::MAX),
            },
    {
        parse_u64(self.finish_position.as_str())
    }

    /// The run's pace in seconds per kilometre: its duration divided by the
    /// event distance, which is taken to be exactly five kilometres — a
    /// known simplification of the service, not a general feature.
    pub fn speed(&self) -> (r: u64)
        ensures
            r as nat == duration_secs(self.run_time@) / 5,
    {
        self.duration() / 5
    }
}

} // verus!
