//! The records' wire representation.
//!
//! On the wire a record is a set of string fields keyed by Pascal-cased
//! names; three identifier fields (`AthleteID`, `SeriesID`, `GenuinePB`)
//! use their own capitalisation.  The library represents one record's
//! fields as ordered key/value pairs of plain strings; turning a JSON
//! object into such pairs, and back, is the transport's concern.
//!
//! A record's optional fields are encoded only when present: an absent
//! pair stands for a missing or null value.

use vstd::prelude::*;

use crate::errors::DecodeError;
use crate::models::{Athlete, AthleteView, Event, EventView, RunResult, RunResultView};

verus! {

/// The value under the first pair of `ps` whose key is `key`, if any.
pub open spec fn lookup_pair(ps: Seq<(Seq<char>, Seq<char>)>, key: Seq<char>) -> Option<Seq<char>>
    decreases ps.len(),
{
    if ps.len() == 0 {
        None
    } else if ps[0].0 == key {
        Some(ps[0].1)
    } else {
        lookup_pair(ps.drop_first(), key)
    }
}

/// Finds `key` among `pairs`, returning the first value under it.
pub fn lookup(pairs: &Vec<(String, String)>, key: &String) -> (r: Option<String>)
    ensures
        r.deep_view() == lookup_pair(pairs.deep_view(), key@),
{
    let n = pairs.len();
    let mut i: usize = 0;
    proof {
        assert(pairs.deep_view().skip(0) =~= pairs.deep_view());
    }
    while i < n
        invariant
            0 <= i <= n == pairs.len(),
            lookup_pair(pairs.deep_view(), key@) == lookup_pair(
                pairs.deep_view().skip(i as int),
                key@,
            ),
        decreases n - i,
    {
        let p = &pairs[i];
        proof {
            assert(pairs.deep_view().skip(i as int)[0] == pairs.deep_view()[i as int]);
            assert(pairs.deep_view()[i as int] == (pairs@[i as int].0@, pairs@[i as int].1@));
        }
        if p.0 == *key {
            return Some(p.1.clone());
        }
        proof {
            assert(pairs.deep_view().skip(i as int).drop_first() =~= pairs.deep_view().skip(
                i as int + 1,
            ));
        }
        i += 1;
    }
    proof {
        assert(pairs.deep_view().skip(n as int) =~= Seq::<(Seq<char>, Seq<char>)>::empty());
    }
    None
}

/// The wire pairs of an athlete record.
pub open spec fn athlete_wire(v: AthleteView) -> Seq<(Seq<char>, Seq<char>)> {
    seq![
        ("AthleteID"@, v.athlete_id),
        ("FirstName"@, v.first_name),
        ("LastName"@, v.last_name),
    ]
}

/// The athlete record a set of wire pairs stands for, if every required
/// field is present.
pub open spec fn athlete_from_wire(ps: Seq<(Seq<char>, Seq<char>)>) -> Option<AthleteView> {
    match (
        lookup_pair(ps, "AthleteID"@),
        lookup_pair(ps, "FirstName"@),
        lookup_pair(ps, "LastName"@),
    ) {
        (Some(athlete_id), Some(first_name), Some(last_name)) => Some(
            AthleteView { athlete_id, first_name, last_name },
        ),
        _ => None,
    }
}

/// Encodes an athlete record into its wire pairs.
pub fn encode_athlete(a: &Athlete) -> (r: Vec<(String, String)>)
    ensures
        r.deep_view() == athlete_wire(a@),
{
    let mut r: Vec<(String, String)> = Vec::new();
    r.push((String::from_str("AthleteID"), a.athlete_id.clone()));
    r.push((String::from_str("FirstName"), a.first_name.clone()));
    r.push((String::from_str("LastName"), a.last_name.clone()));
    proof {
        assert(r.deep_view() =~= athlete_wire(a@));
    }
    r
}

/// Decodes an athlete record from its wire pairs; fails exactly when a
/// required field is absent.
pub fn decode_athlete(pairs: &Vec<(String, String)>) -> (r: Result<Athlete, DecodeError>)
    ensures
        match r {
            Ok(a) => athlete_from_wire(pairs.deep_view()) == Some(a@),
            Err(e) => e == DecodeError::MissingField && athlete_from_wire(pairs.deep_view())
                is None,
        },
{
    let athlete_id = match lookup(pairs, &String::from_str("AthleteID")) {
        Some(v) => v,
        None => {
            return Err(DecodeError::MissingField);
        },
    };
    let first_name = match lookup(pairs, &String::from_str("FirstName")) {
        Some(v) => v,
        None => {
            return Err(DecodeError::MissingField);
        },
    };
    let last_name = match lookup(pairs, &String::from_str("LastName")) {
        Some(v) => v,
        None => {
            return Err(DecodeError::MissingField);
        },
    };
    Ok(Athlete { athlete_id, first_name, last_name })
}

/// Round trip: encoding an athlete record and decoding the pairs yields
/// the record back, field for field.
pub proof fn lemma_athlete_round_trip(v: AthleteView)
    ensures
        athlete_from_wire(athlete_wire(v)) == Some(v),
{
    reveal_strlit("AthleteID");
    reveal_strlit("FirstName");
    reveal_strlit("LastName");
    reveal_with_fuel(lookup_pair, 5);
    assert("AthleteID"@[1] == 't' && "FirstName"@[1] == 'i');
    assert("AthleteID"@ != "FirstName"@);
    assert("AthleteID"@.len() == 9 && "FirstName"@.len() == 9 && "LastName"@.len() == 8);
    assert("AthleteID"@ != "LastName"@);
    assert("FirstName"@ != "LastName"@);
    let ps = athlete_wire(v);
    assert(lookup_pair(ps, "AthleteID"@) == Some(v.athlete_id));
    assert(lookup_pair(ps, "FirstName"@) == Some(v.first_name));
    assert(lookup_pair(ps, "LastName"@) == Some(v.last_name));
    assert(AthleteView {
        athlete_id: v.athlete_id,
        first_name: v.first_name,
        last_name: v.last_name,
    } =~= v);
}

/// Looking a key up in a concatenation finds it in the front pairs first,
/// and otherwise in the back pairs.
pub proof fn lemma_lookup_pair_append(
    ps: Seq<(Seq<char>, Seq<char>)>,
    qs: Seq<(Seq<char>, Seq<char>)>,
    key: Seq<char>,
)
    ensures
        lookup_pair(ps + qs, key) == (match lookup_pair(ps, key) {
            Some(value) => Some(value),
            None => lookup_pair(qs, key),
        }),
    decreases ps.len(),
{
    if ps.len() == 0 {
        assert(ps + qs =~= qs);
    } else {
        assert((ps + qs).drop_first() =~= ps.drop_first() + qs);
        lemma_lookup_pair_append(ps.drop_first(), qs, key);
    }
}

/// The wire pairs of the record's required fields, in canonical order.
pub open spec fn run_result_wire_required(v: RunResultView) -> Seq<(Seq<char>, Seq<char>)> {
    seq![
        ("SeriesID"@, v.series_id),
        ("EventNumber"@, v.event_number),
        ("RunId"@, v.run_id),
        ("FinishPosition"@, v.finish_position),
        ("GenderPosition"@, v.gender_position),
        ("EventDate"@, v.event_date),
        ("AthleteID"@, v.athlete_id),
        ("RunTime"@, v.run_time),
        ("WasPbRun"@, v.was_pb_run),
        ("AgeGrading"@, v.age_grading),
        ("AgeCategory"@, v.age_category),
        ("FirstTimer"@, v.first_timer),
        ("GenuinePB"@, v.genuine_pb),
        ("Updated"@, v.updated),
    ]
}

/// The wire pairs of a record; the optional `assisted` field is
/// encoded last, and only when present.
pub open spec fn run_result_wire(v: RunResultView) -> Seq<(Seq<char>, Seq<char>)> {
    match v.assisted {
        Some(value) => run_result_wire_required(v).push(("Assisted"@, value)),
        None => run_result_wire_required(v),
    }
}

/// The record a set of wire pairs stands for, if every required field
/// is present.
pub open spec fn run_result_from_wire(ps: Seq<(Seq<char>, Seq<char>)>) -> Option<RunResultView> {
    if lookup_pair(ps, "SeriesID"@) is Some
        && lookup_pair(ps, "EventNumber"@) is Some
        && lookup_pair(ps, "RunId"@) is Some
        && lookup_pair(ps, "FinishPosition"@) is Some
        && lookup_pair(ps, "GenderPosition"@) is Some
        && lookup_pair(ps, "EventDate"@) is Some
        && lookup_pair(ps, "AthleteID"@) is Some
        && lookup_pair(ps, "RunTime"@) is Some
        && lookup_pair(ps, "WasPbRun"@) is Some
        && lookup_pair(ps, "AgeGrading"@) is Some
        && lookup_pair(ps, "AgeCategory"@) is Some
        && lookup_pair(ps, "FirstTimer"@) is Some
        && lookup_pair(ps, "GenuinePB"@) is Some
        && lookup_pair(ps, "Updated"@) is Some {
        Some(
            RunResultView {
                series_id: lookup_pair(ps, "SeriesID"@)->0,
                event_number: lookup_pair(ps, "EventNumber"@)->0,
                run_id: lookup_pair(ps, "RunId"@)->0,
                finish_position: lookup_pair(ps, "FinishPosition"@)->0,
                gender_position: lookup_pair(ps, "GenderPosition"@)->0,
                event_date: lookup_pair(ps, "EventDate"@)->0,
                athlete_id: lookup_pair(ps, "AthleteID"@)->0,
                run_time: lookup_pair(ps, "RunTime"@)->0,
                was_pb_run: lookup_pair(ps, "WasPbRun"@)->0,
                age_grading: lookup_pair(ps, "AgeGrading"@)->0,
                age_category: lookup_pair(ps, "AgeCategory"@)->0,
                first_timer: lookup_pair(ps, "FirstTimer"@)->0,
                genuine_pb: lookup_pair(ps, "GenuinePB"@)->0,
                updated: lookup_pair(ps, "Updated"@)->0,
                assisted: lookup_pair(ps, "Assisted"@),
            },
        )
    } else {
        None
    }
}

/// Encodes a record into its wire pairs.
pub fn encode_run_result(record: &RunResult) -> (r: Vec<(String, String)>)
    ensures
        r.deep_view() == run_result_wire(record@),
{
    let mut r: Vec<(String, String)> = Vec::new();
    r.push((String::from_str("SeriesID"), record.series_id.clone()));
    r.push((String::from_str("EventNumber"), record.event_number.clone()));
    r.push((String::from_str("RunId"), record.run_id.clone()));
    r.push((String::from_str("FinishPosition"), record.finish_position.clone()));
    r.push((String::from_str("GenderPosition"), record.gender_position.clone()));
    r.push((String::from_str("EventDate"), record.event_date.clone()));
    r.push((String::from_str("AthleteID"), record.athlete_id.clone()));
    r.push((String::from_str("RunTime"), record.run_time.clone()));
    r.push((String::from_str("WasPbRun"), record.was_pb_run.clone()));
    r.push((String::from_str("AgeGrading"), record.age_grading.clone()));
    r.push((String::from_str("AgeCategory"), record.age_category.clone()));
    r.push((String::from_str("FirstTimer"), record.first_timer.clone()));
    r.push((String::from_str("GenuinePB"), record.genuine_pb.clone()));
    r.push((String::from_str("Updated"), record.updated.clone()));
    match &record.assisted {
        Some(value) => {
            r.push((String::from_str("Assisted"), value.clone()));
            proof {
                assert(r.deep_view() =~= run_result_wire(record@));
            }
        },
        None => {
            proof {
                assert(r.deep_view() =~= run_result_wire(record@));
            }
        },
    }
    r
}

/// Decodes a record from its wire pairs; fails exactly when a required
/// field is absent.
pub fn decode_run_result(pairs: &Vec<(String, String)>) -> (r: Result<RunResult, DecodeError>)
    ensures
        match r {
            Ok(record) => run_result_from_wire(pairs.deep_view()) == Some(record@),
            Err(e) => e == DecodeError::MissingField && run_result_from_wire(
                pairs.deep_view(),
            ) is None,
        },
{
    let series_id = match lookup(pairs, &String::from_str("SeriesID")) {
        Some(value) => value,
        None => {
            return Err(DecodeError::MissingField);
        },
    };
    let event_number = match lookup(pairs, &String::from_str("EventNumber")) {
        Some(value) => value,
        None => {
            return Err(DecodeError::MissingField);
        },
    };
    let run_id = match lookup(pairs, &String::from_str("RunId")) {
        Some(value) => value,
        None => {
            return Err(DecodeError::MissingField);
        },
    };
    let finish_position = match lookup(pairs, &String::from_str("FinishPosition")) {
        Some(value) => value,
        None => {
            return Err(DecodeError::MissingField);
        },
    };
    let gender_position = match lookup(pairs, &String::from_str("GenderPosition")) {
        Some(value) => value,
        None => {
            return Err(DecodeError::MissingField);
        },
    };
    let event_date = match lookup(pairs, &String::from_str("EventDate")) {
        Some(value) => value,
        None => {
            return Err(DecodeError::MissingField);
        },
    };
    let athlete_id = match lookup(pairs, &String::from_str("AthleteID")) {
        Some(value) => value,
        None => {
            return Err(DecodeError::MissingField);
        },
    };
    let run_time = match lookup(pairs, &String::from_str("RunTime")) {
        Some(value) => value,
        None => {
            return Err(DecodeError::MissingField);
        },
    };
    let was_pb_run = match lookup(pairs, &String::from_str("WasPbRun")) {
        Some(value) => value,
        None => {
            return Err(DecodeError::MissingField);
        },
    };
    let age_grading = match lookup(pairs, &String::from_str("AgeGrading")) {
        Some(value) => value,
        None => {
            return Err(DecodeError::MissingField);
        },
    };
    let age_category = match lookup(pairs, &String::from_str("AgeCategory")) {
        Some(value) => value,
        None => {
            return Err(DecodeError::MissingField);
        },
    };
    let first_timer = match lookup(pairs, &String::from_str("FirstTimer")) {
        Some(value) => value,
        None => {
            return Err(DecodeError::MissingField);
        },
    };
    let genuine_pb = match lookup(pairs, &String::from_str("GenuinePB")) {
        Some(value) => value,
        None => {
            return Err(DecodeError::MissingField);
        },
    };
    let updated = match lookup(pairs, &String::from_str("Updated")) {
        Some(value) => value,
        None => {
            return Err(DecodeError::MissingField);
        },
    };
    let assisted = lookup(pairs, &String::from_str("Assisted"));
    let record = RunResult {
        series_id,
        event_number,
        run_id,
        finish_position,
        gender_position,
        event_date,
        athlete_id,
        run_time,
        was_pb_run,
        age_grading,
        age_category,
        first_timer,
        genuine_pb,
        updated,
        assisted,
    };
    proof {
        assert(run_result_from_wire(pairs.deep_view())->0 =~= record@);
    }
    Ok(record)
}

/// Round trip: encoding a record and decoding the pairs yields the
/// record back, field for field.
#[verifier::rlimit(50)]
pub proof fn lemma_run_result_round_trip(v: RunResultView)
    ensures
        run_result_from_wire(run_result_wire(v)) == Some(v),
{
    reveal_strlit("SeriesID");
    reveal_strlit("EventNumber");
    reveal_strlit("RunId");
    reveal_strlit("FinishPosition");
    reveal_strlit("GenderPosition");
    reveal_strlit("EventDate");
    reveal_strlit("AthleteID");
    reveal_strlit("RunTime");
    reveal_strlit("WasPbRun");
    reveal_strlit("AgeGrading");
    reveal_strlit("AgeCategory");
    reveal_strlit("FirstTimer");
    reveal_strlit("GenuinePB");
    reveal_strlit("Updated");
    reveal_strlit("Assisted");
    reveal_with_fuel(lookup_pair, 16);
    // the lengths of the wire keys
    assert("SeriesID"@.len() == 8);
    assert("EventNumber"@.len() == 11);
    assert("RunId"@.len() == 5);
    assert("FinishPosition"@.len() == 14);
    assert("GenderPosition"@.len() == 14);
    assert("EventDate"@.len() == 9);
    assert("AthleteID"@.len() == 9);
    assert("RunTime"@.len() == 7);
    assert("WasPbRun"@.len() == 8);
    assert("AgeGrading"@.len() == 10);
    assert("AgeCategory"@.len() == 11);
    assert("FirstTimer"@.len() == 10);
    assert("GenuinePB"@.len() == 9);
    assert("Updated"@.len() == 7);
    assert("Assisted"@.len() == 8);
    // the wire keys of equal length differ in an early character
    assert("SeriesID"@[0] == 'S' && "WasPbRun"@[0] == 'W');
    assert("SeriesID"@[0] == 'S' && "Assisted"@[0] == 'A');
    assert("WasPbRun"@[0] == 'W' && "Assisted"@[0] == 'A');
    assert("EventNumber"@[0] == 'E' && "AgeCategory"@[0] == 'A');
    assert("FinishPosition"@[0] == 'F' && "GenderPosition"@[0] == 'G');
    assert("EventDate"@[0] == 'E' && "AthleteID"@[0] == 'A');
    assert("EventDate"@[0] == 'E' && "GenuinePB"@[0] == 'G');
    assert("AthleteID"@[0] == 'A' && "GenuinePB"@[0] == 'G');
    assert("RunTime"@[0] == 'R' && "Updated"@[0] == 'U');
    assert("AgeGrading"@[0] == 'A' && "FirstTimer"@[0] == 'F');
    // so all wire keys are pairwise distinct
    assert("SeriesID"@ != "EventNumber"@);
    assert("SeriesID"@ != "RunId"@ && "EventNumber"@ != "RunId"@);
    assert("SeriesID"@ != "FinishPosition"@ && "EventNumber"@ != "FinishPosition"@ && "RunId"@ != "FinishPosition"@);
    assert("SeriesID"@ != "GenderPosition"@ && "EventNumber"@ != "GenderPosition"@ && "RunId"@ != "GenderPosition"@ && "FinishPosition"@ != "GenderPosition"@);
    assert("SeriesID"@ != "EventDate"@ && "EventNumber"@ != "EventDate"@ && "RunId"@ != "EventDate"@ && "FinishPosition"@ != "EventDate"@ && "GenderPosition"@ != "EventDate"@);
    assert("SeriesID"@ != "AthleteID"@ && "EventNumber"@ != "AthleteID"@ && "RunId"@ != "AthleteID"@ && "FinishPosition"@ != "AthleteID"@ && "GenderPosition"@ != "AthleteID"@ && "EventDate"@ != "AthleteID"@);
    assert("SeriesID"@ != "RunTime"@ && "EventNumber"@ != "RunTime"@ && "RunId"@ != "RunTime"@ && "FinishPosition"@ != "RunTime"@ && "GenderPosition"@ != "RunTime"@ && "EventDate"@ != "RunTime"@ && "AthleteID"@ != "RunTime"@);
    assert("SeriesID"@ != "WasPbRun"@ && "EventNumber"@ != "WasPbRun"@ && "RunId"@ != "WasPbRun"@ && "FinishPosition"@ != "WasPbRun"@ && "GenderPosition"@ != "WasPbRun"@ && "EventDate"@ != "WasPbRun"@ && "AthleteID"@ != "WasPbRun"@ && "RunTime"@ != "WasPbRun"@);
    assert("SeriesID"@ != "AgeGrading"@ && "EventNumber"@ != "AgeGrading"@ && "RunId"@ != "AgeGrading"@ && "FinishPosition"@ != "AgeGrading"@ && "GenderPosition"@ != "AgeGrading"@ && "EventDate"@ != "AgeGrading"@ && "AthleteID"@ != "AgeGrading"@ && "RunTime"@ != "AgeGrading"@ && "WasPbRun"@ != "AgeGrading"@);
    assert("SeriesID"@ != "AgeCategory"@ && "EventNumber"@ != "AgeCategory"@ && "RunId"@ != "AgeCategory"@ && "FinishPosition"@ != "AgeCategory"@ && "GenderPosition"@ != "AgeCategory"@ && "EventDate"@ != "AgeCategory"@ && "AthleteID"@ != "AgeCategory"@ && "RunTime"@ != "AgeCategory"@ && "WasPbRun"@ != "AgeCategory"@ && "AgeGrading"@ != "AgeCategory"@);
    assert("SeriesID"@ != "FirstTimer"@ && "EventNumber"@ != "FirstTimer"@ && "RunId"@ != "FirstTimer"@ && "FinishPosition"@ != "FirstTimer"@ && "GenderPosition"@ != "FirstTimer"@ && "EventDate"@ != "FirstTimer"@ && "AthleteID"@ != "FirstTimer"@ && "RunTime"@ != "FirstTimer"@ && "WasPbRun"@ != "FirstTimer"@ && "AgeGrading"@ != "FirstTimer"@ && "AgeCategory"@ != "FirstTimer"@);
    assert("SeriesID"@ != "GenuinePB"@ && "EventNumber"@ != "GenuinePB"@ && "RunId"@ != "GenuinePB"@ && "FinishPosition"@ != "GenuinePB"@ && "GenderPosition"@ != "GenuinePB"@ && "EventDate"@ != "GenuinePB"@ && "AthleteID"@ != "GenuinePB"@ && "RunTime"@ != "GenuinePB"@ && "WasPbRun"@ != "GenuinePB"@ && "AgeGrading"@ != "GenuinePB"@ && "AgeCategory"@ != "GenuinePB"@ && "FirstTimer"@ != "GenuinePB"@);
    assert("SeriesID"@ != "Updated"@ && "EventNumber"@ != "Updated"@ && "RunId"@ != "Updated"@ && "FinishPosition"@ != "Updated"@ && "GenderPosition"@ != "Updated"@ && "EventDate"@ != "Updated"@ && "AthleteID"@ != "Updated"@ && "RunTime"@ != "Updated"@ && "WasPbRun"@ != "Updated"@ && "AgeGrading"@ != "Updated"@ && "AgeCategory"@ != "Updated"@ && "FirstTimer"@ != "Updated"@ && "GenuinePB"@ != "Updated"@);
    assert("SeriesID"@ != "Assisted"@ && "EventNumber"@ != "Assisted"@ && "RunId"@ != "Assisted"@ && "FinishPosition"@ != "Assisted"@ && "GenderPosition"@ != "Assisted"@ && "EventDate"@ != "Assisted"@ && "AthleteID"@ != "Assisted"@ && "RunTime"@ != "Assisted"@ && "WasPbRun"@ != "Assisted"@ && "AgeGrading"@ != "Assisted"@ && "AgeCategory"@ != "Assisted"@ && "FirstTimer"@ != "Assisted"@ && "GenuinePB"@ != "Assisted"@ && "Updated"@ != "Assisted"@);
    let base = run_result_wire_required(v);
    assert(lookup_pair(base, "SeriesID"@) == Some(v.series_id));
    assert(lookup_pair(base, "EventNumber"@) == Some(v.event_number));
    assert(lookup_pair(base, "RunId"@) == Some(v.run_id));
    assert(lookup_pair(base, "FinishPosition"@) == Some(v.finish_position));
    assert(lookup_pair(base, "GenderPosition"@) == Some(v.gender_position));
    assert(lookup_pair(base, "EventDate"@) == Some(v.event_date));
    assert(lookup_pair(base, "AthleteID"@) == Some(v.athlete_id));
    assert(lookup_pair(base, "RunTime"@) == Some(v.run_time));
    assert(lookup_pair(base, "WasPbRun"@) == Some(v.was_pb_run));
    assert(lookup_pair(base, "AgeGrading"@) == Some(v.age_grading));
    assert(lookup_pair(base, "AgeCategory"@) == Some(v.age_category));
    assert(lookup_pair(base, "FirstTimer"@) == Some(v.first_timer));
    assert(lookup_pair(base, "GenuinePB"@) == Some(v.genuine_pb));
    assert(lookup_pair(base, "Updated"@) == Some(v.updated));
    assert(lookup_pair(base, "Assisted"@) is None);
    match v.assisted {
        Some(value) => {
            let tail = seq![("Assisted"@, value)];
            assert(run_result_wire(v) =~= base + tail);
            lemma_lookup_pair_append(base, tail, "SeriesID"@);
            lemma_lookup_pair_append(base, tail, "EventNumber"@);
            lemma_lookup_pair_append(base, tail, "RunId"@);
            lemma_lookup_pair_append(base, tail, "FinishPosition"@);
            lemma_lookup_pair_append(base, tail, "GenderPosition"@);
            lemma_lookup_pair_append(base, tail, "EventDate"@);
            lemma_lookup_pair_append(base, tail, "AthleteID"@);
            lemma_lookup_pair_append(base, tail, "RunTime"@);
            lemma_lookup_pair_append(base, tail, "WasPbRun"@);
            lemma_lookup_pair_append(base, tail, "AgeGrading"@);
            lemma_lookup_pair_append(base, tail, "AgeCategory"@);
            lemma_lookup_pair_append(base, tail, "FirstTimer"@);
            lemma_lookup_pair_append(base, tail, "GenuinePB"@);
            lemma_lookup_pair_append(base, tail, "Updated"@);
            lemma_lookup_pair_append(base, tail, "Assisted"@);
            assert(lookup_pair(tail, "Assisted"@) == Some(value));
        },
        None => {},
    }
    assert(run_result_from_wire(run_result_wire(v)) is Some);
    assert(run_result_from_wire(run_result_wire(v))->0 =~= v);
}
/// The wire pairs of the record's required fields, in canonical order.
pub open spec fn event_wire_required(v: EventView) -> Seq<(Seq<char>, Seq<char>)> {
    seq![
        ("EventNumber"@, v.event_number),
        ("EventName"@, v.event_name),
        ("EventShortName"@, v.event_short_name),
        ("EventLongName"@, v.event_long_name),
        ("EventLocation"@, v.event_location),
        ("CountryCode"@, v.country_code),
        ("PreferredLanguage"@, v.preferred_language),
        ("SeriesID"@, v.series_id),
        ("NextAnniversary"@, v.next_anniversary),
        ("HomeRunSelection"@, v.home_run_selection),
        ("StatusLive"@, v.status_live),
        ("AnniversarySaturdayOfMonth"@, v.anniversary_saturday_of_month),
        ("EventStatus"@, v.event_status),
        ("AccessibleToPublic"@, v.accessible_to_public),
    ]
}

/// The wire pairs of a record; the optional `user_favourite` field is
/// encoded last, and only when present.
pub open spec fn event_wire(v: EventView) -> Seq<(Seq<char>, Seq<char>)> {
    match v.user_favourite {
        Some(value) => event_wire_required(v).push(("UserFavourite"@, value)),
        None => event_wire_required(v),
    }
}

/// The record a set of wire pairs stands for, if every required field
/// is present.
pub open spec fn event_from_wire(ps: Seq<(Seq<char>, Seq<char>)>) -> Option<EventView> {
    if lookup_pair(ps, "EventNumber"@) is Some
        && lookup_pair(ps, "EventName"@) is Some
        && lookup_pair(ps, "EventShortName"@) is Some
        && lookup_pair(ps, "EventLongName"@) is Some
        && lookup_pair(ps, "EventLocation"@) is Some
        && lookup_pair(ps, "CountryCode"@) is Some
        && lookup_pair(ps, "PreferredLanguage"@) is Some
        && lookup_pair(ps, "SeriesID"@) is Some
        && lookup_pair(ps, "NextAnniversary"@) is Some
        && lookup_pair(ps, "HomeRunSelection"@) is Some
        && lookup_pair(ps, "StatusLive"@) is Some
        && lookup_pair(ps, "AnniversarySaturdayOfMonth"@) is Some
        && lookup_pair(ps, "EventStatus"@) is Some
        && lookup_pair(ps, "AccessibleToPublic"@) is Some {
        Some(
            EventView {
                event_number: lookup_pair(ps, "EventNumber"@)->0,
                event_name: lookup_pair(ps, "EventName"@)->0,
                event_short_name: lookup_pair(ps, "EventShortName"@)->0,
                event_long_name: lookup_pair(ps, "EventLongName"@)->0,
                event_location: lookup_pair(ps, "EventLocation"@)->0,
                country_code: lookup_pair(ps, "CountryCode"@)->0,
                preferred_language: lookup_pair(ps, "PreferredLanguage"@)->0,
                series_id: lookup_pair(ps, "SeriesID"@)->0,
                next_anniversary: lookup_pair(ps, "NextAnniversary"@)->0,
                home_run_selection: lookup_pair(ps, "HomeRunSelection"@)->0,
                status_live: lookup_pair(ps, "StatusLive"@)->0,
                anniversary_saturday_of_month: lookup_pair(ps, "AnniversarySaturdayOfMonth"@)->0,
                event_status: lookup_pair(ps, "EventStatus"@)->0,
                accessible_to_public: lookup_pair(ps, "AccessibleToPublic"@)->0,
                user_favourite: lookup_pair(ps, "UserFavourite"@),
            },
        )
    } else {
        None
    }
}

/// Encodes a record into its wire pairs.
pub fn encode_event(record: &Event) -> (r: Vec<(String, String)>)
    ensures
        r.deep_view() == event_wire(record@),
{
    let mut r: Vec<(String, String)> = Vec::new();
    r.push((String::from_str("EventNumber"), record.event_number.clone()));
    r.push((String::from_str("EventName"), record.event_name.clone()));
    r.push((String::from_str("EventShortName"), record.event_short_name.clone()));
    r.push((String::from_str("EventLongName"), record.event_long_name.clone()));
    r.push((String::from_str("EventLocation"), record.event_location.clone()));
    r.push((String::from_str("CountryCode"), record.country_code.clone()));
    r.push((String::from_str("PreferredLanguage"), record.preferred_language.clone()));
    r.push((String::from_str("SeriesID"), record.series_id.clone()));
    r.push((String::from_str("NextAnniversary"), record.next_anniversary.clone()));
    r.push((String::from_str("HomeRunSelection"), record.home_run_selection.clone()));
    r.push((String::from_str("StatusLive"), record.status_live.clone()));
    r.push((String::from_str("AnniversarySaturdayOfMonth"), record.anniversary_saturday_of_month.clone()));
    r.push((String::from_str("EventStatus"), record.event_status.clone()));
    r.push((String::from_str("AccessibleToPublic"), record.accessible_to_public.clone()));
    match &record.user_favourite {
        Some(value) => {
            r.push((String::from_str("UserFavourite"), value.clone()));
            proof {
                assert(r.deep_view() =~= event_wire(record@));
            }
        },
        None => {
            proof {
                assert(r.deep_view() =~= event_wire(record@));
            }
        },
    }
    r
}

/// Decodes a record from its wire pairs; fails exactly when a required
/// field is absent.
pub fn decode_event(pairs: &Vec<(String, String)>) -> (r: Result<Event, DecodeError>)
    ensures
        match r {
            Ok(record) => event_from_wire(pairs.deep_view()) == Some(record@),
            Err(e) => e == DecodeError::MissingField && event_from_wire(
                pairs.deep_view(),
            ) is None,
        },
{
    let event_number = match lookup(pairs, &String::from_str("EventNumber")) {
        Some(value) => value,
        None => {
            return Err(DecodeError::MissingField);
        },
    };
    let event_name = match lookup(pairs, &String::from_str("EventName")) {
        Some(value) => value,
        None => {
            return Err(DecodeError::MissingField);
        },
    };
    let event_short_name = match lookup(pairs, &String::from_str("EventShortName")) {
        Some(value) => value,
        None => {
            return Err(DecodeError::MissingField);
        },
    };
    let event_long_name = match lookup(pairs, &String::from_str("EventLongName")) {
        Some(value) => value,
        None => {
            return Err(DecodeError::MissingField);
        },
    };
    let event_location = match lookup(pairs, &String::from_str("EventLocation")) {
        Some(value) => value,
        None => {
            return Err(DecodeError::MissingField);
        },
    };
    let country_code = match lookup(pairs, &String::from_str("CountryCode")) {
        Some(value) => value,
        None => {
            return Err(DecodeError::MissingField);
        },
    };
    let preferred_language = match lookup(pairs, &String::from_str("PreferredLanguage")) {
        Some(value) => value,
        None => {
            return Err(DecodeError::MissingField);
        },
    };
    let series_id = match lookup(pairs, &String::from_str("SeriesID")) {
        Some(value) => value,
        None => {
            return Err(DecodeError::MissingField);
        },
    };
    let next_anniversary = match lookup(pairs, &String::from_str("NextAnniversary")) {
        Some(value) => value,
        None => {
            return Err(DecodeError::MissingField);
        },
    };
    let home_run_selection = match lookup(pairs, &String::from_str("HomeRunSelection")) {
        Some(value) => value,
        None => {
            return Err(DecodeError::MissingField);
        },
    };
    let status_live = match lookup(pairs, &String::from_str("StatusLive")) {
        Some(value) => value,
        None => {
            return Err(DecodeError::MissingField);
        },
    };
    let anniversary_saturday_of_month = match lookup(pairs, &String::from_str("AnniversarySaturdayOfMonth")) {
        Some(value) => value,
        None => {
            return Err(DecodeError::MissingField);
        },
    };
    let event_status = match lookup(pairs, &String::from_str("EventStatus")) {
        Some(value) => value,
        None => {
            return Err(DecodeError::MissingField);
        },
    };
    let accessible_to_public = match lookup(pairs, &String::from_str("AccessibleToPublic")) {
        Some(value) => value,
        None => {
            return Err(DecodeError::MissingField);
        },
    };
    let user_favourite = lookup(pairs, &String::from_str("UserFavourite"));
    let record = Event {
        event_number,
        event_name,
        event_short_name,
        event_long_name,
        event_location,
        country_code,
        preferred_language,
        series_id,
        next_anniversary,
        home_run_selection,
        status_live,
        anniversary_saturday_of_month,
        event_status,
        accessible_to_public,
        user_favourite,
    };
    proof {
        assert(event_from_wire(pairs.deep_view())->0 =~= record@);
    }
    Ok(record)
}

/// Round trip: encoding a record and decoding the pairs yields the
/// record back, field for field.
#[verifier::rlimit(50)]
pub proof fn lemma_event_round_trip(v: EventView)
    ensures
        event_from_wire(event_wire(v)) == Some(v),
{
    reveal_strlit("EventNumber");
    reveal_strlit("EventName");
    reveal_strlit("EventShortName");
    reveal_strlit("EventLongName");
    reveal_strlit("EventLocation");
    reveal_strlit("CountryCode");
    reveal_strlit("PreferredLanguage");
    reveal_strlit("SeriesID");
    reveal_strlit("NextAnniversary");
    reveal_strlit("HomeRunSelection");
    reveal_strlit("StatusLive");
    reveal_strlit("AnniversarySaturdayOfMonth");
    reveal_strlit("EventStatus");
    reveal_strlit("AccessibleToPublic");
    reveal_strlit("UserFavourite");
    reveal_with_fuel(lookup_pair, 16);
    // the lengths of the wire keys
    assert("EventNumber"@.len() == 11);
    assert("EventName"@.len() == 9);
    assert("EventShortName"@.len() == 14);
    assert("EventLongName"@.len() == 13);
    assert("EventLocation"@.len() == 13);
    assert("CountryCode"@.len() == 11);
    assert("PreferredLanguage"@.len() == 17);
    assert("SeriesID"@.len() == 8);
    assert("NextAnniversary"@.len() == 15);
    assert("HomeRunSelection"@.len() == 16);
    assert("StatusLive"@.len() == 10);
    assert("AnniversarySaturdayOfMonth"@.len() == 26);
    assert("EventStatus"@.len() == 11);
    assert("AccessibleToPublic"@.len() == 18);
    assert("UserFavourite"@.len() == 13);
    // the wire keys of equal length differ in an early character
    assert("EventNumber"@[0] == 'E' && "CountryCode"@[0] == 'C');
    assert("EventNumber"@[5] == 'N' && "EventStatus"@[5] == 'S');
    assert("CountryCode"@[0] == 'C' && "EventStatus"@[0] == 'E');
    assert("EventLongName"@[7] == 'n' && "EventLocation"@[7] == 'c');
    assert("EventLongName"@[0] == 'E' && "UserFavourite"@[0] == 'U');
    assert("EventLocation"@[0] == 'E' && "UserFavourite"@[0] == 'U');
    // so all wire keys are pairwise distinct
    assert("EventNumber"@ != "EventName"@);
    assert("EventNumber"@ != "EventShortName"@ && "EventName"@ != "EventShortName"@);
    assert("EventNumber"@ != "EventLongName"@ && "EventName"@ != "EventLongName"@ && "EventShortName"@ != "EventLongName"@);
    assert("EventNumber"@ != "EventLocation"@ && "EventName"@ != "EventLocation"@ && "EventShortName"@ != "EventLocation"@ && "EventLongName"@ != "EventLocation"@);
    assert("EventNumber"@ != "CountryCode"@ && "EventName"@ != "CountryCode"@ && "EventShortName"@ != "CountryCode"@ && "EventLongName"@ != "CountryCode"@ && "EventLocation"@ != "CountryCode"@);
    assert("EventNumber"@ != "PreferredLanguage"@ && "EventName"@ != "PreferredLanguage"@ && "EventShortName"@ != "PreferredLanguage"@ && "EventLongName"@ != "PreferredLanguage"@ && "EventLocation"@ != "PreferredLanguage"@ && "CountryCode"@ != "PreferredLanguage"@);
    assert("EventNumber"@ != "SeriesID"@ && "EventName"@ != "SeriesID"@ && "EventShortName"@ != "SeriesID"@ && "EventLongName"@ != "SeriesID"@ && "EventLocation"@ != "SeriesID"@ && "CountryCode"@ != "SeriesID"@ && "PreferredLanguage"@ != "SeriesID"@);
    assert("EventNumber"@ != "NextAnniversary"@ && "EventName"@ != "NextAnniversary"@ && "EventShortName"@ != "NextAnniversary"@ && "EventLongName"@ != "NextAnniversary"@ && "EventLocation"@ != "NextAnniversary"@ && "CountryCode"@ != "NextAnniversary"@ && "PreferredLanguage"@ != "NextAnniversary"@ && "SeriesID"@ != "NextAnniversary"@);
    assert("EventNumber"@ != "HomeRunSelection"@ && "EventName"@ != "HomeRunSelection"@ && "EventShortName"@ != "HomeRunSelection"@ && "EventLongName"@ != "HomeRunSelection"@ && "EventLocation"@ != "HomeRunSelection"@ && "CountryCode"@ != "HomeRunSelection"@ && "PreferredLanguage"@ != "HomeRunSelection"@ && "SeriesID"@ != "HomeRunSelection"@ && "NextAnniversary"@ != "HomeRunSelection"@);
    assert("EventNumber"@ != "StatusLive"@ && "EventName"@ != "StatusLive"@ && "EventShortName"@ != "StatusLive"@ && "EventLongName"@ != "StatusLive"@ && "EventLocation"@ != "StatusLive"@ && "CountryCode"@ != "StatusLive"@ && "PreferredLanguage"@ != "StatusLive"@ && "SeriesID"@ != "StatusLive"@ && "NextAnniversary"@ != "StatusLive"@ && "HomeRunSelection"@ != "StatusLive"@);
    assert("EventNumber"@ != "AnniversarySaturdayOfMonth"@ && "EventName"@ != "AnniversarySaturdayOfMonth"@ && "EventShortName"@ != "AnniversarySaturdayOfMonth"@ && "EventLongName"@ != "AnniversarySaturdayOfMonth"@ && "EventLocation"@ != "AnniversarySaturdayOfMonth"@ && "CountryCode"@ != "AnniversarySaturdayOfMonth"@ && "PreferredLanguage"@ != "AnniversarySaturdayOfMonth"@ && "SeriesID"@ != "AnniversarySaturdayOfMonth"@ && "NextAnniversary"@ != "AnniversarySaturdayOfMonth"@ && "HomeRunSelection"@ != "AnniversarySaturdayOfMonth"@ && "StatusLive"@ != "AnniversarySaturdayOfMonth"@);
    assert("EventNumber"@ != "EventStatus"@ && "EventName"@ != "EventStatus"@ && "EventShortName"@ != "EventStatus"@ && "EventLongName"@ != "EventStatus"@ && "EventLocation"@ != "EventStatus"@ && "CountryCode"@ != "EventStatus"@ && "PreferredLanguage"@ != "EventStatus"@ && "SeriesID"@ != "EventStatus"@ && "NextAnniversary"@ != "EventStatus"@ && "HomeRunSelection"@ != "EventStatus"@ && "StatusLive"@ != "EventStatus"@ && "AnniversarySaturdayOfMonth"@ != "EventStatus"@);
    assert("EventNumber"@ != "AccessibleToPublic"@ && "EventName"@ != "AccessibleToPublic"@ && "EventShortName"@ != "AccessibleToPublic"@ && "EventLongName"@ != "AccessibleToPublic"@ && "EventLocation"@ != "AccessibleToPublic"@ && "CountryCode"@ != "AccessibleToPublic"@ && "PreferredLanguage"@ != "AccessibleToPublic"@ && "SeriesID"@ != "AccessibleToPublic"@ && "NextAnniversary"@ != "AccessibleToPublic"@ && "HomeRunSelection"@ != "AccessibleToPublic"@ && "StatusLive"@ != "AccessibleToPublic"@ && "AnniversarySaturdayOfMonth"@ != "AccessibleToPublic"@ && "EventStatus"@ != "AccessibleToPublic"@);
    assert("EventNumber"@ != "UserFavourite"@ && "EventName"@ != "UserFavourite"@ && "EventShortName"@ != "UserFavourite"@ && "EventLongName"@ != "UserFavourite"@ && "EventLocation"@ != "UserFavourite"@ && "CountryCode"@ != "UserFavourite"@ && "PreferredLanguage"@ != "UserFavourite"@ && "SeriesID"@ != "UserFavourite"@ && "NextAnniversary"@ != "UserFavourite"@ && "HomeRunSelection"@ != "UserFavourite"@ && "StatusLive"@ != "UserFavourite"@ && "AnniversarySaturdayOfMonth"@ != "UserFavourite"@ && "EventStatus"@ != "UserFavourite"@ && "AccessibleToPublic"@ != "UserFavourite"@);
    let base = event_wire_required(v);
    assert(lookup_pair(base, "EventNumber"@) == Some(v.event_number));
    assert(lookup_pair(base, "EventName"@) == Some(v.event_name));
    assert(lookup_pair(base, "EventShortName"@) == Some(v.event_short_name));
    assert(lookup_pair(base, "EventLongName"@) == Some(v.event_long_name));
    assert(lookup_pair(base, "EventLocation"@) == Some(v.event_location));
    assert(lookup_pair(base, "CountryCode"@) == Some(v.country_code));
    assert(lookup_pair(base, "PreferredLanguage"@) == Some(v.preferred_language));
    assert(lookup_pair(base, "SeriesID"@) == Some(v.series_id));
    assert(lookup_pair(base, "NextAnniversary"@) == Some(v.next_anniversary));
    assert(lookup_pair(base, "HomeRunSelection"@) == Some(v.home_run_selection));
    assert(lookup_pair(base, "StatusLive"@) == Some(v.status_live));
    assert(lookup_pair(base, "AnniversarySaturdayOfMonth"@) == Some(v.anniversary_saturday_of_month));
    assert(lookup_pair(base, "EventStatus"@) == Some(v.event_status));
    assert(lookup_pair(base, "AccessibleToPublic"@) == Some(v.accessible_to_public));
    assert(lookup_pair(base, "UserFavourite"@) is None);
    match v.user_favourite {
        Some(value) => {
            let tail = seq![("UserFavourite"@, value)];
            assert(event_wire(v) =~= base + tail);
            lemma_lookup_pair_append(base, tail, "EventNumber"@);
            lemma_lookup_pair_append(base, tail, "EventName"@);
            lemma_lookup_pair_append(base, tail, "EventShortName"@);
            lemma_lookup_pair_append(base, tail, "EventLongName"@);
            lemma_lookup_pair_append(base, tail, "EventLocation"@);
            lemma_lookup_pair_append(base, tail, "CountryCode"@);
            lemma_lookup_pair_append(base, tail, "PreferredLanguage"@);
            lemma_lookup_pair_append(base, tail, "SeriesID"@);
            lemma_lookup_pair_append(base, tail, "NextAnniversary"@);
            lemma_lookup_pair_append(base, tail, "HomeRunSelection"@);
            lemma_lookup_pair_append(base, tail, "StatusLive"@);
            lemma_lookup_pair_append(base, tail, "AnniversarySaturdayOfMonth"@);
            lemma_lookup_pair_append(base, tail, "EventStatus"@);
            lemma_lookup_pair_append(base, tail, "AccessibleToPublic"@);
            lemma_lookup_pair_append(base, tail, "UserFavourite"@);
            assert(lookup_pair(tail, "UserFavourite"@) == Some(value));
        },
        None => {},
    }
    assert(event_from_wire(event_wire(v)) is Some);
    assert(event_from_wire(event_wire(v))->0 =~= v);
}
} // verus!
