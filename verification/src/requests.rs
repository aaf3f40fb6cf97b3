//! Aggregate statistics over fetched run results.
//!
//! Pure functions over an in-memory sequence of already-fetched records:
//! no I/O, and nothing cached.  Times are in seconds throughout.

use vstd::prelude::*;

use crate::models::{duration_secs, RunResult};
use crate::text::{all_digits, dec_digits, dec_str, digits_val, padded2_digits, padded2_str};

verus! {

/// The duration of one result, in seconds.
pub open spec fn result_duration(r: RunResult) -> nat {
    duration_secs(r.run_time@)
}

/// The pace of one result, in seconds per kilometre (over the fixed
/// five-kilometre distance).
pub open spec fn result_pace(r: RunResult) -> nat {
    result_duration(r) / 5
}

/// The sum of the results' durations.
pub open spec fn total_secs(rs: Seq<RunResult>) -> nat
    decreases rs.len(),
{
    if rs.len() == 0 {
        0
    } else {
        total_secs(rs.drop_last()) + result_duration(rs.last())
    }
}

/// The sum of the results' paces.
pub open spec fn total_pace(rs: Seq<RunResult>) -> nat
    decreases rs.len(),
{
    if rs.len() == 0 {
        0
    } else {
        total_pace(rs.drop_last()) + result_pace(rs.last())
    }
}

/// The least of the results' durations.
pub open spec fn min_duration(rs: Seq<RunResult>) -> nat
    recommends
        rs.len() > 0,
    decreases rs.len(),
{
    if rs.len() <= 1 {
        result_duration(rs[0])
    } else {
        let rest = min_duration(rs.drop_last());
        if result_duration(rs.last()) < rest {
            result_duration(rs.last())
        } else {
            rest
        }
    }
}

/// The result's finishing position is a decimal numeral in `u64` range.
pub open spec fn valid_position(r: RunResult) -> bool {
    r.finish_position@.len() > 0 && all_digits(r.finish_position@) && digits_val(
        r.finish_position@,
    ) <= u64::MAX
}

/// The finishing position of one result, as a number.
pub open spec fn result_position(r: RunResult) -> nat {
    digits_val(r.finish_position@)
}

/// The least of the results' finishing positions.
pub open spec fn min_position(rs: Seq<RunResult>) -> nat
    recommends
        rs.len() > 0,
    decreases rs.len(),
{
    if rs.len() <= 1 {
        result_position(rs[0])
    } else {
        let rest = min_position(rs.drop_last());
        if result_position(rs.last()) < rest {
            result_position(rs.last())
        } else {
            rest
        }
    }
}

/// The sum of the results' finishing positions.
pub open spec fn total_position(rs: Seq<RunResult>) -> nat
    decreases rs.len(),
{
    if rs.len() == 0 {
        0
    } else {
        total_position(rs.drop_last()) + result_position(rs.last())
    }
}

/// A prefix's duration sum never exceeds the whole sequence's.
proof fn lemma_total_secs_prefix(rs: Seq<RunResult>, i: int, j: int)
    requires
        0 <= i <= j <= rs.len(),
    ensures
        total_secs(rs.subrange(0, i)) <= total_secs(rs.subrange(0, j)),
    decreases j - i,
{
    if i < j {
        lemma_total_secs_prefix(rs, i, j - 1);
        assert(rs.subrange(0, j).drop_last() =~= rs.subrange(0, j - 1));
    }
}

/// A prefix's pace sum never exceeds the whole sequence's.
proof fn lemma_total_pace_prefix(rs: Seq<RunResult>, i: int, j: int)
    requires
        0 <= i <= j <= rs.len(),
    ensures
        total_pace(rs.subrange(0, i)) <= total_pace(rs.subrange(0, j)),
    decreases j - i,
{
    if i < j {
        lemma_total_pace_prefix(rs, i, j - 1);
        assert(rs.subrange(0, j).drop_last() =~= rs.subrange(0, j - 1));
    }
}

/// A prefix's position sum never exceeds the whole sequence's.
proof fn lemma_total_position_prefix(rs: Seq<RunResult>, i: int, j: int)
    requires
        0 <= i <= j <= rs.len(),
    ensures
        total_position(rs.subrange(0, i)) <= total_position(rs.subrange(0, j)),
    decreases j - i,
{
    if i < j {
        lemma_total_position_prefix(rs, i, j - 1);
        assert(rs.subrange(0, j).drop_last() =~= rs.subrange(0, j - 1));
    }
}

/// `min_duration` is truly the least duration: no result is faster, and
/// some result attains it.
pub proof fn lemma_min_duration_is_least(rs: Seq<RunResult>)
    requires
        rs.len() > 0,
    ensures
        forall|i: int| 0 <= i < rs.len() ==> min_duration(rs) <= result_duration(
            #[trigger] rs[i],
        ),
        exists|i: int| 0 <= i < rs.len() && min_duration(rs) == result_duration(
            #[trigger] rs[i],
        ),
    decreases rs.len(),
{
    if rs.len() == 1 {
        assert(min_duration(rs) == result_duration(rs[0]));
    } else {
        let prefix = rs.drop_last();
        lemma_min_duration_is_least(prefix);
        assert forall|i: int| 0 <= i < rs.len() implies min_duration(rs) <= result_duration(
            #[trigger] rs[i],
        ) by {
            if i < prefix.len() {
                assert(prefix[i] == rs[i]);
            }
        }
        if result_duration(rs.last()) < min_duration(prefix) {
            assert(min_duration(rs) == result_duration(rs[rs.len() - 1]));
        } else {
            let j = choose|j: int|
                0 <= j < prefix.len() && min_duration(prefix) == result_duration(
                    #[trigger] prefix[j],
                );
            assert(rs[j] == prefix[j]);
            assert(min_duration(rs) == result_duration(rs[j]));
        }
    }
}

/// `min_position` is truly the least position: no result finished better,
/// and some result attains it.
pub proof fn lemma_min_position_is_least(rs: Seq<RunResult>)
    requires
        rs.len() > 0,
    ensures
        forall|i: int| 0 <= i < rs.len() ==> min_position(rs) <= result_position(
            #[trigger] rs[i],
        ),
        exists|i: int| 0 <= i < rs.len() && min_position(rs) == result_position(
            #[trigger] rs[i],
        ),
    decreases rs.len(),
{
    if rs.len() == 1 {
        assert(min_position(rs) == result_position(rs[0]));
    } else {
        let prefix = rs.drop_last();
        lemma_min_position_is_least(prefix);
        assert forall|i: int| 0 <= i < rs.len() implies min_position(rs) <= result_position(
            #[trigger] rs[i],
        ) by {
            if i < prefix.len() {
                assert(prefix[i] == rs[i]);
            }
        }
        if result_position(rs.last()) < min_position(prefix) {
            assert(min_position(rs) == result_position(rs[rs.len() - 1]));
        } else {
            let j = choose|j: int|
                0 <= j < prefix.len() && min_position(prefix) == result_position(
                    #[trigger] prefix[j],
                );
            assert(rs[j] == prefix[j]);
            assert(min_position(rs) == result_position(rs[j]));
        }
    }
}

/// The sum of the results' durations, in seconds.
pub fn total_time(results: &[RunResult]) -> (r: u64)
    requires
        total_secs(results@) <= u64::MAX,
    ensures
        r as nat == total_secs(results@),
{
    let n = results.len();
    let mut acc: u64 = 0;
    let mut i: usize = 0;
    while i < n
        invariant
            0 <= i <= n == results@.len(),
            total_secs(results@) <= u64::MAX,
            acc as nat == total_secs(results@.subrange(0, i as int)),
        decreases n - i,
    {
        let d = results[i].duration();
        proof {
            assert(results@.subrange(0, i + 1).drop_last() =~= results@.subrange(0, i as int));
            assert(results@.subrange(0, i + 1).last() == results@[i as int]);
            lemma_total_secs_prefix(results@, i + 1, n as int);
            assert(results@.subrange(0, n as int) =~= results@);
        }
        acc = acc + d;
        i += 1;
    }
    proof {
        assert(results@.subrange(0, n as int) =~= results@);
    }
    acc
}

/// The mean of the results' durations, in seconds, rounded down.
pub fn average_time(results: &[RunResult]) -> (r: u64)
    requires
        results@.len() > 0,
        total_secs(results@) <= u64::MAX,
    ensures
        r as nat == total_secs(results@) / results@.len(),
{
    let total = total_time(results);
    total / (results.len() as u64)
}

/// The least of the results' durations, in seconds.
pub fn fastest_time(results: &[RunResult]) -> (r: u64)
    requires
        results@.len() > 0,
    ensures
        r as nat == min_duration(results@),
{
    let n = results.len();
    let mut best = results[0].duration();
    let mut i: usize = 1;
    proof {
        assert(results@.subrange(0, 1).len() == 1);
        assert(results@.subrange(0, 1)[0] == results@[0]);
    }
    while i < n
        invariant
            1 <= i <= n == results@.len(),
            best as nat == min_duration(results@.subrange(0, i as int)),
        decreases n - i,
    {
        let d = results[i].duration();
        proof {
            assert(results@.subrange(0, i + 1).drop_last() =~= results@.subrange(0, i as int));
            assert(results@.subrange(0, i + 1).last() == results@[i as int]);
        }
        if d < best {
            best = d;
        }
        i += 1;
    }
    proof {
        assert(results@.subrange(0, n as int) =~= results@);
    }
    best
}

/// The least of the results' finishing positions.
pub fn best_finishing_position(results: &[RunResult]) -> (r: u64)
    requires
        results@.len() > 0,
        forall|i: int| 0 <= i < results@.len() ==> valid_position(#[trigger] results@[i]),
    ensures
        r as nat == min_position(results@),
{
    let n = results.len();
    let first = match results[0].position() {
        Ok(p) => p,
        Err(_) => {
            proof {
                assert(false);  // every position is valid, so parsing cannot fail
            }
            0
        },
    };
    let mut best = first;
    let mut i: usize = 1;
    proof {
        assert(results@.subrange(0, 1).len() == 1);
        assert(results@.subrange(0, 1)[0] == results@[0]);
    }
    while i < n
        invariant
            1 <= i <= n == results@.len(),
            forall|k: int| 0 <= k < results@.len() ==> valid_position(#[trigger] results@[k]),
            best as nat == min_position(results@.subrange(0, i as int)),
        decreases n - i,
    {
        let p = match results[i].position() {
            Ok(p) => p,
            Err(_) => {
                proof {
                    assert(false);  // every position is valid, so parsing cannot fail
                }
                0
            },
        };
        proof {
            assert(results@.subrange(0, i + 1).drop_last() =~= results@.subrange(0, i as int));
            assert(results@.subrange(0, i + 1).last() == results@[i as int]);
        }
        if p < best {
            best = p;
        }
        i += 1;
    }
    proof {
        assert(results@.subrange(0, n as int) =~= results@);
    }
    best
}

/// The mean of the results' finishing positions, rounded down.
pub fn average_finishing_position(results: &[RunResult]) -> (r: u64)
    requires
        results@.len() > 0,
        forall|i: int| 0 <= i < results@.len() ==> valid_position(#[trigger] results@[i]),
        total_position(results@) <= u64::MAX,
    ensures
        r as nat == total_position(results@) / results@.len(),
{
    let n = results.len();
    let mut acc: u64 = 0;
    let mut i: usize = 0;
    while i < n
        invariant
            0 <= i <= n == results@.len(),
            forall|k: int| 0 <= k < results@.len() ==> valid_position(#[trigger] results@[k]),
            total_position(results@) <= u64::MAX,
            acc as nat == total_position(results@.subrange(0, i as int)),
        decreases n - i,
    {
        let p = match results[i].position() {
            Ok(p) => p,
            Err(_) => {
                proof {
                    assert(false);  // every position is valid, so parsing cannot fail
                }
                0
            },
        };
        proof {
            assert(results@.subrange(0, i + 1).drop_last() =~= results@.subrange(0, i as int));
            assert(results@.subrange(0, i + 1).last() == results@[i as int]);
            lemma_total_position_prefix(results@, i + 1, n as int);
            assert(results@.subrange(0, n as int) =~= results@);
        }
        acc = acc + p;
        i += 1;
    }
    proof {
        assert(results@.subrange(0, n as int) =~= results@);
    }
    acc / (n as u64)
}

/// The mean of the results' paces, in seconds per kilometre, rounded down.
pub fn average_speed(results: &[RunResult]) -> (r: u64)
    requires
        results@.len() > 0,
        total_pace(results@) <= u64::MAX,
    ensures
        r as nat == total_pace(results@) / results@.len(),
{
    let n = results.len();
    let mut acc: u64 = 0;
    let mut i: usize = 0;
    while i < n
        invariant
            0 <= i <= n == results@.len(),
            total_pace(results@) <= u64::MAX,
            acc as nat == total_pace(results@.subrange(0, i as int)),
        decreases n - i,
    {
        let p = results[i].speed();
        proof {
            assert(results@.subrange(0, i + 1).drop_last() =~= results@.subrange(0, i as int));
            assert(results@.subrange(0, i + 1).last() == results@[i as int]);
            lemma_total_pace_prefix(results@, i + 1, n as int);
            assert(results@.subrange(0, n as int) =~= results@);
        }
        acc = acc + p;
        i += 1;
    }
    proof {
        assert(results@.subrange(0, n as int) =~= results@);
    }
    acc / (n as u64)
}

/// Over results of one identical duration `d`, the average pace is exactly
/// `d / 5`: the pace sum is the count times `d / 5`, and the mean gives
/// `d / 5` back.
pub proof fn lemma_uniform_average_speed(rs: Seq<RunResult>, d: nat)
    requires
        rs.len() > 0,
        forall|i: int| 0 <= i < rs.len() ==> result_duration(#[trigger] rs[i]) == d,
    ensures
        total_pace(rs) == rs.len() * (d / 5),
        total_pace(rs) / rs.len() == d / 5,
{
    lemma_uniform_total_pace(rs, d);
    vstd::arithmetic::div_mod::lemma_div_multiples_vanish(
        (d / 5) as int,
        rs.len() as int,
    );
}

/// Over results of one identical duration `d`, the pace sum is the count
/// times `d / 5`.
proof fn lemma_uniform_total_pace(rs: Seq<RunResult>, d: nat)
    requires
        forall|i: int| 0 <= i < rs.len() ==> result_duration(#[trigger] rs[i]) == d,
    ensures
        total_pace(rs) == rs.len() * (d / 5),
    decreases rs.len(),
{
    if rs.len() > 0 {
        assert forall|i: int| 0 <= i < rs.drop_last().len() implies result_duration(
            #[trigger] rs.drop_last()[i],
        ) == d by {
            assert(rs.drop_last()[i] == rs[i]);
        }
        lemma_uniform_total_pace(rs.drop_last(), d);
        assert(result_duration(rs.last()) == d);
        assert(rs.len() * (d / 5) == rs.drop_last().len() * (d / 5) + d / 5) by (nonlinear_arith)
            requires
                rs.len() > 0,
                rs.drop_last().len() == rs.len() - 1,
        ;
    }
}

/// True when some result's event number reads exactly `s`.
pub open spec fn some_result_event_number(rs: Seq<RunResult>, s: Seq<char>) -> bool {
    exists|k: int| 0 <= k < rs.len() && (#[trigger] rs[k]).event_number@ == s
}

/// True when `v` holds a string whose characters are exactly `s`.
pub open spec fn contains_str(v: Seq<Seq<char>>, s: Seq<char>) -> bool {
    exists|i: int| 0 <= i < v.len() && v[i] == s
}

fn vec_contains_string(v: &Vec<String>, s: &String) -> (r: bool)
    ensures
        r == contains_str(v.deep_view(), s@),
{
    let n = v.len();
    let mut i: usize = 0;
    while i < n
        invariant
            0 <= i <= n == v.len(),
            forall|j: int| 0 <= j < i ==> v.deep_view()[j] != s@,
        decreases n - i,
    {
        proof {
            assert(v.deep_view()[i as int] == v@[i as int]@);
        }
        if v[i] == *s {
            return true;
        }
        i += 1;
    }
    false
}

/// The distinct event numbers among the results: each event number of a
/// result appears exactly once, and nothing else appears.
pub fn events(results: &[RunResult]) -> (r: Vec<String>)
    ensures
        forall|i: int, j: int| 0 <= i < j < r.deep_view().len() ==> r.deep_view()[i]
            != r.deep_view()[j],
        forall|i: int|
            #![trigger r.deep_view()[i]]
            0 <= i < r.deep_view().len() ==> some_result_event_number(
                results@,
                r.deep_view()[i],
            ),
        forall|k: int| 0 <= k < results@.len() ==> contains_str(
            r.deep_view(),
            (#[trigger] results@[k]).event_number@,
        ),
{
    let n = results.len();
    let mut seen: Vec<String> = Vec::new();
    let mut i: usize = 0;
    while i < n
        invariant
            0 <= i <= n == results@.len(),
            forall|a: int, b: int| 0 <= a < b < seen.deep_view().len() ==> seen.deep_view()[a]
                != seen.deep_view()[b],
            forall|a: int|
                #![trigger seen.deep_view()[a]]
                0 <= a < seen.deep_view().len() ==> some_result_event_number(
                    results@,
                    seen.deep_view()[a],
                ),
            forall|k: int| 0 <= k < i ==> contains_str(
                seen.deep_view(),
                (#[trigger] results@[k]).event_number@,
            ),
        decreases n - i,
    {
        let number = &results[i].event_number;
        let ghost prior = seen.deep_view();
        if !vec_contains_string(&seen, number) {
            seen.push(number.clone());
            proof {
                assert(seen.deep_view() =~= prior.push(number@));
                let now_seen = seen.deep_view();
                assert forall|a: int, b: int| 0 <= a < b < now_seen.len() implies now_seen[a]
                    != now_seen[b] by {
                    if b < prior.len() {
                        assert(now_seen[a] == prior[a] && now_seen[b] == prior[b]);
                    } else {
                        assert(now_seen[b] == number@);
                        assert(now_seen[a] == prior[a]);
                        assert(!contains_str(prior, number@));
                    }
                }
                assert(results@[i as int].event_number@ == number@);
                assert(now_seen[prior.len() as int] == number@);
                assert forall|a: int|
                    #![trigger now_seen[a]]
                    0 <= a < now_seen.len() implies some_result_event_number(
                        results@,
                        now_seen[a],
                    ) by {
                    if a < prior.len() {
                        assert(now_seen[a] == prior[a]);
                    } else {
                        assert(now_seen[a] == number@);
                        assert(results@[i as int].event_number@ == now_seen[a]);
                    }
                }
                assert forall|k: int| 0 <= k < i + 1 implies contains_str(
                    now_seen,
                    (#[trigger] results@[k]).event_number@,
                ) by {
                    if k < i {
                        let s = results@[k].event_number@;
                        let j = choose|j: int| 0 <= j < prior.len() && prior[j] == s;
                        assert(now_seen[j] == s);
                    } else {
                        assert(now_seen[prior.len() as int] == number@);
                    }
                }
            }
        } else {
            proof {
                assert(results@[i as int].event_number@ == number@);
            }
        }
        i += 1;
    }
    seen
}

/// `seconds`, rendered as `MM:SS` below an hour and `HH:MM:SS` from an
/// hour up, every component zero-padded to two digits.
pub open spec fn formatted_duration(n: nat) -> Seq<char> {
    let s = n % 60;
    let m = (n / 60) % 60;
    let h = n / 3600;
    if h == 0 {
        padded2_digits(m) + seq![':'] + padded2_digits(s)
    } else {
        padded2_digits(h) + seq![':'] + padded2_digits(m) + seq![':'] + padded2_digits(s)
    }
}

/// Renders a duration for display, as `formatted_duration` describes.
pub fn duration_formatter(seconds: u64) -> (r: String)
    ensures
        r@ == formatted_duration(seconds as nat),
{
    let s = seconds % 60;
    let m = (seconds / 60) % 60;
    let h = seconds / 3600;
    let colon = String::from_str(":");
    proof {
        reveal_strlit(":");
        assert(colon@ =~= seq![':']);
    }
    if h == 0 {
        let r = padded2_str(m).concat(colon.as_str()).concat(padded2_str(s).as_str());
        proof {
            assert(r@ =~= formatted_duration(seconds as nat));
        }
        r
    } else {
        let r = padded2_str(h).concat(colon.as_str()).concat(padded2_str(m).as_str()).concat(
            colon.as_str(),
        ).concat(padded2_str(s).as_str());
        proof {
            assert(r@ =~= formatted_duration(seconds as nat));
        }
        r
    }
}

/// `seconds` as a single coarse figure: whole minutes under a hundred
/// minutes, else whole hours under a thousand hours, else whole days.
pub open spec fn formatted_total_time(n: nat) -> Seq<char> {
    if n / 60 < 100 {
        dec_digits(n / 60) + seq!['m']
    } else if n / 3600 < 1000 {
        dec_digits(n / 3600) + seq!['h']
    } else {
        dec_digits(n / 86400) + seq!['d']
    }
}

/// Renders a total running time for display, as `formatted_total_time`
/// describes.
pub fn format_total_time(seconds: u64) -> (r: String)
    ensures
        r@ == formatted_total_time(seconds as nat),
{
    let minutes = seconds / 60;
    let hours = seconds / 3600;
    if minutes < 100 {
        let suffix = "m";
        proof {
            reveal_strlit("m");
            assert(suffix@ =~= seq!['m']);
        }
        dec_str(minutes).concat(suffix)
    } else if hours < 1000 {
        let suffix = "h";
        proof {
            reveal_strlit("h");
            assert(suffix@ =~= seq!['h']);
        }
        dec_str(hours).concat(suffix)
    } else {
        let suffix = "d";
        proof {
            reveal_strlit("d");
            assert(suffix@ =~= seq!['d']);
        }
        dec_str(seconds / 86400).concat(suffix)
    }
}

} // verus!
