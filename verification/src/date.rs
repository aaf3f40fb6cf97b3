//! Calendar dates, read from the wire's fixed `YYYY-MM-DD` form.

use vstd::prelude::*;

use crate::errors::ParseError;
use crate::text::{all_digits, digits_val, is_digit, parse_u32};

verus! {

/// A calendar date as plain values.
#[derive(Clone, Copy, Debug, PartialEq, Eq, Structural)]
pub struct Date {
    pub year: u32,
    pub month: u32,
    pub day: u32,
}

/// Gregorian leap-year rule.
pub open spec fn is_leap_year(y: int) -> bool {
    y % 4 == 0 && (y % 100 != 0 || y % 400 == 0)
}

/// Days in month `m` of year `y`, for `1 <= m <= 12`.
pub open spec fn days_in_month(y: int, m: int) -> int {
    if m == 2 {
        if is_leap_year(y) {
            29
        } else {
            28
        }
    } else if m == 4 || m == 6 || m == 9 || m == 11 {
        30
    } else {
        31
    }
}

/// `y`, `m`, `d` name a day of the Gregorian calendar.
pub open spec fn valid_ymd(y: int, m: int, d: int) -> bool {
    1 <= m <= 12 && 1 <= d <= days_in_month(y, m)
}

/// `s` has the form `YYYY-MM-DD` and names a day of the calendar.
pub open spec fn valid_date_str(s: Seq<char>) -> bool {
    &&& s.len() == 10
    &&& s[4] == '-'
    &&& s[7] == '-'
    &&& all_digits(s.subrange(0, 4))
    &&& all_digits(s.subrange(5, 7))
    &&& all_digits(s.subrange(8, 10))
    &&& valid_ymd(
        digits_val(s.subrange(0, 4)) as int,
        digits_val(s.subrange(5, 7)) as int,
        digits_val(s.subrange(8, 10)) as int,
    )
}

/// The date named by a valid `YYYY-MM-DD` string.
pub open spec fn date_of_str(s: Seq<char>) -> Date {
    Date {
        year: digits_val(s.subrange(0, 4)) as u32,
        month: digits_val(s.subrange(5, 7)) as u32,
        day: digits_val(s.subrange(8, 10)) as u32,
    }
}

/// Ten to the `n`.
spec fn pow10(n: nat) -> nat
    decreases n,
{
    if n == 0 {
        1
    } else {
        10 * pow10((n - 1) as nat)
    }
}

/// A numeral's value is below ten to its length.
proof fn lemma_digits_val_bound(s: Seq<char>)
    requires
        all_digits(s),
    ensures
        digits_val(s) < pow10(s.len()),
    decreases s.len(),
{
    if s.len() > 0 {
        assert forall|i: int| 0 <= i < s.drop_last().len() implies is_digit(
            #[trigger] s.drop_last()[i],
        ) by {
            assert(s.drop_last()[i] == s[i]);
        }
        lemma_digits_val_bound(s.drop_last());
        assert(is_digit(s.last()));
        assert(pow10(s.len()) == 10 * pow10((s.len() - 1) as nat));
    }
}

/// A numeral of at most 4 digits is below 10000.
proof fn lemma_short_numeral_small(s: Seq<char>)
    requires
        all_digits(s),
        s.len() <= 4,
    ensures
        digits_val(s) < 10000,
{
    lemma_digits_val_bound(s);
    reveal_with_fuel(pow10, 5);
    if s.len() == 0 {
        assert(pow10(0) == 1);
    } else if s.len() == 1 {
        assert(pow10(1) == 10);
    } else if s.len() == 2 {
        assert(pow10(2) == 100);
    } else if s.len() == 3 {
        assert(pow10(3) == 1000);
    } else {
        assert(pow10(4) == 10000);
    }
}

/// Days in month `m` of year `y`, as `days_in_month` describes.
pub fn month_length(y: u32, m: u32) -> (r: u32)
    requires
        1 <= m <= 12,
    ensures
        r == days_in_month(y as int, m as int),
{
    if m == 2 {
        if y % 4 == 0 && (y % 100 != 0 || y % 400 == 0) {
            29
        } else {
            28
        }
    } else if m == 4 || m == 6 || m == 9 || m == 11 {
        30
    } else {
        31
    }
}

/// Reads a date of the fixed form `YYYY-MM-DD`.
///
/// Succeeds exactly on ten-character strings with digits and dashes in
/// place that name a real day of the calendar, leap years included.
pub fn parse_date(s: &str) -> (r: Result<Date, ParseError>)
    ensures
        match r {
            Ok(d) => valid_date_str(s@) && d == date_of_str(s@),
            Err(e) => e == ParseError::Date && !valid_date_str(s@),
        },
{
    let len = s.unicode_len();
    if len != 10 {
        return Err(ParseError::Date);
    }
    if s.get_char(4) != '-' || s.get_char(7) != '-' {
        return Err(ParseError::Date);
    }
    let year_part = s.substring_char(0, 4);
    let month_part = s.substring_char(5, 7);
    let day_part = s.substring_char(8, 10);
    let year = match parse_u32(year_part) {
        Ok(y) => y,
        Err(_) => {
            proof {
                if all_digits(year_part@) {
                    lemma_short_numeral_small(year_part@);
                }
            }
            return Err(ParseError::Date);
        },
    };
    let month = match parse_u32(month_part) {
        Ok(m) => m,
        Err(_) => {
            proof {
                if all_digits(month_part@) {
                    lemma_short_numeral_small(month_part@);
                }
            }
            return Err(ParseError::Date);
        },
    };
    let day = match parse_u32(day_part) {
        Ok(d) => d,
        Err(_) => {
            proof {
                if all_digits(day_part@) {
                    lemma_short_numeral_small(day_part@);
                }
            }
            return Err(ParseError::Date);
        },
    };
    if month < 1 || month > 12 {
        return Err(ParseError::Date);
    }
    if day < 1 || day > month_length(year, month) {
        return Err(ParseError::Date);
    }
    Ok(Date { year, month, day })
}

} // verus!
