//! Text helpers: decimal integers, splitting, and decimal rendering.
//!
//! The wire protocol transmits every value as a string, so the library's
//! computations all begin by reading numbers out of strings, and a few end
//! by rendering numbers back into strings.

use vstd::prelude::*;

use crate::errors::ParseError;

verus! {

/// `c` is an ASCII decimal digit.
pub open spec fn is_digit(c: char) -> bool {
    48 <= c as u32 <= 57
}

/// The numeric value of the digit `c`.
pub open spec fn digit_val(c: char) -> nat {
    (c as u32 - 48) as nat
}

/// Every character of `s` is an ASCII decimal digit.
pub open spec fn all_digits(s: Seq<char>) -> bool {
    forall|i: int| 0 <= i < s.len() ==> is_digit(#[trigger] s[i])
}

/// The value of `s` read as a decimal numeral, most significant digit first.
pub open spec fn digits_val(s: Seq<char>) -> nat
    decreases s.len(),
{
    if s.len() == 0 {
        0
    } else {
        digits_val(s.drop_last()) * 10 + digit_val(s.last())
    }
}

/// Reading a longer prefix of a numeral never decreases its value.
proof fn lemma_digits_val_grows(s: Seq<char>, i: int, j: int)
    requires
        0 <= i <= j <= s.len(),
    ensures
        digits_val(s.subrange(0, i)) <= digits_val(s.subrange(0, j)),
    decreases j - i,
{
    if i < j {
        lemma_digits_val_grows(s, i, j - 1);
        assert(s.subrange(0, j).drop_last() =~= s.subrange(0, j - 1));
    }
}

/// Reads `s` as a decimal `u64`.
///
/// Succeeds exactly on non-empty all-digit strings whose value fits;
/// there is no sign, no whitespace, and no other radix.
pub fn parse_u64(s: &str) -> (r: Result<u64, ParseError>)
    ensures
        match r {
            Ok(n) => s@.len() > 0 && all_digits(s@) && n as nat == digits_val(s@),
            Err(e) => e == ParseError::Number && (s@.len() == 0 || !all_digits(s@)
                || digits_val(s@) > u64::MAX),
        },
{
    let len = s.unicode_len();
    if len == 0 {
        return Err(ParseError::Number);
    }
    let mut acc: u64 = 0;
    let mut i: usize = 0;
    while i < len
        invariant
            0 <= i <= len,
            len == s@.len(),
            all_digits(s@.subrange(0, i as int)),
            acc as nat == digits_val(s@.subrange(0, i as int)),
        decreases len - i,
    {
        let c = s.get_char(i);
        let u = c as u32;
        if u < 48 || u > 57 {
            proof {
                assert(!is_digit(s@[i as int]));
            }
            return Err(ParseError::Number);
        }
        let d = (u - 48) as u64;
        proof {
            assert(s@.subrange(0, i + 1).drop_last() =~= s@.subrange(0, i as int));
            assert(s@.subrange(0, i + 1).last() == s@[i as int]);
        }
        if acc > (u64::MAX - d) / 10 {
            proof {
                assert(acc * 10 + d > u64::MAX) by (nonlinear_arith)
                    requires
                        acc > (u64::MAX - d) / 10,
                        d <= 9,
                ;
                assert(digits_val(s@.subrange(0, i + 1)) > u64::MAX);
                lemma_digits_val_grows(s@, i + 1, len as int);
                assert(s@.subrange(0, len as int) =~= s@);
            }
            return Err(ParseError::Number);
        }
        proof {
            assert(acc * 10 + d <= u64::MAX) by (nonlinear_arith)
                requires
                    acc <= (u64::MAX - d) / 10,
                    d <= 9,
            ;
        }
        acc = acc * 10 + d;
        i += 1;
    }
    proof {
        assert(s@.subrange(0, len as int) =~= s@);
    }
    Ok(acc)
}

/// Reads `s` as a decimal `u32`; as `parse_u64`, with the smaller range.
pub fn parse_u32(s: &str) -> (r: Result<u32, ParseError>)
    ensures
        match r {
            Ok(n) => s@.len() > 0 && all_digits(s@) && n as nat == digits_val(s@),
            Err(e) => e == ParseError::Number && (s@.len() == 0 || !all_digits(s@)
                || digits_val(s@) > u32::MAX),
        },
{
    match parse_u64(s) {
        Ok(n) => {
            if n <= u32::MAX as u64 {
                Ok(n as u32)
            } else {
                Err(ParseError::Number)
            }
        },
        Err(e) => Err(e),
    }
}

/// The digit character for a value below ten.
pub open spec fn digit_char(n: nat) -> char {
    if n == 0 {
        '0'
    } else if n == 1 {
        '1'
    } else if n == 2 {
        '2'
    } else if n == 3 {
        '3'
    } else if n == 4 {
        '4'
    } else if n == 5 {
        '5'
    } else if n == 6 {
        '6'
    } else if n == 7 {
        '7'
    } else if n == 8 {
        '8'
    } else {
        '9'
    }
}

/// The decimal numeral of `n`, most significant digit first, no leading zeros.
pub open spec fn dec_digits(n: nat) -> Seq<char>
    decreases n,
{
    if n < 10 {
        seq![digit_char(n)]
    } else {
        dec_digits(n / 10) + seq![digit_char(n % 10)]
    }
}

/// The numeral of `n`, padded on the left with `'0'` to at least two digits.
pub open spec fn padded2_digits(n: nat) -> Seq<char> {
    if n < 10 {
        seq!['0'] + dec_digits(n)
    } else {
        dec_digits(n)
    }
}

fn digit_str(d: u64) -> (r: &'static str)
    requires
        d < 10,
    ensures
        r@ =~= seq![digit_char(d as nat)],
{
    proof {
        reveal_strlit("0");
        reveal_strlit("1");
        reveal_strlit("2");
        reveal_strlit("3");
        reveal_strlit("4");
        reveal_strlit("5");
        reveal_strlit("6");
        reveal_strlit("7");
        reveal_strlit("8");
        reveal_strlit("9");
    }
    if d == 0 {
        "0"
    } else if d == 1 {
        "1"
    } else if d == 2 {
        "2"
    } else if d == 3 {
        "3"
    } else if d == 4 {
        "4"
    } else if d == 5 {
        "5"
    } else if d == 6 {
        "6"
    } else if d == 7 {
        "7"
    } else if d == 8 {
        "8"
    } else {
        "9"
    }
}

/// Renders `n` as its decimal numeral.
pub fn dec_str(n: u64) -> (r: String)
    ensures
        r@ == dec_digits(n as nat),
    decreases n,
{
    if n < 10 {
        String::from_str(digit_str(n))
    } else {
        proof {
            assert(n / 10 < n) by (nonlinear_arith)
                requires
                    n >= 10,
            ;
        }
        let prefix = dec_str(n / 10);
        prefix.concat(digit_str(n % 10))
    }
}

/// Renders `n` as its decimal numeral, left-padded with `'0'` to two digits.
pub fn padded2_str(n: u64) -> (r: String)
    ensures
        r@ == padded2_digits(n as nat),
{
    if n < 10 {
        let zero = String::from_str("0");
        proof {
            reveal_strlit("0");
            assert(zero@ =~= seq!['0']);
        }
        zero.concat(dec_str(n).as_str())
    } else {
        dec_str(n)
    }
}

/// Rendering a number and reading it back yields the number: a decimal
/// numeral is non-empty, digits throughout, and stands for its value.
pub proof fn lemma_dec_digits_round_trip(n: nat)
    ensures
        dec_digits(n).len() > 0,
        all_digits(dec_digits(n)),
        digits_val(dec_digits(n)) == n,
    decreases n,
{
    if n < 10 {
        assert(is_digit(digit_char(n)));
        let s = dec_digits(n);
        assert(s.drop_last() =~= Seq::<char>::empty());
        assert(digits_val(Seq::<char>::empty()) == 0);
        assert(s.last() == digit_char(n));
        assert(digit_val(digit_char(n)) == n);
    } else {
        lemma_dec_digits_round_trip(n / 10);
        let prefix = dec_digits(n / 10);
        let whole = dec_digits(n);
        assert(whole =~= prefix + seq![digit_char(n % 10)]);
        assert forall|i: int| 0 <= i < whole.len() implies is_digit(#[trigger] whole[i]) by {
            if i < prefix.len() {
                assert(whole[i] == prefix[i]);
            } else {
                assert(whole[i] == digit_char(n % 10));
                assert(is_digit(digit_char(n % 10)));
            }
        }
        assert(whole.drop_last() =~= prefix);
        assert(digit_val(digit_char(n % 10)) == n % 10);
        assert(digits_val(whole) == digits_val(prefix) * 10 + n % 10);
    }
}

/// The index of the first occurrence of `sep` in `s`, or `-1` if none.
pub open spec fn find_sep(s: Seq<char>, sep: char) -> int
    decreases s.len(),
{
    if s.len() == 0 {
        -1
    } else if s[0] == sep {
        0
    } else {
        let rest = find_sep(s.drop_first(), sep);
        if rest == -1 {
            -1
        } else {
            rest + 1
        }
    }
}

/// `s` split on `sep`: the separators are dropped, and the pieces between
/// them are kept in order, empty pieces included.
pub open spec fn split_seq(s: Seq<char>, sep: char) -> Seq<Seq<char>>
    decreases s.len(),
{
    let i = find_sep(s, sep);
    if 0 <= i < s.len() {
        seq![s.subrange(0, i)] + split_seq(s.subrange(i + 1, s.len() as int), sep)
    } else {
        seq![s]
    }
}

/// If no character of `s` is `sep`, nothing is found.
proof fn lemma_find_sep_none(s: Seq<char>, sep: char)
    requires
        forall|j: int| 0 <= j < s.len() ==> s[j] != sep,
    ensures
        find_sep(s, sep) == -1,
    decreases s.len(),
{
    if s.len() > 0 {
        lemma_find_sep_none(s.drop_first(), sep);
    }
}

/// If `s[k]` is the first occurrence of `sep`, it is what is found.
proof fn lemma_find_sep_at(s: Seq<char>, sep: char, k: int)
    requires
        0 <= k < s.len(),
        s[k] == sep,
        forall|j: int| 0 <= j < k ==> s[j] != sep,
    ensures
        find_sep(s, sep) == k,
    decreases k,
{
    if k > 0 {
        lemma_find_sep_at(s.drop_first(), sep, k - 1);
    }
}

/// Splits `s` on `sep`, as `split_seq` describes.
pub fn split_str<'a>(s: &'a str, sep: char) -> (parts: Vec<&'a str>)
    ensures
        parts.deep_view() == split_seq(s@, sep),
{
    let len = s.unicode_len();
    let mut parts: Vec<&'a str> = Vec::new();
    let mut start: usize = 0;
    let mut i: usize = 0;
    proof {
        assert(s@.subrange(0, len as int) =~= s@);
        assert(parts.deep_view() + split_seq(s@.subrange(0, len as int), sep) =~= split_seq(
            s@,
            sep,
        ));
    }
    while i < len
        invariant
            0 <= start <= i <= len,
            len == s@.len(),
            forall|j: int| start <= j < i ==> s@[j] != sep,
            split_seq(s@, sep) == parts.deep_view() + split_seq(
                s@.subrange(start as int, len as int),
                sep,
            ),
        decreases len - i,
    {
        let c = s.get_char(i);
        if c == sep {
            let piece = s.substring_char(start, i);
            proof {
                let tail = s@.subrange(start as int, len as int);
                lemma_find_sep_at(tail, sep, i - start);
                assert(tail.subrange(0, i - start) =~= s@.subrange(start as int, i as int));
                assert(tail.subrange(i - start + 1, tail.len() as int) =~= s@.subrange(
                    i + 1,
                    len as int,
                ));
                assert((parts.deep_view() + seq![piece@]) + split_seq(
                    s@.subrange(i + 1, len as int),
                    sep,
                ) =~= parts.deep_view() + split_seq(s@.subrange(start as int, len as int), sep));
            }
            parts.push(piece);
            start = i + 1;
        }
        i += 1;
    }
    let piece = s.substring_char(start, len);
    proof {
        let tail = s@.subrange(start as int, len as int);
        lemma_find_sep_none(tail, sep);
        assert(tail =~= piece@);
        assert(parts.deep_view() + seq![piece@] =~= parts.deep_view() + split_seq(
            s@.subrange(start as int, len as int),
            sep,
        ));
    }
    parts.push(piece);
    parts
}

} // verus!
