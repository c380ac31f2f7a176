//! Validation of the time span given on the command line.

use vstd::prelude::*;
use vstd::string::StrSliceExecFns;

verus! {

/// Seconds in one week.
pub const SECONDS_IN_WEEK: i64 = 604800;

/// Smallest number of weeks that is no longer accepted.
pub const WEEKS_LIMIT: i64 = 52000;

/// Whether `c` is one of the ten ASCII digits.
pub open spec fn is_digit(c: char) -> bool {
    '0' <= c && c <= '9'
}

/// The value of an ASCII digit.
pub open spec fn digit_value(c: char) -> int {
    c as int - '0' as int
}

/// Whether `s` consists of ASCII digits only.
pub open spec fn all_digits(s: Seq<char>) -> bool {
    forall|i: int| 0 <= i < s.len() ==> is_digit(#[trigger] s[i])
}

/// The number that a run of digits writes in base ten; leading zeros count
/// for nothing.
pub open spec fn digits_value(s: Seq<char>) -> int
    decreases s.len(),
{
    if s.len() == 0 {
        0
    } else {
        10 * digits_value(s.drop_last()) + digit_value(s.last())
    }
}

/// The integer that `s` writes: an optional sign, `+` or `-`, followed by
/// one or more ASCII digits and nothing else. `None` for any other text.
pub open spec fn decimal(s: Seq<char>) -> Option<int> {
    if s.len() > 0 && s[0] == '-' {
        if s.len() > 1 && all_digits(s.skip(1)) {
            Some(-digits_value(s.skip(1)))
        } else {
            None
        }
    } else if s.len() > 0 && s[0] == '+' {
        if s.len() > 1 && all_digits(s.skip(1)) {
            Some(digits_value(s.skip(1)))
        } else {
            None
        }
    } else if s.len() > 0 && all_digits(s) {
        Some(digits_value(s))
    } else {
        None
    }
}

/// The number of weeks that `s` asks for: the integer it writes, where that
/// is at least 1 and below [`WEEKS_LIMIT`]. `None` for anything else.
pub open spec fn week_count(s: Seq<char>) -> Option<int> {
    match decimal(s) {
        Some(weeks) => if 0 < weeks < WEEKS_LIMIT {
            Some(weeks)
        } else {
            None
        },
        None => None,
    }
}

/// The text that a refused week count is answered with.
pub open spec fn refusal() -> Seq<char> {
    "Has to be a natural number (1,2,..)"@
}

/// A run of digits is worth at least as much as any of its beginnings, and
/// never less than nothing.
pub proof fn lemma_digits_value_grows(s: Seq<char>, i: int)
    requires
        all_digits(s),
        0 <= i <= s.len(),
    ensures
        0 <= digits_value(s.take(i)) <= digits_value(s),
    decreases s.len() - i,
{
    if i == s.len() {
        assert(s.take(i) =~= s);
        lemma_digits_value_nonnegative(s);
    } else {
        lemma_digits_value_grows(s, i + 1);
        let longer = s.take(i + 1);
        assert(longer.drop_last() =~= s.take(i));
        assert(is_digit(s[i]));
        assert(longer.last() == s[i]);
        assert(all_digits(s.take(i))) by {
            assert forall|j: int| 0 <= j < s.take(i).len() implies is_digit(
                #[trigger] s.take(i)[j],
            ) by {
                assert(s.take(i)[j] == s[j]);
            }
        }
        lemma_digits_value_nonnegative(s.take(i));
    }
}

/// A run of digits is never worth less than nothing.
pub proof fn lemma_digits_value_nonnegative(s: Seq<char>)
    requires
        all_digits(s),
    ensures
        0 <= digits_value(s),
    decreases s.len(),
{
    if s.len() > 0 {
        assert(all_digits(s.drop_last())) by {
            assert forall|j: int| 0 <= j < s.drop_last().len() implies is_digit(
                #[trigger] s.drop_last()[j],
            ) by {
                assert(s.drop_last()[j] == s[j]);
            }
        }
        lemma_digits_value_nonnegative(s.drop_last());
        assert(is_digit(s.last()));
    }
}

/// Reads a week count: `Some` with the number where `s` writes an integer
/// from 1 up to, but not including, [`WEEKS_LIMIT`], and `None` otherwise.
pub fn parse_weeks(s: &str) -> (weeks: Option<i64>)
    ensures
        match weeks {
            Some(number) => week_count(s@) == Some(number as int),
            None => week_count(s@) is None,
        },
{
    let n: usize = s.unicode_len();
    if n == 0 {
        return None;
    }
    let first: char = s.get_char(0);
    if first == '-' {
        proof {
            if s@.len() > 1 && all_digits(s@.skip(1)) {
                lemma_digits_value_nonnegative(s@.skip(1));
            }
        }
        return None;
    }
    let start: usize = if first == '+' {
        1
    } else {
        0
    };
    if start == n {
        return None;
    }
    let ghost digits: Seq<char> = s@.skip(start as int);
    proof {
        if start == 0 {
            assert(digits =~= s@);
        }
    }
    let mut value: i64 = 0;
    let mut i: usize = start;
    while i < n
        invariant
            start <= i <= n,
            start < n,
            n == s@.len(),
            s@[0] != '-',
            start == 1 <==> s@[0] == '+',
            start == 0 || start == 1,
            digits == s@.skip(start as int),
            start == 0 ==> digits == s@,
            all_digits(digits.take(i - start)),
            value == digits_value(digits.take(i - start)),
            0 <= value < WEEKS_LIMIT,
        decreases n - i,
    {
        let c: char = s.get_char(i);
        let ghost seen: Seq<char> = digits.take(i - start);
        let ghost longer: Seq<char> = digits.take(i + 1 - start);
        proof {
            assert(digits[i - start] == c);
            assert(longer.drop_last() =~= seen);
            assert(longer.last() == c);
        }
        if !(c >= '0' && c <= '9') {
            proof {
                assert(!is_digit(digits[i - start]));
                if start == 0 {
                    assert(!is_digit(s@[i as int]));
                } else {
                    assert(s@.skip(1)[i - 1] == c);
                }
            }
            return None;
        }
        let digit: i64 = (c as u32 - '0' as u32) as i64;
        value = value * 10 + digit;
        proof {
            assert(value == digits_value(longer));
            assert(all_digits(longer)) by {
                assert forall|j: int| 0 <= j < longer.len() implies is_digit(
                    #[trigger] longer[j],
                ) by {
                    if j < seen.len() {
                        assert(longer[j] == seen[j]);
                    }
                }
            }
        }
        if value >= WEEKS_LIMIT {
            proof {
                if all_digits(digits) {
                    lemma_digits_value_grows(digits, i + 1 - start);
                }
            }
            return None;
        }
        i = i + 1;
    }
    proof {
        assert(digits.take(i - start) =~= digits);
    }
    if value > 0 {
        Some(value)
    } else {
        None
    }
}

/// Validates a span given in weeks: `Ok` where `s` writes an integer from 1
/// up to, but not including, [`WEEKS_LIMIT`], and the refusal text otherwise.
pub fn is_nat_i64(s: String) -> (verdict: Result<(), String>)
    ensures
        verdict is Ok <==> week_count(s@) is Some,
        verdict matches Err(message) ==> message@ == refusal(),
{
    match parse_weeks(s.as_str()) {
        Some(_) => Ok(()),
        None => Err("Has to be a natural number (1,2,..)".to_owned()),
    }
}

/// The span in seconds for a number of weeks given as text.
///
/// Fails with the validator's message where [`is_nat_i64`] refuses the text.
pub fn span_from_weeks(s: &str) -> (span: Result<i64, String>)
    ensures
        match span {
            Ok(seconds) => week_count(s@) matches Some(weeks) && seconds == weeks
                * SECONDS_IN_WEEK,
            Err(message) => week_count(s@) is None && message@ == refusal(),
        },
{
    match parse_weeks(s) {
        Some(weeks) => Ok(weeks * SECONDS_IN_WEEK),
        None => Err("Has to be a natural number (1,2,..)".to_owned()),
    }
}

} // verus!
