//! The date that a record is stamped with: how it is written, and the test
//! that a text handed in as the present time is written so. The clock itself
//! is read by the caller.

use vstd::prelude::*;
use crate::text::all_digits;
use crate::text::is_digit;

verus! {

/// How a date is written, as a pattern for the formatting of a time: year,
/// month, day, the time to the second, and the offset from UTC, as in
/// `2024-01-01 00:00:00 +0000`.
pub const TIMESTAMP_FORMAT: &'static str = "%Y-%m-%d %H:%M:%S %z";

/// `c` is a plus or a minus sign.
pub open spec fn is_sign(c: char) -> bool {
    c == '+' || c == '-'
}

/// `s` is a year as a date begins with it: four digits, or, for a year
/// before 0 or after 9999, a sign and four digits or more.
pub open spec fn is_year(s: Seq<char>) -> bool {
    ||| s.len() == 4 && all_digits(s)
    ||| s.len() >= 5 && is_sign(s[0]) && all_digits(s.skip(1))
}

/// `t` is what follows the year in a date: `-MM-DD HH:MM:SS ±HHMM`, every
/// letter of this a digit.
pub open spec fn is_day_and_time(t: Seq<char>) -> bool {
    &&& t.len() == 21
    &&& t[0] == '-' && is_digit(t[1]) && is_digit(t[2])
    &&& t[3] == '-' && is_digit(t[4]) && is_digit(t[5])
    &&& t[6] == ' ' && is_digit(t[7]) && is_digit(t[8])
    &&& t[9] == ':' && is_digit(t[10]) && is_digit(t[11])
    &&& t[12] == ':' && is_digit(t[13]) && is_digit(t[14])
    &&& t[15] == ' ' && is_sign(t[16])
    &&& is_digit(t[17]) && is_digit(t[18]) && is_digit(t[19]) && is_digit(t[20])
}

/// `s` is a date as a record is stamped with it: `YYYY-MM-DD HH:MM:SS ±HHMM`,
/// the year with a sign and more digits where four do not hold it.
pub open spec fn is_timestamp(s: Seq<char>) -> bool {
    &&& s.len() >= 25
    &&& is_year(s.take(s.len() - 21))
    &&& is_day_and_time(s.skip(s.len() - 21))
}

/// What stands at position `i` of a date of `len` characters is `c`: a
/// digit, a sign or one of the marks between the fields, as the place asks.
pub open spec fn is_timestamp_char(len: int, i: int, c: char) -> bool {
    let year = len - 21;
    if i < year {
        if year > 4 && i == 0 {
            is_sign(c)
        } else {
            is_digit(c)
        }
    } else {
        let at = i - year;
        if at == 0 || at == 3 {
            c == '-'
        } else if at == 6 || at == 15 {
            c == ' '
        } else if at == 9 || at == 12 {
            c == ':'
        } else if at == 16 {
            is_sign(c)
        } else {
            is_digit(c)
        }
    }
}

/// A text of 25 characters or more is a date exactly where every character
/// is what its place asks for.
pub proof fn lemma_timestamp_by_chars(s: Seq<char>)
    requires
        s.len() >= 25,
    ensures
        is_timestamp(s) <==> forall|i: int|
            0 <= i < s.len() ==> is_timestamp_char(s.len() as int, i, #[trigger] s[i]),
{
    let len = s.len() as int;
    let year = len - 21;
    let head = s.take(year);
    let tail = s.skip(year);
    if is_timestamp(s) {
        assert forall|i: int| 0 <= i < len implies is_timestamp_char(len, i, #[trigger] s[i]) by {
            if i < year {
                assert(head[i] == s[i]);
                if year > 4 && i > 0 {
                    assert(head.skip(1)[i - 1] == head[i]);
                }
            } else {
                assert(tail[i - year] == s[i]);
            }
        }
    }
    if forall|i: int| 0 <= i < len ==> is_timestamp_char(len, i, #[trigger] s[i]) {
        assert forall|i: int| 0 <= i < 21 implies is_timestamp_char(
            len,
            year + i,
            #[trigger] tail[i],
        ) by {
            assert(tail[i] == s[year + i]);
        }
        assert(is_timestamp_char(len, year + 0, tail[0]));
        assert(is_timestamp_char(len, year + 1, tail[1]));
        assert(is_timestamp_char(len, year + 2, tail[2]));
        assert(is_timestamp_char(len, year + 3, tail[3]));
        assert(is_timestamp_char(len, year + 4, tail[4]));
        assert(is_timestamp_char(len, year + 5, tail[5]));
        assert(is_timestamp_char(len, year + 6, tail[6]));
        assert(is_timestamp_char(len, year + 7, tail[7]));
        assert(is_timestamp_char(len, year + 8, tail[8]));
        assert(is_timestamp_char(len, year + 9, tail[9]));
        assert(is_timestamp_char(len, year + 10, tail[10]));
        assert(is_timestamp_char(len, year + 11, tail[11]));
        assert(is_timestamp_char(len, year + 12, tail[12]));
        assert(is_timestamp_char(len, year + 13, tail[13]));
        assert(is_timestamp_char(len, year + 14, tail[14]));
        assert(is_timestamp_char(len, year + 15, tail[15]));
        assert(is_timestamp_char(len, year + 16, tail[16]));
        assert(is_timestamp_char(len, year + 17, tail[17]));
        assert(is_timestamp_char(len, year + 18, tail[18]));
        assert(is_timestamp_char(len, year + 19, tail[19]));
        assert(is_timestamp_char(len, year + 20, tail[20]));
        assert(is_day_and_time(tail));
        if year == 4 {
            assert forall|i: int| 0 <= i < head.len() implies is_digit(#[trigger] head[i]) by {
                assert(head[i] == s[i]);
                assert(is_timestamp_char(len, i, s[i]));
            }
        } else {
            assert(head[0] == s[0]);
            assert(is_timestamp_char(len, 0, s[0]));
            let digits = head.skip(1);
            assert forall|i: int| 0 <= i < digits.len() implies is_digit(#[trigger] digits[i]) by {
                assert(digits[i] == s[i + 1]);
                assert(is_timestamp_char(len, i + 1, s[i + 1]));
            }
        }
        assert(is_year(head));
    }
}

/// Tells whether `text` is written as a date is.
pub fn is_timestamp_text(text: &str) -> (r: bool)
    ensures
        r == is_timestamp(text@),
{
    let n: usize = text.unicode_len();
    if n < 25 {
        return false;
    }
    let year: usize = n - 21;
    let mut i: usize = 0;
    let it = text.chars();
    for c in iter: it
        invariant
            i == iter.index(),
            iter.seq() == text@,
            n == text@.len(),
            n >= 25,
            year == n - 21,
            forall|j: int| 0 <= j < i ==> is_timestamp_char(n as int, j, #[trigger] text@[j]),
    {
        let digit = c >= '0' && c <= '9';
        let sign = c == '+' || c == '-';
        let fits = if i < year {
            if year > 4 && i == 0 {
                sign
            } else {
                digit
            }
        } else {
            let at: usize = i - year;
            if at == 0 || at == 3 {
                c == '-'
            } else if at == 6 || at == 15 {
                c == ' '
            } else if at == 9 || at == 12 {
                c == ':'
            } else if at == 16 {
                sign
            } else {
                digit
            }
        };
        if !fits {
            proof {
                assert(!is_timestamp_char(n as int, i as int, text@[i as int]));
                lemma_timestamp_by_chars(text@);
            }
            return false;
        }
        i = i + 1;
    }
    proof {
        lemma_timestamp_by_chars(text@);
    }
    true
}

} // verus!
