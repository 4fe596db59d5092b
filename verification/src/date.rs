//! Date normalization: an RFC 3339 timestamp becomes the `YYYY-MM-DD` calendar
//! key that the activity calendar uses to mark each day.
use crate::digits::{
    all_digits, dec_str, digit_str, is_ascii_digit, lemma_dec_str_digits, lemma_dec_str_len,
    u32_to_string,
};
use vstd::prelude::*;
use vstd::string::*;

verus! {

/// The year, month and day read out of an RFC 3339 timestamp, or `None` where
/// the text is not a valid RFC 3339 date-time.
pub uninterp spec fn rfc3339_date(s: Seq<char>) -> Option<(int, int, int)>;

/// A calendar date held as plain fields.
pub struct ParsedDate {
    pub year: i32,
    pub month: u32,
    pub day: u32,
}

/// Relies on chrono's `DateTime::parse_from_rfc3339` and the `Datelike`
/// accessors `year`, `month` and `day`: parsing is a deterministic function of
/// the text, and the documentation puts `month` in 1..=12 and `day` in 1..=31.
#[verifier::external_body]
fn parse_rfc3339(s: &str) -> (r: Option<ParsedDate>)
    ensures
        r is Some <==> rfc3339_date(s@) is Some,
        r matches Some(pd) ==> rfc3339_date(s@) == Some(
            (pd.year as int, pd.month as int, pd.day as int),
        ),
        r matches Some(pd) ==> 1 <= pd.month <= 12 && 1 <= pd.day <= 31,
{
    match chrono::DateTime::parse_from_rfc3339(s) {
        Ok(dt) => Some(
            ParsedDate {
                year: chrono::Datelike::year(&dt),
                month: chrono::Datelike::month(&dt),
                day: chrono::Datelike::day(&dt),
            },
        ),
        Err(_) => None,
    }
}

/// A month or day rendered in exactly two digits: values below ten carry a
/// leading zero, larger values keep their natural two-digit form.
pub open spec fn two_digit(n: int) -> Seq<char> {
    if 0 <= n < 10 {
        seq!['0'] + dec_str(n as nat)
    } else {
        dec_str(n as nat)
    }
}

/// A year rendered in exactly four digits, zero-padded.
pub open spec fn four_digit(y: int) -> Seq<char> {
    if 0 <= y < 10 {
        seq!['0', '0', '0'] + dec_str(y as nat)
    } else if 10 <= y < 100 {
        seq!['0', '0'] + dec_str(y as nat)
    } else if 100 <= y < 1000 {
        seq!['0'] + dec_str(y as nat)
    } else {
        dec_str(y as nat)
    }
}

/// The calendar key `YYYY-MM-DD` for a date.
pub open spec fn spec_calendar_key(y: int, m: int, d: int) -> Seq<char> {
    four_digit(y) + seq!['-'] + two_digit(m) + seq!['-'] + two_digit(d)
}

/// What stands at one position of a well-formed calendar key: dashes at
/// positions four and seven, decimal digits everywhere else.
pub open spec fn key_char_ok(s: Seq<char>, j: int) -> bool {
    if j == 4 || j == 7 {
        s[j] == '-'
    } else {
        is_ascii_digit(s[j])
    }
}

/// The `YYYY-MM-DD` format invariant of a calendar key.
pub open spec fn is_calendar_key(s: Seq<char>) -> bool {
    s.len() == 10 && (forall|j: int| 0 <= j < 10 ==> #[trigger] key_char_ok(s, j))
}

/// For months and days one through nine the key carries a leading zero; from
/// ten upward it carries the natural two-digit form.
pub proof fn lemma_two_digit_padding(n: int)
    requires
        1 <= n <= 31,
    ensures
        n < 10 ==> two_digit(n) == seq!['0'] + dec_str(n as nat),
        n >= 10 ==> two_digit(n) == dec_str(n as nat),
        two_digit(n).len() == 2,
        all_digits(two_digit(n)),
{
    lemma_dec_str_len(n as nat);
    lemma_dec_str_digits(n as nat);
    if n < 10 {
        assert forall|i: int| 0 <= i < two_digit(n).len() implies is_ascii_digit(
            #[trigger] two_digit(n)[i],
        ) by {
            if i == 0 {
                assert(two_digit(n)[0] == '0');
            } else {
                assert(two_digit(n)[i] == dec_str(n as nat)[i - 1]);
            }
        }
    }
}

/// A year between 0 and 9999 renders as four digit characters.
pub proof fn lemma_four_digit(y: int)
    requires
        0 <= y <= 9999,
    ensures
        four_digit(y).len() == 4,
        all_digits(four_digit(y)),
{
    lemma_dec_str_len(y as nat);
    lemma_dec_str_digits(y as nat);
    assert forall|i: int| 0 <= i < four_digit(y).len() implies is_ascii_digit(
        #[trigger] four_digit(y)[i],
    ) by {
        let pad = 4 - dec_str(y as nat).len();
        if i < pad {
            assert(four_digit(y)[i] == '0');
        } else {
            assert(four_digit(y)[i] == dec_str(y as nat)[i - pad]);
        }
    }
}

/// For a date whose year already has four digits, the key is the natural year
/// rendering followed by the zero-padded month and day: months and days one
/// through nine carry a leading zero, ten and above stand unpadded. (Years
/// below 1000 are zero-padded to keep the ten-character key invariant, so the
/// natural-year form holds from 1000 upward.)
pub proof fn lemma_key_padding(y: int, m: int, d: int)
    requires
        1000 <= y <= 9999,
        1 <= m <= 12,
        1 <= d <= 31,
    ensures
        spec_calendar_key(y, m, d) == dec_str(y as nat) + seq!['-'] + two_digit(m) + seq!['-']
            + two_digit(d),
        m < 10 ==> two_digit(m) == seq!['0'] + dec_str(m as nat),
        m >= 10 ==> two_digit(m) == dec_str(m as nat),
        d < 10 ==> two_digit(d) == seq!['0'] + dec_str(d as nat),
        d >= 10 ==> two_digit(d) == dec_str(d as nat),
{
    lemma_two_digit_padding(m);
    lemma_two_digit_padding(d);
}

/// The key built from any in-range date satisfies the format invariant.
pub proof fn lemma_key_well_formed(y: int, m: int, d: int)
    requires
        0 <= y <= 9999,
        1 <= m <= 12,
        1 <= d <= 31,
    ensures
        is_calendar_key(spec_calendar_key(y, m, d)),
{
    lemma_four_digit(y);
    lemma_two_digit_padding(m);
    lemma_two_digit_padding(d);
    let s = spec_calendar_key(y, m, d);
    assert(s.len() == 10);
    assert forall|j: int| 0 <= j < 10 implies #[trigger] key_char_ok(s, j) by {
        if j < 4 {
            assert(s[j] == four_digit(y)[j]);
        } else if j == 4 {
            assert(s[4] == '-');
        } else if j < 7 {
            assert(s[j] == two_digit(m)[j - 5]);
        } else if j == 7 {
            assert(s[7] == '-');
        } else {
            assert(s[j] == two_digit(d)[j - 8]);
        }
    }
}

/// Renders a month or day in exactly two digits.
fn format_two_digit(n: u32) -> (s: String)
    ensures
        s@ == two_digit(n as int),
{
    if n < 10 {
        let s = "0".to_owned();
        let r = s.concat(digit_str(n));
        proof {
            reveal_strlit("0");
            assert(r@ =~= two_digit(n as int));
        }
        r
    } else {
        u32_to_string(n)
    }
}

/// Renders a year in exactly four digits.
fn format_four_digit(y: u32) -> (s: String)
    requires
        y <= 9999,
    ensures
        s@ == four_digit(y as int),
{
    proof {
        reveal_strlit("0");
        reveal_strlit("00");
        reveal_strlit("000");
        lemma_dec_str_len(y as nat);
    }
    let digits = u32_to_string(y);
    let r = if y < 10 {
        "000".to_owned().concat(digits.as_str())
    } else if y < 100 {
        "00".to_owned().concat(digits.as_str())
    } else if y < 1000 {
        "0".to_owned().concat(digits.as_str())
    } else {
        digits
    };
    proof {
        assert(r@ =~= four_digit(y as int));
    }
    r
}

/// Builds the calendar key `YYYY-MM-DD` for an in-range date.
pub fn calendar_key(year: u32, month: u32, day: u32) -> (s: String)
    requires
        year <= 9999,
        1 <= month <= 12,
        1 <= day <= 31,
    ensures
        s@ == spec_calendar_key(year as int, month as int, day as int),
        is_calendar_key(s@),
{
    let r = format_four_digit(year).concat("-").concat(format_two_digit(month).as_str()).concat(
        "-",
    ).concat(format_two_digit(day).as_str());
    proof {
        reveal_strlit("-");
        assert(r@ =~= spec_calendar_key(year as int, month as int, day as int));
        lemma_key_well_formed(year as int, month as int, day as int);
    }
    r
}

/// The calendar key that a timestamp normalizes to: `Some` exactly where the
/// text parses as an RFC 3339 date-time whose year fits in four digits.
pub open spec fn spec_normalized_key(s: Seq<char>) -> Option<Seq<char>> {
    match rfc3339_date(s) {
        Some(ymd) => if 0 <= ymd.0 <= 9999 {
            Some(spec_calendar_key(ymd.0, ymd.1, ymd.2))
        } else {
            None
        },
        None => None,
    }
}

/// Normalizes an RFC 3339 timestamp into the calendar key of its local date,
/// month and day zero-padded to two digits. Returns `None` where the text does
/// not parse (a fatal input error for the invocation).
pub fn formatted_date_from_rfc3339_timestamp(date: &str) -> (r: Option<String>)
    ensures
        r is Some <==> spec_normalized_key(date@) is Some,
        r matches Some(key) ==> spec_normalized_key(date@) == Some(key@),
        r matches Some(key) ==> is_calendar_key(key@),
{
    match parse_rfc3339(date) {
        None => None,
        Some(pd) => {
            if pd.year < 0 || pd.year > 9999 {
                None
            } else {
                Some(calendar_key(pd.year as u32, pd.month, pd.day))
            }
        },
    }
}

/// Checks the `YYYY-MM-DD` format invariant on a key.
pub fn check_calendar_key(s: &str) -> (b: bool)
    ensures
        b == is_calendar_key(s@),
{
    let len = s.unicode_len();
    if len != 10 {
        return false;
    }
    let mut i: usize = 0;
    while i < 10
        invariant
            0 <= i <= 10,
            s@.len() == 10,
            forall|j: int| 0 <= j < i ==> #[trigger] key_char_ok(s@, j),
        decreases 10 - i,
    {
        let ch = s.get_char(i);
        let v = ch as u32;
        if i == 4 || i == 7 {
            if v != 45 {
                proof {
                    assert(!key_char_ok(s@, i as int));
                }
                return false;
            }
            proof {
                assert(ch == '-');
            }
        } else {
            if v < 48 || v > 57 {
                proof {
                    assert(!key_char_ok(s@, i as int));
                }
                return false;
            }
        }
        i += 1;
    }
    true
}

} // verus!
