//! Timestamps from the system clock.
use vstd::prelude::*;

use crate::laws::law_day_text_is_rfc3339_date;
use crate::text::{
    all_digits, decimal, decimal_string, pad_zeros,
    signed_decimal, signed_decimal_string, signed_padded, signed_zero_pad, zero_pad,
};

verus! {

/// Whether `o` is an RFC 3339 offset: `Z`, or a sign, two digits, `:` and two
/// digits.
pub open spec fn is_offset_text(o: Seq<char>) -> bool {
    ||| o == seq!['Z']
    ||| {
        &&& o.len() == 6
        &&& (o[0] == '+' || o[0] == '-')
        &&& all_digits(o.subrange(1, 3))
        &&& o[3] == ':'
        &&& all_digits(o.subrange(4, 6))
    }
}

/// Whether `r` is what follows the seconds of an RFC 3339 timestamp: an
/// optional fraction (`.` and one to nine digits), then the offset.
pub open spec fn is_rfc3339_tail(r: Seq<char>) -> bool {
    ||| is_offset_text(r)
    ||| exists|k: int|
        2 <= k <= 10 && k <= r.len() && r[0] == '.' && all_digits(#[trigger] r.subrange(1, k))
            && is_offset_text(r.subrange(k, r.len() as int))
}

/// Whether `t` has the form `YYYY-MM-DDTHH:MM:SS[.fraction]offset` of an
/// RFC 3339 timestamp.
pub open spec fn is_rfc3339_text(t: Seq<char>) -> bool {
    &&& t.len() >= 20
    &&& all_digits(t.subrange(0, 4))
    &&& t[4] == '-'
    &&& all_digits(t.subrange(5, 7))
    &&& t[7] == '-'
    &&& all_digits(t.subrange(8, 10))
    &&& t[10] == 'T'
    &&& all_digits(t.subrange(11, 13))
    &&& t[13] == ':'
    &&& all_digits(t.subrange(14, 16))
    &&& t[16] == ':'
    &&& all_digits(t.subrange(17, 19))
    &&& is_rfc3339_tail(t.subrange(19, t.len() as int))
}

/// The `YYYY-MM-DD` date at the head of an RFC 3339 timestamp.
pub open spec fn rfc3339_date(year: nat, month: nat, day: nat) -> Seq<char> {
    zero_pad(decimal(year), 4) + seq!['-'] + zero_pad(decimal(month), 2) + seq!['-'] + zero_pad(
        decimal(day),
        2,
    )
}

/// The Unix seconds of `0000-01-01T00:00:00Z`, the first instant of year 0.
pub open spec fn year_zero_seconds() -> int {
    -62167219200
}

/// One reading of the UTC clock, taken apart into plain values.
pub struct ClockReading {
    /// The instant in RFC 3339 form, when it has one.
    pub rfc3339: Option<String>,
    /// The instant's whole seconds since the Unix epoch.
    pub unix_seconds: i64,
    /// The calendar year.
    pub year: i32,
    /// The month, 1 (January) to 12.
    pub month: u8,
    /// The day of the month.
    pub day: u8,
}

/// Reads the clock once with `OffsetDateTime::now_utc` and takes the instant
/// apart with `format(&Rfc3339)`, `unix_timestamp`, `year`, `month` (as its
/// number) and `day`. Stated, as the crate's source shows it: without the
/// `large-dates` feature the year lies in -9999 to 9999; the month is 1 to
/// 12 and the day 1 to 31. `now_utc` gives the UTC offset, so the `Rfc3339`
/// formatting fails only for a year outside 0 to 9999 (here: a negative year,
/// whose instants lie before -62167219200 seconds); otherwise it writes the
/// year in four digits, month and day in two, `T`, hour, minute and second in
/// two digits each, a fraction of one to nine digits when there are
/// nanoseconds, and `Z`. Which instant the clock gives is not stated.
#[verifier::external_body]
fn read_clock() -> (res: ClockReading)
    ensures
        -9999 <= res.year <= 9999,
        1 <= res.month <= 12,
        1 <= res.day <= 31,
        res.rfc3339 is None <==> res.year < 0,
        res.rfc3339 is None ==> res.unix_seconds < year_zero_seconds(),
        res.rfc3339 matches Some(t) ==> {
            &&& is_rfc3339_text(t@)
            &&& t@.last() == 'Z'
            &&& t@.subrange(0, 10) == rfc3339_date(res.year as nat, res.month as nat, res.day as nat)
        },
{
    let now = time::OffsetDateTime::now_utc();
    ClockReading {
        rfc3339: now.format(&time::format_description::well_known::Rfc3339).ok(),
        unix_seconds: now.unix_timestamp(),
        year: now.year(),
        month: u8::from(now.month()),
        day: now.day(),
    }
}

/// Whether `s` is a timestamp that the clock gives: an RFC 3339 text in UTC
/// (ending in `Z`), or, for an instant before the year 0, its Unix seconds
/// in decimal.
pub open spec fn is_clock_text(s: Seq<char>) -> bool {
    ||| is_rfc3339_text(s) && s.last() == 'Z'
    ||| exists|v: int| i64::MIN <= v < year_zero_seconds() && s == #[trigger] signed_decimal(v)
}

/// The text `YYYYMMDD` of a calendar date (the year as `{:04}` prints it).
pub open spec fn calendar_text(year: int, month: nat, day: nat) -> Seq<char> {
    signed_zero_pad(year, 4) + zero_pad(decimal(month), 2) + zero_pad(decimal(day), 2)
}

/// The timestamp text of an instant: its RFC 3339 form when there is one,
/// else its Unix seconds in decimal.
pub fn rfc3339_or_seconds(formatted: Option<String>, seconds: i64) -> (res: String)
    ensures
        formatted matches Some(v) ==> res == v,
        formatted is None ==> res@ == signed_decimal(seconds as int),
{
    match formatted {
        Some(value) => value,
        None => signed_decimal_string(seconds),
    }
}

/// The text `YYYYMMDD` of a date.
pub fn calendar_day_text(year: i32, month: u8, day: u8) -> (res: String)
    ensures
        res@ == calendar_text(year as int, month as nat, day as nat),
{
    let mut text = signed_padded(year as i64, 4);
    let m = pad_zeros(decimal_string(month as u64), 2);
    let d = pad_zeros(decimal_string(day as u64), 2);
    text.append(m.as_str());
    text.append(d.as_str());
    text
}

/// The current instant in RFC 3339 form, in UTC; an instant before the year
/// 0, which has no such form, as its Unix seconds in decimal. Which instant
/// depends on the clock.
pub fn now_rfc3339() -> (res: String)
    ensures
        is_clock_text(res@),
{
    let now = read_clock();
    let res = rfc3339_or_seconds(now.rfc3339, now.unix_seconds);
    proof {
        if now.rfc3339 is None {
            assert(res@ == signed_decimal(now.unix_seconds as int));
        }
    }
    res
}

/// Whether `s` is the `YYYYMMDD` text of a date that the clock can give: a
/// year from -9999 to 9999, a month from 1 to 12, a day from 1 to 31.
pub open spec fn is_day_text(s: Seq<char>) -> bool {
    exists|y: int, m: nat, d: nat|
        -9999 <= y <= 9999 && 1 <= m <= 12 && 1 <= d <= 31 && s == #[trigger] calendar_text(y, m, d)
}

/// Today's date in UTC as `YYYYMMDD`.
pub fn today_yyyymmdd() -> (res: String)
    ensures
        is_day_text(res@),
        res@[0] == '-' || (res@.len() == 8 && all_digits(res@)),
{
    let now = read_clock();
    let res = calendar_day_text(now.year, now.month, now.day);
    assert(res@ == calendar_text(now.year as int, now.month as nat, now.day as nat));
    proof {
        if now.year >= 0 {
            law_day_text_is_rfc3339_date(now.year as nat, now.month as nat, now.day as nat);
        }
    }
    res
}

} // verus!
