//! Calendar conversions, done by chrono.
use vstd::prelude::*;

use crate::numbers::{all_digits, is_digit};

verus! {

/// The Unix time in seconds of an RFC 3339 date-time text, or nothing when
/// chrono does not read the text as one: the result of chrono's
/// `DateTime::parse_from_rfc3339` followed by `DateTime::timestamp`.
pub uninterp spec fn rfc3339_unix_seconds(text: Seq<char>) -> Option<i64>;

/// The text that chrono writes for the UTC instant `secs` seconds after the
/// Unix epoch with the `strftime`-style `pattern`, or nothing when the instant
/// lies outside chrono's calendar: `Utc.timestamp_opt(secs, 0).single()`
/// followed by `format(pattern).to_string()`.
pub uninterp spec fn utc_timestamp_text(secs: i64, pattern: Seq<char>) -> Option<Seq<char>>;

/// `%Y-%m-%dT%H:%M:%SZ`: date and time to the second, with a `Z` suffix.
pub open spec fn iso_seconds_pattern() -> Seq<char> {
    seq!['%', 'Y', '-', '%', 'm', '-', '%', 'd', 'T', '%', 'H', ':', '%', 'M', ':', '%', 'S', 'Z']
}

/// `%Y-%m-%dT%H:%M:%S%.6fZ`: as above with six fractional digits.
pub open spec fn iso_micros_pattern() -> Seq<char> {
    seq![
        '%', 'Y', '-', '%', 'm', '-', '%', 'd', 'T', '%', 'H', ':', '%', 'M', ':', '%', 'S', '%',
        '.', '6', 'f', 'Z'
    ]
}

/// Calls chrono's `DateTime::parse_from_rfc3339` and, on success,
/// `DateTime::timestamp`. The contract only names the result: which texts
/// chrono accepts and which instant it reads are not restated here.
#[verifier::external_body]
pub(crate) fn parse_rfc3339_timestamp(text: &str) -> (res: Option<i64>)
    ensures
        res == rfc3339_unix_seconds(text@),
{
    chrono::DateTime::parse_from_rfc3339(text).ok().map(|dt| dt.timestamp())
}

/// Calls chrono's `Utc.timestamp_opt(secs, 0).single()` and formats the
/// instant with `pattern`. The contract names the result; the calendar
/// arithmetic is not restated. Only the two patterns this library writes are
/// admitted, because formatting with a malformed pattern panics.
#[verifier::external_body]
pub(crate) fn format_utc_timestamp(secs: i64, pattern: &str) -> (res: Option<String>)
    requires
        pattern@ == iso_seconds_pattern() || pattern@ == iso_micros_pattern(),
    ensures
        match res {
            Some(t) => utc_timestamp_text(secs, pattern@) == Some(t@),
            None => utc_timestamp_text(secs, pattern@) is None,
        },
{
    chrono::TimeZone::timestamp_opt(&chrono::Utc, secs, 0).single().map(
        |dt| dt.format(pattern).to_string(),
    )
}

/// The Unix time in seconds of an RFC 2822 date-time text (the form of an
/// HTTP `Date` header), or nothing when chrono does not read the text as
/// one: `DateTime::parse_from_rfc2822` followed by `DateTime::timestamp`.
pub uninterp spec fn rfc2822_unix_seconds(text: Seq<char>) -> Option<i64>;

/// Calls chrono's `DateTime::parse_from_rfc2822` and, on success,
/// `DateTime::timestamp`. The contract names the result; the grammar of the
/// format and the calendar arithmetic are not restated.
#[verifier::external_body]
pub(crate) fn parse_rfc2822_timestamp(text: &str) -> (res: Option<i64>)
    ensures
        res == rfc2822_unix_seconds(text@),
{
    chrono::DateTime::parse_from_rfc2822(text).ok().map(|dt| dt.timestamp())
}

/// Calls chrono's `Utc::now` and `DateTime::timestamp`: the current Unix
/// time in seconds. Which time it is, is the clock's; it is not before 1970,
/// since `Utc::now` panics on a clock set earlier.
#[verifier::external_body]
pub(crate) fn now_unix_seconds() -> (res: i64)
    ensures
        0 <= res,
{
    chrono::Utc::now().timestamp()
}

/// The characters of `s` from `from` on, `n` of them, are decimal digits.
pub open spec fn digits_at(s: Seq<char>, from: int, n: int) -> bool {
    forall|i: int| from <= i < from + n ==> is_digit(#[trigger] s[i])
}

/// The form of a text that `%Y-%m-%dT%H:%M:%S%.6fZ` writes for an instant of
/// the years 1970 to 262143: the year in four digits, or for years past 9999
/// a `+` and five or six digits; then `-`, month, `-`, day, `T`, hour, `:`,
/// minute, `:`, second, each in two digits, `.`, six fractional digits and
/// `Z`.
pub open spec fn iso_micros_form(t: Seq<char>) -> bool {
    t.len() >= 23 && {
        let y = t.take(t.len() - 23);
        let r = t.skip(t.len() - 23);
        &&& ((y.len() == 4 && all_digits(y)) || (6 <= y.len() <= 7 && y[0] == '+' && all_digits(
            y.skip(1),
        )))
        &&& r[0] == '-' && digits_at(r, 1, 2)
        &&& r[3] == '-' && digits_at(r, 4, 2)
        &&& r[6] == 'T' && digits_at(r, 7, 2)
        &&& r[9] == ':' && digits_at(r, 10, 2)
        &&& r[12] == ':' && digits_at(r, 13, 2)
        &&& r[15] == '.' && digits_at(r, 16, 6)
        &&& r[22] == 'Z'
    }
}

/// Calls chrono's `Utc::now` and formats the instant as
/// `%Y-%m-%dT%H:%M:%S%.6fZ`. Which instant it is, is the clock's; the form
/// of the text holds of every instant `Utc::now` can give (from 1970, since
/// it panics on an earlier clock, to chrono's last year 262143): chrono pads
/// the year to four digits and signs years past 9999, pads the other fields
/// to two digits and writes six fractional digits after a `.`.
#[verifier::external_body]
pub(crate) fn now_iso_micros_text() -> (res: String)
    ensures
        iso_micros_form(res@),
{
    chrono::Utc::now().format("%Y-%m-%dT%H:%M:%S%.6fZ").to_string()
}

} // verus!
