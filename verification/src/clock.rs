//! The current time, as the text that drafts and prompts carry.
use vstd::prelude::*;

verus! {

/// `c` is an ASCII digit.
pub open spec fn is_digit(c: char) -> bool {
    '0' <= c && c <= '9'
}

/// The value of the ASCII digit `c`.
pub open spec fn digit_value(c: char) -> int {
    (c as int) - ('0' as int)
}

/// `s[i]` and `s[i + 1]` are two digits whose number lies in `lo..=hi`.
pub open spec fn two_digits_in(s: Seq<char>, i: int, lo: int, hi: int) -> bool {
    &&& is_digit(s[i])
    &&& is_digit(s[i + 1])
    &&& lo <= digit_value(s[i]) * 10 + digit_value(s[i + 1]) <= hi
}

/// A year as `%Y` writes one after 1970: four digits, or `+` and more digits.
pub open spec fn is_year_text(y: Seq<char>) -> bool {
    ||| (y.len() == 4 && forall|i: int| 0 <= i < 4 ==> is_digit(#[trigger] y[i]))
    ||| (y.len() >= 5 && y[0] == '+' && forall|i: int| 1 <= i < y.len() ==> is_digit(#[trigger] y[i]))
}

/// `s` is a time written as `"%Y-%m-%d %H:%M:%S"`: the year, then month,
/// day, hour, minute and second as two digits each, within their ranges.
pub open spec fn is_timestamp(s: Seq<char>) -> bool {
    let n = s.len() as int;
    &&& n >= 19
    &&& is_year_text(s.subrange(0, n - 15))
    &&& s[n - 15] == '-'
    &&& two_digits_in(s, n - 14, 1, 12)
    &&& s[n - 12] == '-'
    &&& two_digits_in(s, n - 11, 1, 31)
    &&& s[n - 9] == ' '
    &&& two_digits_in(s, n - 8, 0, 23)
    &&& s[n - 6] == ':'
    &&& two_digits_in(s, n - 5, 0, 59)
    &&& s[n - 3] == ':'
    &&& two_digits_in(s, n - 2, 0, 59)
}

/// `SystemTime::now()` measured from the Unix epoch: whole seconds and the
/// nanoseconds past them (below one billion, as `Duration::subsec_nanos`
/// documents). `None` when the clock reads a time before 1970, where
/// `duration_since` fails. Which time it reads is not stated.
#[verifier::external_body]
fn clock_reading() -> (r: Option<(u64, u32)>)
    ensures
        r matches Some(p) ==> p.1 < 1_000_000_000,
{
    match std::time::SystemTime::now().duration_since(std::time::UNIX_EPOCH) {
        Ok(d) => Some((d.as_secs(), d.subsec_nanos())),
        Err(_) => None,
    }
}

/// What chrono writes for the UTC time `secs` seconds and `nanos`
/// nanoseconds after the Unix epoch, formatted as `"%Y-%m-%d %H:%M:%S"`.
pub uninterp spec fn utc_text(secs: u64, nanos: u32) -> Seq<char>;

/// `chrono::DateTime::from_timestamp(secs, nanos)` formatted with
/// `"%Y-%m-%d %H:%M:%S"`: `None` where chrono has no such date. The text is
/// named by `utc_text`; of its shape, chrono writes a year from 1970 on
/// with four digits (a `+` and more digits past 9999) and every other field
/// with two zero-padded digits, and with fewer than a billion nanoseconds
/// there is no leap second, so the seconds stay below 60. chrono's dates
/// reach the year 262142, so every time up to 8e12 seconds (about the year
/// 255000) has a date.
#[verifier::external_body]
fn format_utc(secs: u64, nanos: u32) -> (r: Option<String>)
    requires
        secs <= i64::MAX,
        nanos < 1_000_000_000,
    ensures
        r matches Some(t) ==> t@ == utc_text(secs, nanos) && is_timestamp(t@),
        secs <= 8_000_000_000_000 ==> r is Some,
{
    match chrono::DateTime::from_timestamp(secs as i64, nanos) {
        Some(t) => Some(t.format("%Y-%m-%d %H:%M:%S").to_string()),
        None => None,
    }
}

/// The current UTC time written as `"%Y-%m-%d %H:%M:%S"`, or `None` when the
/// system clock reads a time before 1970 or past the dates chrono has.
pub(crate) fn utc_timestamp() -> (r: Option<String>)
    ensures
        r matches Some(t) ==> is_timestamp(t@),
{
    match clock_reading() {
        Some((secs, nanos)) => if secs <= 9_223_372_036_854_775_807 {
            format_utc(secs, nanos)
        } else {
            None
        },
        None => None,
    }
}

} // verus!
