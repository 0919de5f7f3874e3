use vstd::prelude::*;

use crate::moment::{NANOS_PER_SEC, SECS_LIMIT, SPAN_SLACK};

verus! {

/// The text that humantime gives to a span of `secs` seconds and `nanos`
/// nanoseconds, such as `1h 2m 3s`.
pub uninterp spec fn span_text_of(secs: int, nanos: int) -> Seq<char>;

/// The calendar date, `YYYY-MM-DD`, of the day that holds `local_secs`
/// seconds since the epoch, as chrono writes it.
pub uninterp spec fn date_text_of(local_secs: int) -> Seq<char>;

/// Relies on humantime's `format_duration`, whose text depends on the span
/// alone and reads `0s` for an empty span.
#[verifier::external_body]
pub(crate) fn span_text(secs: u64, nanos: u32) -> (r: String)
    requires
        nanos < NANOS_PER_SEC,
    ensures
        r@ == span_text_of(secs as int, nanos as int),
        secs == 0 && nanos == 0 ==> r@ == seq!['0', 's'],
{
    humantime::format_duration(std::time::Duration::new(secs, nanos)).to_string()
}

/// Relies on chrono's `DateTime::from_timestamp` and on the `Display` of
/// `NaiveDate`: the date of a count of seconds since the epoch.
#[verifier::external_body]
pub(crate) fn date_text(local_secs: i64) -> (r: String)
    requires
        -SECS_LIMIT - SPAN_SLACK <= local_secs <= SECS_LIMIT + SPAN_SLACK,
    ensures
        r@ == date_text_of(local_secs as int),
{
    match chrono::DateTime::from_timestamp(local_secs, 0) {
        Some(t) => t.date_naive().to_string(),
        None => String::new(),
    }
}

pub open spec fn digit_char(d: int) -> char {
    seq!['0', '1', '2', '3', '4', '5', '6', '7', '8', '9'][d]
}

/// `n` in two decimal digits, with a leading zero.
pub open spec fn two_digits(n: int) -> Seq<char> {
    seq![digit_char(n / 10), digit_char(n % 10)]
}

/// The local time of day of `local_secs` seconds since the epoch, `HH:MM:SS`.
pub open spec fn clock_text_of(local_secs: int) -> Seq<char> {
    let day = local_secs % 86400;
    two_digits(day / 3600) + seq![':'] + two_digits((day / 60) % 60) + seq![':'] + two_digits(
        day % 60,
    )
}

fn digit_str(d: i64) -> (r: &'static str)
    requires
        0 <= d < 10,
    ensures
        r@ == seq![digit_char(d as int)],
{
    proof {
        reveal_strlit("0");
        reveal_strlit("1");
        reveal_strlit("2");
        reveal_strlit("3");
        reveal_strlit("4");
        reveal_strlit("5");
        reveal_strlit("6");
        reveal_strlit("7");
        reveal_strlit("8");
        reveal_strlit("9");
    }
    let r = match d {
        0 => "0",
        1 => "1",
        2 => "2",
        3 => "3",
        4 => "4",
        5 => "5",
        6 => "6",
        7 => "7",
        8 => "8",
        _ => "9",
    };
    assert(r@ =~= seq![digit_char(d as int)]);
    r
}

fn push_two_digits(s: &mut String, n: i64)
    requires
        0 <= n < 100,
    ensures
        final(s)@ == old(s)@ + two_digits(n as int),
{
    s.append(digit_str(n / 10));
    s.append(digit_str(n % 10));
    assert(s@ =~= old(s)@ + two_digits(n as int));
}

/// The local time of day, `HH:MM:SS`.
pub fn clock_text(local_secs: i64) -> (r: String)
    ensures
        r@ == clock_text_of(local_secs as int),
{
    let day = local_secs.checked_rem_euclid(86400).unwrap();
    let mut s = String::new();
    push_two_digits(&mut s, day / 3600);
    proof {
        reveal_strlit(":");
    }
    s.append(":");
    push_two_digits(&mut s, (day / 60) % 60);
    s.append(":");
    push_two_digits(&mut s, day % 60);
    assert(s@ =~= clock_text_of(local_secs as int));
    s
}

} // verus!
