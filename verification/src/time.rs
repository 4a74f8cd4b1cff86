//! How long ago a timestamp was, as the tables show it.
use vstd::prelude::*;
use chrono::Datelike;
use crate::messages::number_then;
use crate::text::{decimal, first_chars, prefix, push_char};

verus! {

/// What `chrono::DateTime::parse_from_rfc3339` makes of a text, as plain
/// values: the Unix timestamp in seconds, the nanoseconds within the second
/// (a leap second counts from 1 000 000 000), and the year, month and day of
/// the date written in the text.
pub uninterp spec fn rfc3339_fields(text: Seq<char>) -> Option<(i64, u32, i32, u32, u32)>;

/// The earliest timestamp an RFC 3339 text can denote (year 0, offset +23:59).
pub open spec fn earliest_stamp() -> int {
    -62_167_305_600
}

/// The latest timestamp an RFC 3339 text can denote (year 9999, offset -23:59).
pub open spec fn latest_stamp() -> int {
    253_402_387_199
}

/// Whether (`secs`, `nanos`) is an instant that chrono can rebuild with
/// `DateTime::from_timestamp`: a leap second only in the last second of a
/// minute, and a year that chrono can hold.
pub open spec fn valid_instant(secs: i64, nanos: u32) -> bool {
    &&& nanos < 2_000_000_000
    &&& nanos >= 1_000_000_000 ==> secs % 60 == 59
    &&& earliest_stamp() <= secs <= latest_stamp()
}

/// Parses an RFC 3339 timestamp with `chrono::DateTime::parse_from_rfc3339`
/// and returns its timestamp, sub-second nanoseconds and written date.
/// Claims that the result is named `rfc3339_fields`, and what chrono's parser
/// guarantees of a success: a four-digit year, a month and a day in range,
/// and an instant that `valid_instant` accepts (offsets are whole minutes).
#[verifier::external_body]
fn parse_rfc3339(text: &str) -> (r: Option<(i64, u32, i32, u32, u32)>)
    ensures
        r == rfc3339_fields(text@),
        r matches Some((secs, nanos, year, month, day)) ==> {
            &&& 0 <= year <= 9999
            &&& 1 <= month <= 12
            &&& 1 <= day <= 31
            &&& valid_instant(secs, nanos)
        },
{
    match chrono::DateTime::parse_from_rfc3339(text) {
        Ok(t) => Some((t.timestamp(), t.timestamp_subsec_nanos(), t.year(), t.month(), t.day())),
        Err(_) => None,
    }
}

/// The last second that chrono's `DateTime<Utc>` can hold
/// (+262142-12-31T23:59:59).
pub open spec fn latest_clock_stamp() -> int {
    8_210_266_876_799
}

/// Whether (`now_s`, `now_n`) can be a reading of the system clock through
/// `chrono::Utc::now`: a Unix timestamp from 1970 on that chrono can hold,
/// and the nanoseconds within that second.
pub open spec fn clock_reading(now_s: int, now_n: int) -> bool {
    0 <= now_s <= latest_clock_stamp() && 0 <= now_n < 1_000_000_000
}

/// Whole seconds from the instant (`then_s`, `then_n`) to the instant
/// (`now_s`, `now_n`), each a Unix timestamp and the nanoseconds within its
/// second, as `signed_duration_since(..).num_seconds()` counts them: a leap
/// second (nanoseconds from 1 000 000 000) is counted when the other instant
/// lies later in the day, and a part of a second is dropped toward zero.
pub open spec fn elapsed_seconds(now_s: int, now_n: int, then_s: int, then_n: int) -> int {
    let leap: int = if now_s % 86400 > then_s % 86400 && then_n >= 1_000_000_000 {
        1
    } else if now_s % 86400 < then_s % 86400 && now_n >= 1_000_000_000 {
        -1
    } else {
        0
    };
    let secs = now_s - then_s + leap + (now_n - then_n) / 1_000_000_000;
    let nanos = (now_n - then_n) % 1_000_000_000;
    if secs < 0 && nanos > 0 {
        secs + 1
    } else {
        secs
    }
}

/// Reads the system clock: the time since 1970 from `SystemTime::now`,
/// turned into a chrono instant with `DateTime::from_timestamp`, returned as
/// its timestamp and sub-second nanoseconds. The reading depends on the
/// clock: all that is claimed is what every reading satisfies. `None` when
/// the clock reads before 1970 or beyond what chrono can hold, where
/// `chrono::Utc::now` would panic.
#[verifier::external_body]
fn current_instant() -> (r: Option<(i64, u32)>)
    ensures
        r matches Some((now_s, now_n)) ==> clock_reading(now_s as int, now_n as int),
{
    let since = std::time::SystemTime::now().duration_since(std::time::UNIX_EPOCH).ok()?;
    let secs = i64::try_from(since.as_secs()).ok()?;
    let now = chrono::DateTime::from_timestamp(secs, since.subsec_nanos())?;
    Some((now.timestamp(), now.timestamp_subsec_nanos()))
}

/// Whole seconds from (`then_s`, `then_n`) to (`now_s`, `now_n`), counted
/// by chrono: both instants are rebuilt with `DateTime::from_timestamp`,
/// then `signed_duration_since` and `num_seconds`. Claims that the result is
/// `elapsed_seconds`, as chrono's source computes it.
#[verifier::external_body]
fn seconds_between(now_s: i64, now_n: u32, then_s: i64, then_n: u32) -> (r: i64)
    requires
        clock_reading(now_s as int, now_n as int),
        valid_instant(then_s, then_n),
    ensures
        r == elapsed_seconds(now_s as int, now_n as int, then_s as int, then_n as int),
{
    let now = chrono::DateTime::from_timestamp(now_s, now_n).unwrap();
    let then = chrono::DateTime::from_timestamp(then_s, then_n).unwrap();
    now.signed_duration_since(then).num_seconds()
}

/// `n` in decimal with leading zeros up to `width` digits.
pub open spec fn zero_padded(n: nat, width: nat) -> Seq<char> {
    if decimal(n).len() >= width {
        decimal(n)
    } else {
        Seq::new((width - decimal(n).len()) as nat, |i: int| '0') + decimal(n)
    }
}

/// A date as `%Y-%m-%d` writes it for years 0 to 9999.
pub open spec fn date_text(year: nat, month: nat, day: nat) -> Seq<char> {
    zero_padded(year, 4) + "-"@ + zero_padded(month, 2) + "-"@ + zero_padded(day, 2)
}

/// How long ago, given the whole seconds elapsed: "now" under a minute, then
/// minutes, hours, days, and from 30 days on the date itself.
pub open spec fn ago_text(elapsed: int, date: Seq<char>) -> Seq<char> {
    if elapsed < 60 {
        "now"@
    } else if elapsed < 3600 {
        decimal((elapsed / 60) as nat) + "m ago"@
    } else if elapsed < 86400 {
        decimal((elapsed / 3600) as nat) + "h ago"@
    } else if elapsed < 30 * 86400 {
        decimal((elapsed / 86400) as nat) + "d ago"@
    } else {
        date
    }
}

fn push_zero_padded(s: &mut String, n: u64, width: usize)
    ensures
        final(s)@ == old(s)@ + zero_padded(n as nat, width as nat),
{
    let digits = crate::text::decimal_string(n);
    let len = digits.unicode_len();
    let mut k: usize = len;
    while k < width
        invariant
            len == decimal(n as nat).len(),
            len <= k <= width || (len > width && k == len),
            s@ == old(s)@ + Seq::new((k - len) as nat, |i: int| '0'),
        decreases width - k,
    {
        push_char(s, '0');
        k = k + 1;
        assert(Seq::new((k - len) as nat, |i: int| '0') =~= Seq::new((k - 1 - len) as nat, |i: int| '0').push('0'));
    }
    s.append(digits.as_str());
    if len >= width {
        assert(Seq::new(0, |i: int| '0') =~= Seq::<char>::empty());
    }
    assert(s@ =~= old(s)@ + zero_padded(n as nat, width as nat));
}

/// A date as `%Y-%m-%d` writes it.
fn date_string(year: u32, month: u32, day: u32) -> (r: String)
    ensures
        r@ == date_text(year as nat, month as nat, day as nat),
{
    let mut r = String::new();
    push_zero_padded(&mut r, year as u64, 4);
    r.append("-");
    push_zero_padded(&mut r, month as u64, 2);
    r.append("-");
    push_zero_padded(&mut r, day as u64, 2);
    assert(r@ =~= date_text(year as nat, month as nat, day as nat));
    r
}

/// How long ago an instant was, from the seconds elapsed since it and its
/// written date.
pub fn describe_elapsed(elapsed: i64, year: u32, month: u32, day: u32) -> (r: String)
    ensures
        r@ == ago_text(elapsed as int, date_text(year as nat, month as nat, day as nat)),
{
    if elapsed < 60 {
        String::from_str("now")
    } else if elapsed < 3600 {
        number_then((elapsed / 60) as u64, "m ago")
    } else if elapsed < 86400 {
        number_then((elapsed / 3600) as u64, "h ago")
    } else if elapsed < 30 * 86400 {
        number_then((elapsed / 86400) as u64, "d ago")
    } else {
        date_string(year, month, day)
    }
}

/// What the update-time column shows for `timestamp` when the clock reads
/// (`now_s`, `now_n`): "—" without a timestamp, the first ten characters of
/// a text that is not RFC 3339, otherwise how long ago it was.
pub open spec fn relative_text(timestamp: Option<Seq<char>>, now_s: int, now_n: int) -> Seq<char> {
    match timestamp {
        None => "\u{2014}"@,
        Some(t) => match rfc3339_fields(t) {
            None => prefix(t, 10),
            Some((secs, nanos, year, month, day)) => ago_text(
                elapsed_seconds(now_s, now_n, secs as int, nanos as int),
                date_text(year as nat, month as nat, day as nat),
            ),
        },
    }
}

/// What the update-time column shows for `timestamp` when the clock cannot
/// be read: the written date of an RFC 3339 timestamp, and otherwise the
/// same as at any reading.
pub open spec fn unclocked_text(timestamp: Option<Seq<char>>) -> Seq<char> {
    match timestamp {
        None => "\u{2014}"@,
        Some(t) => match rfc3339_fields(t) {
            None => prefix(t, 10),
            Some((secs, nanos, year, month, day)) => date_text(year as nat, month as nat, day as nat),
        },
    }
}

/// Whether `r` is what the update-time column shows for `timestamp`: the
/// text at some reading of the clock, or the text without a reading.
pub open spec fn relative_of(timestamp: Option<Seq<char>>, r: Seq<char>) -> bool {
    ||| exists|now_s: int, now_n: int| clock_reading(now_s, now_n) && r == #[trigger] relative_text(timestamp, now_s, now_n)
    ||| r == unclocked_text(timestamp)
}

/// How long ago a parsed timestamp was when the clock reads
/// (`now_s`, `now_n`).
fn ago_since(secs: i64, nanos: u32, year: i32, month: u32, day: u32, now_s: i64, now_n: u32) -> (r: String)
    requires
        clock_reading(now_s as int, now_n as int),
        valid_instant(secs, nanos),
        0 <= year,
    ensures
        r@ == ago_text(
            elapsed_seconds(now_s as int, now_n as int, secs as int, nanos as int),
            date_text(year as nat, month as nat, day as nat),
        ),
{
    let elapsed = seconds_between(now_s, now_n, secs, nanos);
    assert((year as u32) as nat == year as nat);
    describe_elapsed(elapsed, year as u32, month, day)
}

/// The update-time column when the clock reads (`now_s`, `now_n`).
pub fn relative_time_at(timestamp: Option<&str>, now_s: i64, now_n: u32) -> (r: String)
    requires
        clock_reading(now_s as int, now_n as int),
    ensures
        r@ == relative_text(match timestamp { Some(t) => Some(t@), None => None }, now_s as int, now_n as int),
{
    match timestamp {
        None => String::from_str("\u{2014}"),
        Some(text) => match parse_rfc3339(text) {
            None => first_chars(text, 10),
            Some((secs, nanos, year, month, day)) => ago_since(secs, nanos, year, month, day, now_s, now_n),
        },
    }
}

/// The update-time column: "—" without a timestamp, the first ten
/// characters of a text that is not RFC 3339, otherwise how long ago it was
/// by the system clock, which is read only in that last case; the written
/// date when the clock cannot be read.
pub fn relative_time(timestamp: Option<&str>) -> (r: String)
    ensures
        relative_of(match timestamp { Some(t) => Some(t@), None => None }, r@),
{
    match timestamp {
        None => {
            let r = String::from_str("\u{2014}");
            assert(r@ == relative_text(None, 0, 0));
            r
        },
        Some(text) => match parse_rfc3339(text) {
            None => {
                let r = first_chars(text, 10);
                assert(r@ == relative_text(Some(text@), 0, 0));
                r
            },
            Some((secs, nanos, year, month, day)) => match current_instant() {
                Some((now_s, now_n)) => {
                    let r = ago_since(secs, nanos, year, month, day, now_s, now_n);
                    assert(r@ == relative_text(Some(text@), now_s as int, now_n as int));
                    r
                },
                None => {
                    assert((year as u32) as nat == year as nat);
                    date_string(year as u32, month, day)
                },
            },
        },
    }
}

} // verus!
