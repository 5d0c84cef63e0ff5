//! The cron crate's parser and schedule iterator, behind a trusted wrapper,
//! and the timestamps the library writes its instants as.

use vstd::prelude::*;
use chrono::{Datelike, Timelike};
use std::str::FromStr;
use crate::text::{padded_decimal, padded_digits, padded_digits_are_digits};

verus! {

/// Whether the cron crate accepts `expr` as a schedule. The grammar is the
/// cron crate's own (seconds, minutes, hours, day of month, month, day of
/// week, optional year).
pub uninterp spec fn cron_accepts(expr: Seq<char>) -> bool;

/// The cron crate's description (its error's `Display`) of why it rejects
/// `expr`; it depends on the text alone.
pub uninterp spec fn cron_error_message(expr: Seq<char>) -> Seq<char>;

/// Whether the schedule of `expr` includes the UTC instant with these
/// calendar fields (what `Schedule::includes` answers for it).
pub uninterp spec fn cron_includes(
    expr: Seq<char>,
    year: int,
    month: int,
    day: int,
    hour: int,
    minute: int,
    second: int,
    nanosecond: int,
) -> bool;

/// A UTC instant by its calendar fields, as chrono reports them.
/// `nanosecond` counts from the start of the second and passes 999_999_999
/// only during a leap second.
#[derive(Debug, Clone, Copy, PartialEq, Eq)]
pub struct CronInstant {
    pub year: i32,
    pub month: u32,
    pub day: u32,
    pub hour: u32,
    pub minute: u32,
    pub second: u32,
    pub nanosecond: u32,
}

/// The field ranges chrono documents for its accessors, with cron's years
/// (1970 to 2100).
pub open spec fn instant_in_range(i: CronInstant) -> bool {
    &&& 1970 <= i.year <= 2100
    &&& 1 <= i.month <= 12
    &&& 1 <= i.day <= 31
    &&& i.hour < 24
    &&& i.minute < 60
    &&& i.second < 60
    &&& i.nanosecond < 2_000_000_000
}

/// The schedule of `expr` fires at instant `i`.
pub open spec fn cron_fires_at(expr: Seq<char>, i: CronInstant) -> bool {
    cron_includes(
        expr,
        i.year as int,
        i.month as int,
        i.day as int,
        i.hour as int,
        i.minute as int,
        i.second as int,
        i.nanosecond as int,
    )
}

/// The next time the cron expression `expr` fires after the present moment,
/// in UTC: `<cron::Schedule as FromStr>::from_str` on `expr`, then
/// `Schedule::upcoming(Utc)` and `Iterator::next`, the instant handed back
/// by chrono's `Datelike` and `Timelike` accessors. A rejected expression
/// gives the parse error's `Display` text. Whether the text parses, and the
/// error text, depend on `expr` alone and are named; which instant comes
/// next depends on the clock, so of it only what holds of every outcome is
/// stated: its fields lie in the ranges chrono documents (and cron's years),
/// and it is an instant the schedule of `expr` includes. `Ok(None)` means
/// the schedule never fires again.
#[verifier::external_body]
pub(crate) fn next_fire_time(expr: &str) -> (r: Result<Option<CronInstant>, String>)
    ensures
        r is Ok <==> cron_accepts(expr@),
        r matches Err(m) ==> m@ == cron_error_message(expr@),
        r matches Ok(Some(i)) ==> instant_in_range(i) && cron_includes(
            expr@,
            i.year as int,
            i.month as int,
            i.day as int,
            i.hour as int,
            i.minute as int,
            i.second as int,
            i.nanosecond as int,
        ),
{
    match cron::Schedule::from_str(expr) {
        Ok(s) => match s.upcoming(chrono::Utc).next() {
            Some(t) => Ok(Some(CronInstant {
                year: t.year(), month: t.month(), day: t.day(), hour: t.hour(),
                minute: t.minute(), second: t.second(), nanosecond: t.nanosecond(),
            })),
            None => Ok(None),
        },
        Err(e) => Err(e.to_string()),
    }
}

/// An ASCII decimal digit.
pub open spec fn is_digit(c: char) -> bool {
    '0' <= c <= '9'
}

/// A UTC timestamp written `YYYY-MM-DDTHH:MM:SS.mmm`: 23 characters, digits
/// everywhere but the separators.
pub open spec fn is_timestamp(t: Seq<char>) -> bool {
    &&& t.len() == 23
    &&& t[4] == '-' && t[7] == '-' && t[10] == 'T' && t[13] == ':' && t[16] == ':' && t[19] == '.'
    &&& forall|i: int| 0 <= i < 23 && i != 4 && i != 7 && i != 10 && i != 13 && i != 16 && i != 19
        ==> is_digit(#[trigger] t[i])
}

/// How an instant is written: `YYYY-MM-DDTHH:MM:SS.mmm`, as chrono's
/// `%Y-%m-%dT%H:%M:%S%.3f` writes it (a leap second shows as second 60).
pub open spec fn timestamp_text(i: CronInstant) -> Seq<char> {
    padded_digits(i.year as nat, 4) + seq!['-'] + padded_digits(i.month as nat, 2) + seq!['-']
        + padded_digits(i.day as nat, 2) + seq!['T'] + padded_digits(i.hour as nat, 2) + seq![':']
        + padded_digits(i.minute as nat, 2) + seq![':']
        + padded_digits((i.second + i.nanosecond / 1_000_000_000) as nat, 2) + seq!['.']
        + padded_digits((i.nanosecond / 1_000_000 % 1000) as nat, 3)
}

/// Every instant in range is written as a timestamp.
pub proof fn instants_are_written_as_timestamps(i: CronInstant)
    requires
        instant_in_range(i),
    ensures
        is_timestamp(timestamp_text(i)),
{
    let y = padded_digits(i.year as nat, 4);
    let mo = padded_digits(i.month as nat, 2);
    let d = padded_digits(i.day as nat, 2);
    let h = padded_digits(i.hour as nat, 2);
    let mi = padded_digits(i.minute as nat, 2);
    let s = padded_digits((i.second + i.nanosecond / 1_000_000_000) as nat, 2);
    let ms = padded_digits((i.nanosecond / 1_000_000 % 1000) as nat, 3);
    padded_digits_are_digits(i.year as nat, 4);
    padded_digits_are_digits(i.month as nat, 2);
    padded_digits_are_digits(i.day as nat, 2);
    padded_digits_are_digits(i.hour as nat, 2);
    padded_digits_are_digits(i.minute as nat, 2);
    padded_digits_are_digits((i.second + i.nanosecond / 1_000_000_000) as nat, 2);
    padded_digits_are_digits((i.nanosecond / 1_000_000 % 1000) as nat, 3);
    let t = timestamp_text(i);
    assert(t =~= y + seq!['-'] + mo + seq!['-'] + d + seq!['T'] + h + seq![':'] + mi + seq![':'] + s
        + seq!['.'] + ms);
    assert(t.len() == 23);
    assert forall|k: int| 0 <= k < 23 && k != 4 && k != 7 && k != 10 && k != 13 && k != 16 && k != 19
        implies is_digit(#[trigger] t[k]) by {
        if k < 4 {
            assert(t[k] == y[k]);
        } else if k < 7 {
            assert(t[k] == mo[k - 5]);
        } else if k < 10 {
            assert(t[k] == d[k - 8]);
        } else if k < 13 {
            assert(t[k] == h[k - 11]);
        } else if k < 16 {
            assert(t[k] == mi[k - 14]);
        } else if k < 19 {
            assert(t[k] == s[k - 17]);
        } else {
            assert(t[k] == ms[k - 20]);
        }
    }
}

/// Writes an instant as a timestamp, `YYYY-MM-DDTHH:MM:SS.mmm`.
pub fn format_timestamp(i: CronInstant) -> (r: String)
    requires
        instant_in_range(i),
    ensures
        r@ == timestamp_text(i),
        is_timestamp(r@),
{
    proof {
        reveal_strlit("-");
        reveal_strlit("T");
        reveal_strlit(":");
        reveal_strlit(".");
        instants_are_written_as_timestamps(i);
    }
    let shown_second: u64 = i.second as u64 + i.nanosecond as u64 / 1_000_000_000;
    let millis: u64 = i.nanosecond as u64 / 1_000_000 % 1000;
    let mut r = padded_decimal(i.year as u64, 4);
    r.append("-");
    r.append(padded_decimal(i.month as u64, 2).as_str());
    r.append("-");
    r.append(padded_decimal(i.day as u64, 2).as_str());
    r.append("T");
    r.append(padded_decimal(i.hour as u64, 2).as_str());
    r.append(":");
    r.append(padded_decimal(i.minute as u64, 2).as_str());
    r.append(":");
    r.append(padded_decimal(shown_second, 2).as_str());
    r.append(".");
    r.append(padded_decimal(millis, 3).as_str());
    proof {
        assert(r@ =~= timestamp_text(i));
    }
    r
}

} // verus!
