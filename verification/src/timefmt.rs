//! Times as the tables show them ("Apr 01, 02:59 UTC"), from ISO 8601 text
//! or from Unix timestamps; the calendar arithmetic is chrono's.

use vstd::prelude::*;
use vstd::utf8::{decode_utf8, encode_utf8, is_char_boundary};
use crate::chars::{chars_of, chars_equal, string_of};
use crate::numtext::{nat_digits, u128_to_string};
use crate::text::split_at_byte;

verus! {

/// What chrono writes as "%b %d, %H:%M UTC" for text that it reads as an
/// RFC 3339 date and time; `None` where it cannot read it.
pub uninterp spec fn rfc3339_display(s: Seq<char>) -> Option<Seq<char>>;

/// What chrono writes as "%b %d, %H:%M UTC" for text that it reads as
/// "%Y-%m-%dT%H:%M:%S"; `None` where it cannot read it.
pub uninterp spec fn naive_display(s: Seq<char>) -> Option<Seq<char>>;

/// What chrono writes as "%b %d, %H:%M UTC" for a Unix time in seconds;
/// `None` where the time is out of chrono's range.
pub uninterp spec fn unix_display(secs: int) -> Option<Seq<char>>;

/// Calls chrono's `DateTime::parse_from_rfc3339` and writes the result with
/// `format("%b %d, %H:%M UTC")`. The text is named, not stated: it is a
/// function of `s` alone.
#[verifier::external_body]
fn show_rfc3339(s: &str) -> (res: Option<String>)
    ensures
        match res {
            Some(t) => rfc3339_display(s@) == Some(t@),
            None => rfc3339_display(s@) is None,
        },
{
    match chrono::DateTime::parse_from_rfc3339(s) {
        Ok(dt) => Some(dt.format("%b %d, %H:%M UTC").to_string()),
        Err(_) => None,
    }
}

/// Calls chrono's `NaiveDateTime::parse_from_str` with "%Y-%m-%dT%H:%M:%S"
/// and writes the result with `format("%b %d, %H:%M UTC")`; named, as above.
#[verifier::external_body]
fn show_naive(s: &str) -> (res: Option<String>)
    ensures
        match res {
            Some(t) => naive_display(s@) == Some(t@),
            None => naive_display(s@) is None,
        },
{
    match chrono::NaiveDateTime::parse_from_str(s, "%Y-%m-%dT%H:%M:%S") {
        Ok(dt) => Some(dt.format("%b %d, %H:%M UTC").to_string()),
        Err(_) => None,
    }
}

/// Calls chrono's `DateTime::from_timestamp(secs, 0)` and writes the result
/// with `format("%b %d, %H:%M UTC")`; named, as above. chrono places every
/// day from the Unix epoch to the end of its year 262142, which is more than
/// 8 * 10^12 seconds on; from 0 up to that many seconds the result is
/// `Some`.
#[verifier::external_body]
fn show_unix(secs: i64) -> (res: Option<String>)
    ensures
        match res {
            Some(t) => unix_display(secs as int) == Some(t@),
            None => unix_display(secs as int) is None,
        },
        0 <= secs <= 8_000_000_000_000 ==> res is Some,
{
    match chrono::DateTime::from_timestamp(secs, 0) {
        Some(dt) => Some(dt.format("%b %d, %H:%M UTC").to_string()),
        None => None,
    }
}

/// Whether the text's length fits a `usize` and the text can be cut after
/// its first 19 bytes where it has that many (the length of
/// "YYYY-MM-DDTHH:MM:SS").
pub open spec fn cut_19_ok(s: Seq<char>) -> bool {
    &&& encode_utf8(s).len() <= usize::MAX
    &&& (encode_utf8(s).len() >= 19 ==> is_char_boundary(encode_utf8(s), 19))
}

/// An ISO 8601 time as the tables show it: read as RFC 3339, else its first
/// 19 bytes read without a zone, else the text as it is.
pub open spec fn event_time_text(s: Seq<char>) -> Seq<char> {
    match rfc3339_display(s) {
        Some(t) => t,
        None => if encode_utf8(s).len() >= 19 {
            match naive_display(decode_utf8(encode_utf8(s).subrange(0, 19))) {
                Some(t) => t,
                None => s,
            }
        } else {
            s
        },
    }
}

/// A deadline as the portfolio tables show it: "-" for "-" or empty text,
/// else as `event_time_text`.
pub open spec fn deadline_text(s: Seq<char>) -> Seq<char> {
    if s == "-"@ || s.len() == 0 {
        "-"@
    } else {
        event_time_text(s)
    }
}

/// Writes an ISO 8601 time for the tables: chrono's reading as RFC 3339,
/// else of its first 19 bytes without a zone, else the text itself.
pub fn format_event_time(iso: &str) -> (res: String)
    requires
        cut_19_ok(iso@),
    ensures
        res@ == event_time_text(iso@),
{
    match show_rfc3339(iso) {
        Some(t) => t,
        None => {
            if iso.len() >= 19 {
                let (head, _) = split_at_byte(iso, 19);
                match show_naive(head.as_str()) {
                    Some(t) => t,
                    None => string_of(iso),
                }
            } else {
                string_of(iso)
            }
        },
    }
}

/// Writes a deadline for the portfolio tables: "-" for "-" or empty text,
/// else as `format_event_time`.
pub fn format_deadline_with_time(d: &str) -> (res: String)
    requires
        cut_19_ok(d@),
    ensures
        res@ == deadline_text(d@),
{
    let cs = chars_of(d);
    if chars_equal(&cs, "-") || cs.len() == 0 {
        proof {
            reveal_strlit("-");
        }
        return string_of("-");
    }
    format_event_time(d)
}

/// A timestamp of the API in seconds: one above 10^12 is taken to be in
/// milliseconds and divided by 1000.
pub open spec fn timestamp_seconds(ts: nat) -> nat {
    if ts > 1_000_000_000_000 {
        ts / 1000
    } else {
        ts
    }
}

/// A timestamp that the tables read as milliseconds and whose thousandth they
/// read as seconds: above 10^12 and at most 10^15.
pub open spec fn is_millisecond_time(ts: nat) -> bool {
    1_000_000_000_000 < ts <= 1_000_000_000_000_000
}

/// A Unix timestamp (seconds or milliseconds) as the tables show it, or its
/// decimal text where chrono cannot place it.
pub open spec fn unix_time_text(ts: nat) -> Seq<char> {
    match unix_display(timestamp_seconds(ts) as int) {
        Some(t) => t,
        None => nat_digits(ts),
    }
}

/// Writes a Unix timestamp, in seconds or milliseconds, for the tables.
/// A time in milliseconds shows as the same time in seconds.
pub fn format_unix_time(ts: u64) -> (res: String)
    ensures
        res@ == unix_time_text(ts as nat),
        is_millisecond_time(ts as nat) ==> res@ == unix_time_text(ts as nat / 1000),
{
    let secs: u64 = if ts > 1_000_000_000_000 {
        ts / 1000
    } else {
        ts
    };
    match show_unix(secs as i64) {
        Some(t) => t,
        None => u128_to_string(ts as u128),
    }
}

/// The view of an optional text.
pub open spec fn opt_view(t: Option<String>) -> Option<Seq<char>> {
    match t {
        Some(s) => Some(s@),
        None => None,
    }
}

/// The deadline that a market shows: its expiration timestamp (in
/// milliseconds) where chrono can place it, else its expiration date, else
/// its deadline.
pub open spec fn market_deadline_text(
    expiration_timestamp: Option<u64>,
    expiration_date: Option<Seq<char>>,
    deadline: Option<Seq<char>>,
) -> Option<Seq<char>> {
    let shown = match expiration_timestamp {
        Some(ts) => unix_display((ts / 1000) as int),
        None => None,
    };
    match shown {
        Some(t) => Some(t),
        None => match expiration_date {
            Some(d) => Some(d),
            None => deadline,
        },
    }
}

/// The deadline that a market shows, from its expiration timestamp (in
/// milliseconds), its expiration date and its deadline.
pub fn display_deadline(
    expiration_timestamp: Option<u64>,
    expiration_date: &Option<String>,
    deadline: &Option<String>,
) -> (res: Option<String>)
    ensures
        opt_view(res) == market_deadline_text(
            expiration_timestamp,
            opt_view(*expiration_date),
            opt_view(*deadline),
        ),
{
    if let Some(ts) = expiration_timestamp {
        let secs: u64 = ts / 1000;
        if let Some(t) = show_unix(secs as i64) {
            return Some(t);
        }
    }
    match expiration_date {
        Some(d) => Some(d.clone()),
        None => match deadline {
            Some(d) => Some(d.clone()),
            None => None,
        },
    }
}

} // verus!
