//! Calendar dates as day numbers (days from the Common Era, January 1 of
//! year 1 being day 1), converted to and from text by `chrono`.

use vstd::prelude::*;
use chrono::Datelike;
use crate::text::{boundary, byte_len, byte_range, byte_slice, str_byte_len};

verus! {

/// Day number of the last date `chrono` can represent (December 31, 262142).
pub const MAX_DAY: i32 = 95_745_399;

/// The date `chrono` parses from `YYYY-MM-DD` text, as a day number.
pub uninterp spec fn iso_day(text: Seq<char>) -> Option<int>;

/// The `YYYY-MM-DD` text `chrono` writes for a day number.
pub uninterp spec fn iso_text(day: int) -> Option<Seq<char>>;

/// `NaiveDate::parse_from_str(text, "%Y-%m-%d")` followed by
/// `Datelike::num_days_from_ce`. The result is named `iso_day`.
#[verifier::external_body]
pub(crate) fn parse_iso_date(text: &str) -> (r: Option<i32>)
    ensures
        r == match iso_day(text@) {
            Some(d) => Some(d as i32),
            None => None::<i32>,
        },
        r matches Some(d) ==> d <= MAX_DAY,
{
    chrono::NaiveDate::parse_from_str(text, "%Y-%m-%d").ok().map(|d| d.num_days_from_ce())
}

/// `NaiveDate::from_num_days_from_ce_opt` followed by `to_string`
/// (`YYYY-MM-DD`). The result is named `iso_text`; every day from 1 (January
/// 1 of year 1) to `MAX_DAY` is a date `chrono` represents.
#[verifier::external_body]
pub(crate) fn format_iso_date(day: i32) -> (r: Option<String>)
    ensures
        match (r, iso_text(day as int)) {
            (Some(s), Some(t)) => s@ == t,
            (None, None) => true,
            _ => false,
        },
        1 <= day <= MAX_DAY ==> r is Some,
{
    chrono::NaiveDate::from_num_days_from_ce_opt(day).map(|d| d.to_string())
}

/// A stored date: `YYYY-MM-DD` text, or a longer timestamp whose first ten
/// bytes are such text.
pub open spec fn stored_day(text: Seq<char>) -> Option<int> {
    match iso_day(text) {
        Some(d) => Some(d),
        None => iso_day(byte_slice(text, 0, 10)),
    }
}

/// Whether `stored_day` can be read from `text` at all: it is a date, or its
/// first ten bytes can be cut off.
pub open spec fn stored_day_readable(text: Seq<char>) -> bool {
    iso_day(text) is Some || (byte_len(text) >= 10 && boundary(text, 10))
}

/// Reads a stored date as a day number. The outer `None` marks text that is
/// neither a date nor long enough to cut ten bytes from.
pub fn read_stored_date(text: &str) -> (r: Option<Option<i32>>)
    ensures
        r is Some <==> stored_day_readable(text@),
        r matches Some(d) ==> d == match stored_day(text@) {
            Some(x) => Some(x as i32),
            None => None::<i32>,
        },
        r matches Some(Some(d)) ==> d <= MAX_DAY,
{
    match parse_iso_date(text) {
        Some(d) => Some(Some(d)),
        None => {
            if str_byte_len(text) >= 10 && text.is_char_boundary(10) {
                proof {
                    vstd::utf8::encode_utf8_valid_utf8(text@);
                    vstd::utf8::is_char_boundary_start_end_of_seq(vstd::utf8::encode_utf8(text@));
                }
                let head = byte_range(text, 0, 10);
                Some(parse_iso_date(head))
            } else {
                None
            }
        },
    }
}

/// The date of the first ten bytes of a stored timestamp.
pub open spec fn date_prefix_day(text: Seq<char>) -> Option<int> {
    iso_day(byte_slice(text, 0, 10))
}

/// The day number of a `YYYY-MM-DD` date, or `None` when `text` is not
/// exactly such a date.
pub fn read_date(text: &str) -> (r: Option<i32>)
    ensures
        r == match iso_day(text@) {
            Some(d) => Some(d as i32),
            None => None::<i32>,
        },
        r matches Some(d) ==> d <= MAX_DAY,
{
    parse_iso_date(text)
}

/// What `read_date_prefix` gives: nothing without ten bytes to cut, else
/// the date they hold, if any.
pub open spec fn read_date_prefix_spec(text: Seq<char>) -> Option<Option<i32>> {
    if byte_len(text) >= 10 && boundary(text, 10) {
        Some(match date_prefix_day(text) {
            Some(x) => Some(x as i32),
            None => None::<i32>,
        })
    } else {
        None
    }
}

/// Reads the date in the first ten bytes of a stored timestamp. The outer
/// `None` marks text too short to cut ten bytes from.
pub fn read_date_prefix(text: &str) -> (r: Option<Option<i32>>)
    ensures
        r == read_date_prefix_spec(text@),
        r matches Some(Some(d)) ==> d <= MAX_DAY,
{
    if str_byte_len(text) >= 10 && text.is_char_boundary(10) {
        proof {
            vstd::utf8::encode_utf8_valid_utf8(text@);
            vstd::utf8::is_char_boundary_start_end_of_seq(vstd::utf8::encode_utf8(text@));
        }
        let head = byte_range(text, 0, 10);
        Some(parse_iso_date(head))
    } else {
        None
    }
}

/// The `YYYY-MM-DD` text of a day number.
pub fn day_text(day: i32) -> (r: String)
    requires
        1 <= day <= MAX_DAY,
    ensures
        iso_text(day as int) == Some(r@),
{
    match format_iso_date(day) {
        Some(s) => s,
        None => {
            proof {
                assert(false);
            }
            String::new()
        },
    }
}

} // verus!
