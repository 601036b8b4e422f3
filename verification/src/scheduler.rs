//! Decisions of the daily membership run: which users are reminded or told
//! of expiry (each once), and how many days a membership has left.

use vstd::prelude::*;
use crate::text::string_views;
use crate::dates::{iso_day, parse_iso_date};
use crate::member_id::{cut_ok, head_bytes, min_int};
use crate::text::{boundary, byte_len, byte_range, str_byte_len, str_eq};

verus! {

broadcast use vstd::string::group_string_axioms;

/// Days before expiry when reminders go out.
pub const EXPIRY_REMINDER_DAYS: i64 = 15;

/// When the daily run starts (seconds, minutes, hours, day, month, weekday).
pub const DAILY_MEMBERSHIP_CRON: &'static str = "0 5 2 * * *";

/// What the daily run did.
#[derive(Debug, Clone, Copy, PartialEq, Eq, Structural)]
pub struct DailyCronResult {
    pub reminded: u32,
    pub expired: u32,
}

/// Whether `ids[i]` is the first occurrence of its value.
pub open spec fn first_occurrence(ids: Seq<Seq<char>>, i: int) -> bool {
    forall|j: int| 0 <= j < i ==> ids[j] != ids[i]
}

/// For each user in turn, whether this is the first time the user comes up:
/// a user with several memberships is reminded or notified once.
pub fn first_occurrences(user_ids: &Vec<String>) -> (r: Vec<bool>)
    ensures
        r@.len() == user_ids@.len(),
        forall|i: int| 0 <= i < r@.len() ==> r@[i] == first_occurrence(string_views(user_ids@), i),
{
    let ghost ids = string_views(user_ids@);
    let mut r: Vec<bool> = Vec::new();
    let mut i: usize = 0;
    while i < user_ids.len()
        invariant
            ids == string_views(user_ids@),
            0 <= i <= user_ids@.len(),
            r@.len() == i,
            forall|k: int| 0 <= k < i ==> r@[k] == first_occurrence(ids, k),
        decreases user_ids.len() - i,
    {
        let mut seen = false;
        let mut j: usize = 0;
        while j < i
            invariant
                ids == string_views(user_ids@),
                0 <= j <= i < user_ids@.len(),
                seen == exists|m: int| 0 <= m < j && ids[m] == ids[i as int],
            decreases i - j,
        {
            assert(ids[j as int] == user_ids@[j as int]@);
            assert(ids[i as int] == user_ids@[i as int]@);
            if str_eq(user_ids[j].as_str(), user_ids[i].as_str()) {
                seen = true;
            }
            j = j + 1;
        }
        r.push(!seen);
        i = i + 1;
    }
    r
}

/// How many of `flags` are set.
pub open spec fn count_set(flags: Seq<bool>) -> nat
    decreases flags.len(),
{
    if flags.len() == 0 {
        0
    } else {
        count_set(flags.drop_last()) + if flags.last() { 1nat } else { 0nat }
    }
}

/// The number of users told, one per first occurrence.
pub fn count_first(flags: &Vec<bool>) -> (n: u32)
    requires
        flags@.len() <= u32::MAX,
    ensures
        n == count_set(flags@),
{
    let mut n: u32 = 0;
    let mut i: usize = 0;
    while i < flags.len()
        invariant
            0 <= i <= flags@.len(),
            flags@.len() <= u32::MAX,
            n == count_set(flags@.subrange(0, i as int)),
            n <= i,
        decreases flags.len() - i,
    {
        assert(flags@.subrange(0, i + 1).drop_last() =~= flags@.subrange(0, i as int));
        if flags[i] {
            n = n + 1;
        }
        i = i + 1;
    }
    assert(flags@.subrange(0, flags@.len() as int) =~= flags@);
    n
}

/// Days from `today` to a membership's end, read from the first ten bytes of
/// its end date; 0 when they are not a date.
pub open spec fn days_until_end_spec(end_date: Seq<char>, today: int) -> int {
    match iso_day(head_bytes(end_date, 10)) {
        Some(d) => (d as i32) - today,
        None => 0,
    }
}

pub fn days_until_end(end_date: &str, today: i32) -> (r: i64)
    requires
        cut_ok(end_date@, 10),
    ensures
        r == days_until_end_spec(end_date@, today as int),
{
    let len = str_byte_len(end_date);
    let end = if len < 10 { len } else { 10 };
    proof {
        vstd::utf8::encode_utf8_valid_utf8(end_date@);
        vstd::utf8::is_char_boundary_start_end_of_seq(vstd::utf8::encode_utf8(end_date@));
    }
    assert(end as int == min_int(10, byte_len(end_date@)));
    let head = byte_range(end_date, 0, end);
    match parse_iso_date(head) {
        Some(d) => d as i64 - today as i64,
        None => 0,
    }
}

} // verus!
