//! Membership rules: fees, durations, period dates and amount checks.

use vstd::prelude::*;
use crate::dates::MAX_DAY;
use crate::text::{decimal, push_decimal, str_eq};

verus! {

broadcast use vstd::string::group_string_axioms;

/// Membership subscription types.
#[derive(Debug, Clone, Copy, PartialEq, Eq, Structural)]
pub enum MembershipType {
    Monthly,
    HalfYearly,
    Annual,
}

pub open spec fn membership_type_label(t: MembershipType) -> Seq<char> {
    match t {
        MembershipType::Monthly => "MONTHLY"@,
        MembershipType::HalfYearly => "HALF_YEARLY"@,
        MembershipType::Annual => "ANNUAL"@,
    }
}

pub open spec fn membership_type_of_label(s: Seq<char>) -> Option<MembershipType> {
    if s == "MONTHLY"@ {
        Some(MembershipType::Monthly)
    } else if s == "HALF_YEARLY"@ {
        Some(MembershipType::HalfYearly)
    } else if s == "ANNUAL"@ {
        Some(MembershipType::Annual)
    } else {
        None
    }
}

impl MembershipType {
    /// Parses the label stored in the database.
    pub fn from_str_label(s: &str) -> (r: Option<MembershipType>)
        ensures
            r == membership_type_of_label(s@),
    {
        if str_eq(s, "MONTHLY") {
            Some(MembershipType::Monthly)
        } else if str_eq(s, "HALF_YEARLY") {
            Some(MembershipType::HalfYearly)
        } else if str_eq(s, "ANNUAL") {
            Some(MembershipType::Annual)
        } else {
            None
        }
    }

    /// The label stored in the database.
    pub fn as_str(&self) -> (s: &'static str)
        ensures
            s@ == membership_type_label(*self),
    {
        match self {
            MembershipType::Monthly => "MONTHLY",
            MembershipType::HalfYearly => "HALF_YEARLY",
            MembershipType::Annual => "ANNUAL",
        }
    }
}

/// Parsing the label of a membership type gives the type back.
pub proof fn lemma_membership_type_round_trip(t: MembershipType)
    ensures
        membership_type_of_label(membership_type_label(t)) == Some(t),
{
    reveal_strlit("MONTHLY");
    reveal_strlit("HALF_YEARLY");
    reveal_strlit("ANNUAL");
    assert("MONTHLY"@.len() == 7);
    assert("HALF_YEARLY"@.len() == 11);
    assert("ANNUAL"@.len() == 6);
}

// ---------------------------------------------------------------------------
// Fees (INR) and durations (days)
// ---------------------------------------------------------------------------

/// Annual membership fee (one-time per year, all members).
pub const ANNUAL_MEMBERSHIP_FEE: u64 = 5_000;

/// Application fee (one-time, first membership only).
pub const APPLICATION_FEE: u64 = 10_000;

/// Duration of the annual fee period in days.
pub const ANNUAL_FEE_DURATION_DAYS: i64 = 365;

/// Days before expiry when reminders are sent.
pub const EXPIRY_REMINDER_DAYS: i64 = 15;

pub open spec fn fee_of(t: MembershipType) -> nat {
    match t {
        MembershipType::Monthly => 250,
        MembershipType::HalfYearly => 1_500,
        MembershipType::Annual => 3_000,
    }
}

pub open spec fn duration_of(t: MembershipType) -> int {
    match t {
        MembershipType::Monthly => 30,
        MembershipType::HalfYearly => 180,
        MembershipType::Annual => 365,
    }
}

/// Subscription fee of each membership type.
pub fn membership_fee(membership_type: MembershipType) -> (f: u64)
    ensures
        f as nat == fee_of(membership_type),
{
    match membership_type {
        MembershipType::Monthly => 250,
        MembershipType::HalfYearly => 1_500,
        MembershipType::Annual => 3_000,
    }
}

/// Number of days each membership type lasts.
pub fn membership_duration_days(membership_type: MembershipType) -> (d: i64)
    ensures
        d as int == duration_of(membership_type),
{
    match membership_type {
        MembershipType::Monthly => 30,
        MembershipType::HalfYearly => 180,
        MembershipType::Annual => 365,
    }
}

// ---------------------------------------------------------------------------
// Period dates
// ---------------------------------------------------------------------------

/// A period of days, both ends included, as day numbers.
#[derive(Debug, Clone, Copy, PartialEq, Eq, Structural)]
pub struct DateRange {
    pub start_date: i32,
    pub end_date: i32,
}

/// A new period starts the day after the current expiry while that expiry
/// is today or later, and today otherwise.
pub open spec fn period_start(current_expiry: Option<i32>, today: i32) -> int {
    match current_expiry {
        Some(e) => if e >= today { e + 1 } else { today as int },
        None => today as int,
    }
}

/// Whether a period of `days` days from `period_start` stays within the dates
/// `chrono` represents.
pub open spec fn period_fits(current_expiry: Option<i32>, today: i32, days: int) -> bool {
    period_start(current_expiry, today) + days - 1 <= MAX_DAY
}

fn start_of(current_expiry: Option<i32>, today: i32) -> (s: i32)
    requires
        period_fits(current_expiry, today, 1),
    ensures
        s == period_start(current_expiry, today),
{
    match current_expiry {
        Some(e) => if e >= today { e + 1 } else { today },
        None => today,
    }
}

/// The subscription period of a new membership.
pub fn calculate_membership_dates(
    membership_type: MembershipType,
    current_expiry: Option<i32>,
    today: i32,
) -> (r: DateRange)
    requires
        period_fits(current_expiry, today, duration_of(membership_type)),
    ensures
        r.start_date == period_start(current_expiry, today),
        r.end_date == r.start_date + duration_of(membership_type) - 1,
{
    let start_date = start_of(current_expiry, today);
    let duration = membership_duration_days(membership_type);
    let end_date = start_date + (duration - 1) as i32;
    DateRange { start_date, end_date }
}

/// The period of a new annual fee.
pub fn calculate_annual_fee_dates(current_annual_fee_expiry: Option<i32>, today: i32) -> (r: DateRange)
    requires
        period_fits(current_annual_fee_expiry, today, 365),
    ensures
        r.start_date == period_start(current_annual_fee_expiry, today),
        r.end_date == r.start_date + 364,
{
    let start_date = start_of(current_annual_fee_expiry, today);
    let end_date = start_date + (ANNUAL_FEE_DURATION_DAYS - 1) as i32;
    DateRange { start_date, end_date }
}

/// A new period never starts before today, never overlaps a current period,
/// and follows an unexpired period without a gap.
pub proof fn lemma_period_start(current_expiry: Option<i32>, today: i32)
    ensures
        period_start(current_expiry, today) >= today,
        match current_expiry {
            Some(e) => period_start(current_expiry, today) > e
                && (e >= today ==> period_start(current_expiry, today) == e + 1),
            None => period_start(current_expiry, today) == today,
        },
{
}

/// Renewing right after a period keeps the memberships back to back: a
/// renewal made while the first period has not ended starts the day after it.
pub proof fn lemma_renewal_is_contiguous(
    first: MembershipType,
    second: MembershipType,
    previous_expiry: Option<i32>,
    today: i32,
    renewal_day: i32,
)
    requires
        period_fits(previous_expiry, today, duration_of(first)),
        today <= renewal_day,
        renewal_day <= period_start(previous_expiry, today) + duration_of(first) - 1,
    ensures
        ({
            let end1 = period_start(previous_expiry, today) + duration_of(first) - 1;
            period_start(Some(end1 as i32), renewal_day) == end1 + 1
        }),
{
}

// ---------------------------------------------------------------------------
// Amount checks
// ---------------------------------------------------------------------------

pub open spec fn rupee() -> Seq<char> {
    seq!['\u{20b9}']
}

/// The message for a wrong membership amount.
pub open spec fn membership_amount_message(t: MembershipType, is_application_fee: bool) -> Seq<char> {
    if is_application_fee {
        "Amount must be exactly "@ + rupee() + decimal(fee_of(t) + APPLICATION_FEE as nat) + " ("@
            + rupee() + decimal(APPLICATION_FEE as nat) + " application fee + "@ + rupee()
            + decimal(fee_of(t)) + " membership fee) for "@ + membership_type_label(t) + " membership"@
    } else {
        "Amount must be exactly "@ + rupee() + decimal(fee_of(t)) + " for "@ + membership_type_label(t)
            + " membership. No partial payments allowed."@
    }
}

/// Checks that `amount` is exactly the fee of the type (plus the application
/// fee when it applies). `None` when it is, the message otherwise.
pub fn validate_membership_amount(
    membership_type: MembershipType,
    amount: u64,
    is_application_fee: bool,
) -> (r: Option<String>)
    ensures
        r is None <==> amount == fee_of(membership_type) + (if is_application_fee { APPLICATION_FEE as nat } else { 0 }),
        r matches Some(m) ==> m@ == membership_amount_message(membership_type, is_application_fee),
{
    let expected_fee = membership_fee(membership_type);
    let expected_total = if is_application_fee { expected_fee + APPLICATION_FEE } else { expected_fee };
    if amount != expected_total {
        let mut m = "Amount must be exactly ".to_string();
        m.append("\u{20b9}");
        proof {
            reveal_strlit("\u{20b9}");
        }
        if is_application_fee {
            push_decimal(&mut m, expected_total);
            m.append(" (");
            m.append("\u{20b9}");
            push_decimal(&mut m, APPLICATION_FEE);
            m.append(" application fee + ");
            m.append("\u{20b9}");
            push_decimal(&mut m, expected_fee);
            m.append(" membership fee) for ");
            m.append(membership_type.as_str());
            m.append(" membership");
        } else {
            push_decimal(&mut m, expected_fee);
            m.append(" for ");
            m.append(membership_type.as_str());
            m.append(" membership. No partial payments allowed.");
        }
        assert(m@ =~= membership_amount_message(membership_type, is_application_fee));
        return Some(m);
    }
    None
}

/// Checks that `amount` is exactly the annual membership fee.
pub fn validate_annual_fee_amount(amount: u64) -> (r: Option<String>)
    ensures
        r is None <==> amount == ANNUAL_MEMBERSHIP_FEE,
        r matches Some(m) ==> m@ == "Annual membership fee must be exactly "@ + rupee()
            + decimal(ANNUAL_MEMBERSHIP_FEE as nat),
{
    if amount != ANNUAL_MEMBERSHIP_FEE {
        let mut m = "Annual membership fee must be exactly ".to_string();
        m.append("\u{20b9}");
        proof {
            reveal_strlit("\u{20b9}");
        }
        push_decimal(&mut m, ANNUAL_MEMBERSHIP_FEE);
        return Some(m);
    }
    None
}

} // verus!
