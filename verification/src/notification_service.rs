//! WhatsApp notification decisions: template names, message parameters,
//! how delivery outcomes are tallied, and how dates are shown in messages.

use vstd::prelude::*;
use crate::text::{boundary, byte_len, byte_range, byte_slice, chars_of, decimal, push_char, push_decimal, push_signed, signed_decimal, split_chars, split_on, str_byte_len, views};
use crate::webhook::{replace_underscores, underscores_to_spaces};

verus! {

broadcast use vstd::string::group_string_axioms;

/// Names of the pre-approved WhatsApp Business templates.
pub const NEW_APPROVAL: &'static str = "new_approval_request";
pub const PAYMENT_RECEIVED: &'static str = "payment_received";
pub const NEW_MEMBER: &'static str = "new_member_registration";
pub const MEMBERSHIP_APPROVED: &'static str = "membership_approved";
pub const EXPIRY_REMINDER: &'static str = "expiry_reminder";
pub const MEMBERSHIP_EXPIRED: &'static str = "membership_expired";
pub const SPONSOR_PAYMENT: &'static str = "sponsor_payment";
pub const REJECTION: &'static str = "rejection_notice";

/// How many messages of a notification were delivered and how many failed.
#[derive(Debug, Clone, Copy, PartialEq, Eq, Structural)]
pub struct NotificationResult {
    pub sent: u32,
    pub failed: u32,
}

impl NotificationResult {
    /// Nothing sent yet.
    pub fn new() -> (r: NotificationResult)
        ensures
            r.sent == 0 && r.failed == 0,
    {
        NotificationResult { sent: 0, failed: 0 }
    }

    /// Counts one message: delivered or failed.
    pub fn record(&mut self, success: bool)
        requires
            old(self).sent + old(self).failed < u32::MAX,
        ensures
            success ==> final(self).sent == old(self).sent + 1 && final(self).failed == old(self).failed,
            !success ==> final(self).failed == old(self).failed + 1 && final(self).sent == old(self).sent,
    {
        if success {
            self.sent = self.sent + 1;
        } else {
            self.failed = self.failed + 1;
        }
    }

    /// Adds the counts of another batch.
    pub fn add(&mut self, other: NotificationResult)
        requires
            old(self).sent + other.sent <= u32::MAX,
            old(self).failed + other.failed <= u32::MAX,
        ensures
            final(self).sent == old(self).sent + other.sent,
            final(self).failed == old(self).failed + other.failed,
    {
        self.sent = self.sent + other.sent;
        self.failed = self.failed + other.failed;
    }
}

/// How many of `outcomes` are `v`.
pub open spec fn count_of(outcomes: Seq<bool>, v: bool) -> nat
    decreases outcomes.len(),
{
    if outcomes.len() == 0 {
        0
    } else {
        count_of(outcomes.drop_last(), v) + if outcomes.last() == v { 1nat } else { 0nat }
    }
}

/// Tallies the outcomes of sending to each recipient in turn.
pub fn tally(outcomes: &Vec<bool>) -> (r: NotificationResult)
    requires
        outcomes@.len() < u32::MAX,
    ensures
        r.sent == count_of(outcomes@, true),
        r.failed == count_of(outcomes@, false),
        r.sent + r.failed == outcomes@.len(),
{
    let mut r = NotificationResult::new();
    let mut i: usize = 0;
    while i < outcomes.len()
        invariant
            0 <= i <= outcomes@.len(),
            outcomes@.len() < u32::MAX,
            r.sent == count_of(outcomes@.subrange(0, i as int), true),
            r.failed == count_of(outcomes@.subrange(0, i as int), false),
            r.sent + r.failed == i,
        decreases outcomes.len() - i,
    {
        let ghost pre = outcomes@.subrange(0, i as int);
        let ghost next = outcomes@.subrange(0, i + 1);
        assert(next.drop_last() =~= pre);
        assert(next.last() == outcomes@[i as int]);
        r.record(outcomes[i]);
        i = i + 1;
    }
    assert(outcomes@.subrange(0, outcomes@.len() as int) =~= outcomes@);
    r
}

/// How a stored date is shown in a message: `DD/MM/YYYY` from the first ten
/// bytes when they are `YYYY-MM-DD`-shaped (three `-`-separated parts), the
/// text unchanged otherwise.
pub open spec fn date_display_spec(date: Seq<char>) -> Seq<char> {
    if byte_len(date) >= 10 {
        let parts = split_on(byte_slice(date, 0, 10), '-');
        if parts.len() == 3 {
            parts[2] + seq!['/'] + parts[1] + seq!['/'] + parts[0]
        } else {
            date
        }
    } else {
        date
    }
}

/// Formats a stored date for display.
pub fn format_date_display(date: &str) -> (r: String)
    requires
        byte_len(date@) >= 10 ==> boundary(date@, 10),
    ensures
        r@ == date_display_spec(date@),
{
    if str_byte_len(date) >= 10 {
        proof {
            vstd::utf8::encode_utf8_valid_utf8(date@);
            vstd::utf8::is_char_boundary_start_end_of_seq(vstd::utf8::encode_utf8(date@));
        }
        let head = byte_range(date, 0, 10);
        let parts = split_chars(&chars_of(head), '-');
        if parts.len() == 3 {
            proof {
                assert(views(parts@)[0] == parts@[0]@);
                assert(views(parts@)[1] == parts@[1]@);
                assert(views(parts@)[2] == parts@[2]@);
            }
            let mut r = crate::text::string_from_chars(&parts[2]);
            push_char(&mut r, '/');
            r.append(crate::text::string_from_chars(&parts[1]).as_str());
            push_char(&mut r, '/');
            r.append(crate::text::string_from_chars(&parts[0]).as_str());
            return r;
        }
    }
    date.to_string()
}

/// The parameters of a new-approval message: the entity type in words and
/// who asked.
pub fn approval_request_params(entity_type: &str, requester_name: &str) -> (r: Vec<String>)
    ensures
        r@.len() == 2,
        r@[0]@ == underscores_to_spaces(entity_type@),
        r@[1]@ == requester_name@,
{
    let mut r: Vec<String> = Vec::new();
    r.push(replace_underscores(entity_type));
    r.push(requester_name.to_string());
    r
}

/// The parameters of a payment-received message: `Rs. <whole rupees>`, the
/// payer (the member, else the sender, else `Unknown`) and the mode.
pub fn payment_received_params(whole_rupees: i64, member_name: Option<&str>, sender_name: Option<&str>, payment_mode: &str)
    -> (r: Vec<String>)
    ensures
        r@.len() == 3,
        r@[0]@ == "Rs. "@ + signed_decimal(whole_rupees as int),
        r@[1]@ == match member_name {
            Some(m) => m@,
            None => match sender_name {
                Some(s) => s@,
                None => "Unknown"@,
            },
        },
        r@[2]@ == payment_mode@,
{
    let mut amount = "Rs. ".to_string();
    push_signed(&mut amount, whole_rupees);
    let name: &str = match member_name {
        Some(m) => m,
        None => match sender_name {
            Some(s) => s,
            None => "Unknown",
        },
    };
    let mut r: Vec<String> = Vec::new();
    r.push(amount);
    r.push(name.to_string());
    r.push(payment_mode.to_string());
    r
}

/// The parameters of an expiry reminder: the member's name, the days left,
/// and the expiry date as shown (`N/A` when unknown).
pub fn expiry_reminder_params(name: &str, days_left: i64, membership_expiry: Option<&str>) -> (r: Vec<String>)
    requires
        membership_expiry matches Some(e) ==> (byte_len(e@) >= 10 ==> boundary(e@, 10)),
    ensures
        r@.len() == 3,
        r@[0]@ == name@,
        r@[1]@ == signed_decimal(days_left as int),
        r@[2]@ == match membership_expiry {
            Some(e) => date_display_spec(e@),
            None => "N/A"@,
        },
{
    let mut days = String::new();
    push_signed(&mut days, days_left);
    let shown = match membership_expiry {
        Some(e) => format_date_display(e),
        None => "N/A".to_string(),
    };
    let mut r: Vec<String> = Vec::new();
    r.push(name.to_string());
    r.push(days);
    r.push(shown);
    r
}

/// The activity description of a notification: its kind, then the counts.
pub fn notification_summary(kind: &str, result: NotificationResult) -> (r: String)
    ensures
        r@ == kind@ + " notification: sent="@ + decimal(result.sent as nat) + " failed="@ + decimal(result.failed as nat),
{
    let mut r = kind.to_string();
    r.append(" notification: sent=");
    push_decimal(&mut r, result.sent as u64);
    r.append(" failed=");
    push_decimal(&mut r, result.failed as u64);
    r
}

// ---------------------------------------------------------------------------
// Re-sending a notification
// ---------------------------------------------------------------------------

/// A notification an admin can send again.
#[derive(Debug, Clone, Copy, PartialEq, Eq, Structural)]
pub enum NotificationKind {
    Approval,
    Payment,
    NewMember,
    MembershipApproved,
    ExpiryReminder,
    MembershipExpired,
}

pub open spec fn notification_kind_of(t: Seq<char>) -> Option<NotificationKind> {
    if t == "approval"@ {
        Some(NotificationKind::Approval)
    } else if t == "payment"@ {
        Some(NotificationKind::Payment)
    } else if t == "new_member"@ {
        Some(NotificationKind::NewMember)
    } else if t == "membership_approved"@ {
        Some(NotificationKind::MembershipApproved)
    } else if t == "expiry_reminder"@ {
        Some(NotificationKind::ExpiryReminder)
    } else if t == "membership_expired"@ {
        Some(NotificationKind::MembershipExpired)
    } else {
        None
    }
}

/// Decides a request to send a notification again: only an admin may (a
/// role that does not parse counts as a member's); the request names the
/// notification's type and entity, and the type must be one that can be
/// sent again.
pub fn plan_resend(role: &str, notification_type: Option<&str>, entity_id: Option<&str>)
    -> (r: Result<NotificationKind, crate::api::AppError>)
    ensures
        crate::permissions::role_of_label(crate::text::unicode_upper(role@)) != Some(crate::permissions::Role::Admin)
            ==> r == Err::<NotificationKind, crate::api::AppError>(crate::api::AppError::Forbidden),
        crate::permissions::role_of_label(crate::text::unicode_upper(role@)) == Some(crate::permissions::Role::Admin) ==> match notification_type {
            None => r matches Err(crate::api::AppError::BadRequest(m)) && m@ == "`type` is required"@,
            Some(t) => match entity_id {
                None => r matches Err(crate::api::AppError::BadRequest(m)) && m@ == "`entityId` is required"@,
                Some(_) => match notification_kind_of(t@) {
                    Some(k) => r == Ok::<NotificationKind, crate::api::AppError>(k),
                    None => r matches Err(crate::api::AppError::BadRequest(m)) && m@ == "Unknown notification type: "@ + t@,
                },
            },
        },
{
    let is_admin = match crate::permissions::Role::from_str(role) {
        Some(crate::permissions::Role::Admin) => true,
        _ => false,
    };
    if !is_admin {
        return Err(crate::api::AppError::Forbidden);
    }
    let t = match notification_type {
        Some(t) => t,
        None => return Err(crate::api::AppError::BadRequest("`type` is required".to_string())),
    };
    if entity_id.is_none() {
        return Err(crate::api::AppError::BadRequest("`entityId` is required".to_string()));
    }
    if crate::text::str_eq(t, "approval") {
        Ok(NotificationKind::Approval)
    } else if crate::text::str_eq(t, "payment") {
        Ok(NotificationKind::Payment)
    } else if crate::text::str_eq(t, "new_member") {
        Ok(NotificationKind::NewMember)
    } else if crate::text::str_eq(t, "membership_approved") {
        Ok(NotificationKind::MembershipApproved)
    } else if crate::text::str_eq(t, "expiry_reminder") {
        Ok(NotificationKind::ExpiryReminder)
    } else if crate::text::str_eq(t, "membership_expired") {
        Ok(NotificationKind::MembershipExpired)
    } else {
        let mut m = "Unknown notification type: ".to_string();
        m.append(t);
        Err(crate::api::AppError::BadRequest(m))
    }
}

/// Days left before a membership expiry, never below zero; zero when the
/// expiry is unknown.
pub fn days_until_expiry(expiry_day: Option<i32>, today: i32) -> (r: i64)
    ensures
        r == match expiry_day {
            Some(e) => if e >= today { (e - today) as i64 } else { 0i64 },
            None => 0i64,
        },
{
    match expiry_day {
        Some(e) => {
            let d = e as i64 - today as i64;
            if d < 0 { 0 } else { d }
        },
        None => 0,
    }
}

/// The temporary password named in an approval message, or a pointer to
/// the admin when none is given.
pub fn password_shown(temp_password: Option<String>) -> (r: String)
    ensures
        r@ == match temp_password {
            Some(p) => p@,
            None => "(check with admin)"@,
        },
{
    match temp_password {
        Some(p) => p,
        None => "(check with admin)".to_string(),
    }
}

/// The login page under the application's address.
pub fn login_url(app_url: &str) -> (r: String)
    ensures
        r@ == app_url@ + "/login"@,
{
    let mut r = app_url.to_string();
    r.append("/login");
    r
}

} // verus!
