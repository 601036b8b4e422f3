//! Request-level decisions of the HTTP API: errors and their statuses,
//! payment orders, the Razorpay webhook for membership payments, and
//! profile completion.

use vstd::prelude::*;
use crate::member_id::generate_sub_member_id;
use crate::membership_rules::{fee_of, membership_fee, membership_type_of_label, MembershipType, ANNUAL_MEMBERSHIP_FEE, APPLICATION_FEE};
use crate::membership_service::TransactionMembershipDetails;
use crate::text::{boundary, byte_len, byte_slice, decimal, str_eq, trim_string, trimmed, zero_padded};
use crate::text::opt_view;
use crate::webhook::PaymentNotes;
use crate::permissions::{role_level, role_of_label, Role};
use crate::sponsor_service::SponsorServiceError;
use crate::text::unicode_upper;

verus! {

broadcast use vstd::string::group_string_axioms;

// ---------------------------------------------------------------------------
// Errors
// ---------------------------------------------------------------------------

/// An error answered to an API request.
#[derive(Debug, Clone, PartialEq, Eq)]
pub enum AppError {
    NotFound,
    Unauthorized,
    Forbidden,
    BadRequest(String),
    Internal(String),
}

impl AppError {
    /// The HTTP status answered.
    pub fn status(&self) -> (r: u16)
        ensures
            r == match self {
                AppError::NotFound => 404u16,
                AppError::Unauthorized => 401u16,
                AppError::Forbidden => 403u16,
                AppError::BadRequest(_) => 400u16,
                AppError::Internal(_) => 500u16,
            },
    {
        match self {
            AppError::NotFound => 404,
            AppError::Unauthorized => 401,
            AppError::Forbidden => 403,
            AppError::BadRequest(_) => 400,
            AppError::Internal(_) => 500,
        }
    }

    /// The message answered under `error`.
    pub fn message(&self) -> (r: String)
        ensures
            r@ == match self {
                AppError::NotFound => "resource not found"@,
                AppError::Unauthorized => "unauthorized"@,
                AppError::Forbidden => "forbidden"@,
                AppError::BadRequest(m) => m@,
                AppError::Internal(m) => m@,
            },
    {
        match self {
            AppError::NotFound => "resource not found".to_string(),
            AppError::Unauthorized => "unauthorized".to_string(),
            AppError::Forbidden => "forbidden".to_string(),
            AppError::BadRequest(m) => m.clone(),
            AppError::Internal(m) => m.clone(),
        }
    }
}

/// A request needs a signed-in user: one with a role.
pub fn require_authenticated(role: &str) -> (r: Result<(), AppError>)
    ensures
        r == if role@.len() == 0 { Err::<(), AppError>(AppError::Unauthorized) } else { Ok::<(), AppError>(()) },
{
    if role.unicode_len() == 0 { Err(AppError::Unauthorized) } else { Ok(()) }
}

/// A user with a temporary password may do nothing before changing it.
pub fn require_password_changed(must_change_password: bool) -> (r: Result<(), AppError>)
    ensures
        r == if must_change_password { Err::<(), AppError>(AppError::Forbidden) } else { Ok::<(), AppError>(()) },
{
    if must_change_password { Err(AppError::Forbidden) } else { Ok(()) }
}

// ---------------------------------------------------------------------------
// Payment orders
// ---------------------------------------------------------------------------

/// What a member's payment order is for and what it costs.
#[derive(Debug, Clone)]
pub struct MemberOrder {
    /// The fee type asked for (`SUBSCRIPTION` when none was).
    pub fee_type: String,
    pub is_annual_fee: bool,
    pub is_application_fee: bool,
    /// Whole rupees.
    pub total_rupees: u64,
    /// The same amount in paise, as Razorpay takes it.
    pub amount_paise: u64,
}

pub open spec fn fee_type_or_default(fee_type: Option<Seq<char>>) -> Seq<char> {
    match fee_type {
        Some(f) => f,
        None => "SUBSCRIPTION"@,
    }
}

pub open spec fn opt_str(o: Option<&str>) -> Option<Seq<char>> {
    match o {
        Some(s) => Some(s@),
        None => None,
    }
}

/// Decides a member's payment order: an annual fee (`fee_type`
/// `ANNUAL_FEE`) or a subscription of `membership_type`, plus the
/// application fee when asked for beside a subscription and not yet paid by
/// the linked user.
pub fn plan_member_order(
    fee_type: Option<&str>,
    membership_type: &str,
    is_application_fee: Option<bool>,
    application_fee_paid: bool,
) -> (r: Result<MemberOrder, AppError>)
    ensures
        ({
            let f = fee_type_or_default(opt_str(fee_type));
            let annual = f == "ANNUAL_FEE"@;
            let app = !annual && is_application_fee == Some(true);
            let t = membership_type_of_label(membership_type@);
            if app && application_fee_paid {
                r matches Err(AppError::BadRequest(m)) && m@ == "Application fee has already been paid for this member"@
            } else if !annual && t is None {
                r matches Err(AppError::BadRequest(m)) && m@ == "Invalid membership type"@
            } else {
                r matches Ok(o) && {
                    let base = if annual { ANNUAL_MEMBERSHIP_FEE as nat } else { fee_of(t->0) };
                    &&& o.fee_type@ == f
                    &&& o.is_annual_fee == annual
                    &&& o.is_application_fee == app
                    &&& o.total_rupees == base + if app { APPLICATION_FEE as nat } else { 0 }
                    &&& o.amount_paise == o.total_rupees * 100
                }
            }
        }),
{
    let f: &str = match fee_type {
        Some(f) => f,
        None => "SUBSCRIPTION",
    };
    let annual = str_eq(f, "ANNUAL_FEE");
    let app = if annual {
        false
    } else {
        match is_application_fee {
            Some(b) => b,
            None => false,
        }
    };
    if app && application_fee_paid {
        return Err(AppError::BadRequest("Application fee has already been paid for this member".to_string()));
    }
    let base = if annual {
        ANNUAL_MEMBERSHIP_FEE
    } else {
        match MembershipType::from_str_label(membership_type) {
            Some(t) => membership_fee(t),
            None => return Err(AppError::BadRequest("Invalid membership type".to_string())),
        }
    };
    let total = base + if app { APPLICATION_FEE } else { 0 };
    Ok(MemberOrder {
        fee_type: f.to_string(),
        is_annual_fee: annual,
        is_application_fee: app,
        total_rupees: total,
        amount_paise: total * 100,
    })
}

pub open spec fn bool_text(b: bool) -> Seq<char> {
    if b { "true"@ } else { "false"@ }
}

fn bool_string(b: bool) -> (r: String)
    ensures
        r@ == bool_text(b),
{
    if b { "true".to_string() } else { "false".to_string() }
}

/// The notes of a member's payment order, echoed back by the webhook.
pub fn member_order_notes(
    member_id: &str,
    membership_type: &str,
    order: &MemberOrder,
    user_member_id: Option<&str>,
    member_name: &str,
) -> (r: PaymentNotes)
    ensures
        r.note("memberId"@) == Some(member_id@),
        r.note("membershipType"@) == Some(membership_type@),
        r.note("feeType"@) == Some(order.fee_type@),
        r.note("isApplicationFee"@) == Some(bool_text(order.is_application_fee)),
        r.note("includesSubscription"@) == Some(bool_text(!order.is_annual_fee)),
        r.note("includesAnnualFee"@) == Some(bool_text(order.is_annual_fee)),
        r.note("userMemberId"@) == opt_str(user_member_id),
        r.note("memberName"@) == Some(member_name@),
{
    proof {
        reveal_strlit("memberId");
        reveal_strlit("membershipType");
        reveal_strlit("feeType");
        reveal_strlit("isApplicationFee");
        reveal_strlit("includesSubscription");
        reveal_strlit("includesAnnualFee");
        reveal_strlit("userMemberId");
        reveal_strlit("memberName");
        assert("memberId"@.len() == 8);
        assert("membershipType"@.len() == 14);
        assert("feeType"@.len() == 7);
        assert("isApplicationFee"@.len() == 16);
        assert("includesSubscription"@.len() == 20);
        assert("includesAnnualFee"@.len() == 17);
        assert("userMemberId"@.len() == 12);
        assert("memberName"@.len() == 10);
        assert("memberId"@[1] != "membershipType"@[1] || "memberId"@[6] != "membershipType"@[6]);
        assert("memberName"@[6] != "membershipType"@[6]);
    }
    let mut n = PaymentNotes::new();
    assert(n.note("userMemberId"@) is None);
    n.insert("memberId".to_string(), member_id.to_string());
    assert(n.note("userMemberId"@) is None);
    n.insert("membershipType".to_string(), membership_type.to_string());
    assert(n.note("memberId"@) == Some(member_id@));
    n.insert("feeType".to_string(), order.fee_type.clone());
    assert(n.note("memberId"@) == Some(member_id@));
    assert(n.note("membershipType"@) == Some(membership_type@));
    n.insert("isApplicationFee".to_string(), bool_string(order.is_application_fee));
    assert(n.note("memberId"@) == Some(member_id@));
    assert(n.note("membershipType"@) == Some(membership_type@));
    assert(n.note("feeType"@) == Some(order.fee_type@));
    n.insert("includesSubscription".to_string(), bool_string(!order.is_annual_fee));
    assert(n.note("memberId"@) == Some(member_id@));
    assert(n.note("membershipType"@) == Some(membership_type@));
    assert(n.note("feeType"@) == Some(order.fee_type@));
    assert(n.note("isApplicationFee"@) == Some(bool_text(order.is_application_fee)));
    n.insert("includesAnnualFee".to_string(), bool_string(order.is_annual_fee));
    assert(n.note("memberId"@) == Some(member_id@));
    assert(n.note("membershipType"@) == Some(membership_type@));
    assert(n.note("feeType"@) == Some(order.fee_type@));
    assert(n.note("isApplicationFee"@) == Some(bool_text(order.is_application_fee)));
    assert(n.note("includesSubscription"@) == Some(bool_text(!order.is_annual_fee)));
    assert(n.note("userMemberId"@) is None);
    match user_member_id {
        Some(u) => n.insert("userMemberId".to_string(), u.to_string()),
        None => {},
    }
    assert(n.note("memberId"@) == Some(member_id@));
    assert(n.note("membershipType"@) == Some(membership_type@));
    assert(n.note("feeType"@) == Some(order.fee_type@));
    assert(n.note("isApplicationFee"@) == Some(bool_text(order.is_application_fee)));
    assert(n.note("includesSubscription"@) == Some(bool_text(!order.is_annual_fee)));
    assert(n.note("includesAnnualFee"@) == Some(bool_text(order.is_annual_fee)));
    n.insert("memberName".to_string(), member_name.to_string());
    assert(n.note("memberId"@) == Some(member_id@));
    assert(n.note("membershipType"@) == Some(membership_type@));
    assert(n.note("feeType"@) == Some(order.fee_type@));
    assert(n.note("isApplicationFee"@) == Some(bool_text(order.is_application_fee)));
    assert(n.note("includesSubscription"@) == Some(bool_text(!order.is_annual_fee)));
    assert(n.note("includesAnnualFee"@) == Some(bool_text(order.is_annual_fee)));
    assert(n.note("userMemberId"@) == opt_str(user_member_id));
    n
}

/// An order's fee components survive the trip through the payment notes:
/// notes written for an order read back, flag by flag, as the same
/// components when the webhook reads them.
pub proof fn lemma_order_flags_read_back(notes: PaymentNotes, is_annual_fee: bool, is_application_fee: bool)
    requires
        notes.note("isApplicationFee"@) == Some(bool_text(is_application_fee)),
        notes.note("includesSubscription"@) == Some(bool_text(!is_annual_fee)),
        notes.note("includesAnnualFee"@) == Some(bool_text(is_annual_fee)),
    ensures
        (notes.note("includesAnnualFee"@) == Some("true"@)) == is_annual_fee,
        (notes.note("includesSubscription"@) == Some("true"@)) == !is_annual_fee,
        (notes.note("isApplicationFee"@) == Some("true"@)) == is_application_fee,
{
    reveal_strlit("true");
    reveal_strlit("false");
    assert("true"@ != "false"@) by {
        assert("true"@.len() == 4);
        assert("false"@.len() == 5);
    }
}

/// A sponsor link that is inactive or expired takes no payment.
pub fn check_sponsor_link_open(is_active: bool, is_expired: bool) -> (r: Result<(), AppError>)
    ensures
        is_expired ==> (r matches Err(AppError::BadRequest(m)) && m@ == "This payment link has expired"@),
        !is_expired && !is_active ==> (r matches Err(AppError::BadRequest(m)) && m@ == "This payment link is no longer active"@),
        !is_expired && is_active ==> r is Ok,
{
    if !is_active || is_expired {
        Err(AppError::BadRequest(
            if is_expired { "This payment link has expired".to_string() } else { "This payment link is no longer active".to_string() },
        ))
    } else {
        Ok(())
    }
}

/// The purpose of a sponsor payment: the one stored with the link's bank
/// details, else the one asked for, else the link's purpose.
pub fn sponsor_order_purpose(stored: Option<String>, requested: Option<String>, link_purpose: &str) -> (r: String)
    ensures
        r@ == match stored {
            Some(s) => s@,
            None => match requested {
                Some(q) => q@,
                None => link_purpose@,
            },
        },
{
    match stored {
        Some(s) => s,
        None => match requested {
            Some(q) => q,
            None => link_purpose.to_string(),
        },
    }
}

/// The notes of a sponsor's payment order.
pub fn sponsor_order_notes(token: &str, purpose: &str, sponsor_id: Option<&str>) -> (r: PaymentNotes)
    ensures
        r.note("sponsorLinkToken"@) == Some(token@),
        r.note("sponsorPurpose"@) == Some(purpose@),
        r.note("sponsorId"@) == opt_str(sponsor_id),
{
    proof {
        reveal_strlit("sponsorLinkToken");
        reveal_strlit("sponsorPurpose");
        reveal_strlit("sponsorId");
        assert("sponsorLinkToken"@.len() == 16);
        assert("sponsorPurpose"@.len() == 14);
        assert("sponsorId"@.len() == 9);
    }
    let mut n = PaymentNotes::new();
    n.insert("sponsorLinkToken".to_string(), token.to_string());
    n.insert("sponsorPurpose".to_string(), purpose.to_string());
    assert(n.note("sponsorLinkToken"@) == Some(token@));
    match sponsor_id {
        Some(s) => n.insert("sponsorId".to_string(), s.to_string()),
        None => {},
    }
    assert(n.note("sponsorLinkToken"@) == Some(token@));
    assert(n.note("sponsorPurpose"@) == Some(purpose@));
    n
}

// ---------------------------------------------------------------------------
// Razorpay webhook: membership payments
// ---------------------------------------------------------------------------

/// What to do with a verified webhook event.
#[derive(Debug, Clone, Copy, PartialEq, Eq, Structural)]
pub enum WebhookStep {
    /// Not a `payment.captured` event: acknowledged and ignored.
    IgnoreEvent,
    /// The payment is not in the `captured` state: acknowledged and ignored.
    NotCaptured,
    /// A captured payment to record.
    Record,
}

/// Decides on a webhook event `event` whose payment (if the event carries
/// one) has status `payment_status`.
pub fn webhook_step(event: &str, payment_status: Option<&str>) -> (r: Result<WebhookStep, AppError>)
    ensures
        event@ != "payment.captured"@ ==> r == Ok::<WebhookStep, AppError>(WebhookStep::IgnoreEvent),
        event@ == "payment.captured"@ ==> match payment_status {
            None => r matches Err(AppError::BadRequest(m)) && m@ == "Missing payment payload"@,
            Some(s) => r == Ok::<WebhookStep, AppError>(
                if s@ == "captured"@ { WebhookStep::Record } else { WebhookStep::NotCaptured }),
        },
{
    if !str_eq(event, "payment.captured") {
        return Ok(WebhookStep::IgnoreEvent);
    }
    match payment_status {
        None => Err(AppError::BadRequest("Missing payment payload".to_string())),
        Some(s) => Ok(if str_eq(s, "captured") { WebhookStep::Record } else { WebhookStep::NotCaptured }),
    }
}

/// Whether a payment's notes come from a sponsor order: they carry a
/// sponsor link token or a sponsor purpose.
pub fn has_sponsor_notes(notes: &PaymentNotes) -> (b: bool)
    ensures
        b == (notes.note("sponsorLinkToken"@) is Some || notes.note("sponsorPurpose"@) is Some),
{
    notes.contains_key("sponsorLinkToken") || notes.contains_key("sponsorPurpose")
}

/// A note read as a flag: only `true` is true.
pub fn parse_note_bool(notes: &PaymentNotes, key: &str) -> (b: bool)
    ensures
        b == (notes.note(key@) == Some("true"@)),
{
    match notes.get(key) {
        Some(v) => str_eq(v.as_str(), "true"),
        None => false,
    }
}

/// The payment mode recorded for a Razorpay method on a membership payment.
pub open spec fn membership_payment_mode(method: Seq<char>) -> Seq<char> {
    if method == "netbanking"@ || method == "bank_transfer"@ {
        "BANK_TRANSFER"@
    } else if method == "cash"@ {
        "CASH"@
    } else {
        "UPI"@
    }
}

pub fn payment_mode_from_method(method: &str) -> (r: &'static str)
    ensures
        r@ == membership_payment_mode(method@),
{
    if str_eq(method, "netbanking") || str_eq(method, "bank_transfer") {
        "BANK_TRANSFER"
    } else if str_eq(method, "cash") {
        "CASH"
    } else {
        "UPI"
    }
}

/// The purpose text of a membership payment taken through Razorpay.
pub open spec fn webhook_membership_purpose(member_name: Seq<char>, fee_type: Seq<char>, membership_type: Option<Seq<char>>) -> Seq<char> {
    if fee_type == "ANNUAL_FEE"@ {
        "Annual membership fee — "@ + member_name
    } else {
        let t = match membership_type { Some(t) => t, None => "Membership"@ };
        let label = if t == "MONTHLY"@ {
            "Monthly"@
        } else if t == "HALF_YEARLY"@ {
            "Half yearly"@
        } else if t == "ANNUAL"@ {
            "Annual"@
        } else {
            t
        };
        label + " subscription — "@ + member_name
    }
}

pub fn build_membership_purpose(member_name: &str, fee_type: &str, membership_type: Option<&str>) -> (r: String)
    ensures
        r@ == webhook_membership_purpose(member_name@, fee_type@, opt_str(membership_type)),
{
    if str_eq(fee_type, "ANNUAL_FEE") {
        let mut r = "Annual membership fee — ".to_string();
        r.append(member_name);
        return r;
    }
    let t: &str = match membership_type {
        Some(t) => t,
        None => "Membership",
    };
    let label: &str = if str_eq(t, "MONTHLY") {
        "Monthly"
    } else if str_eq(t, "HALF_YEARLY") {
        "Half yearly"
    } else if str_eq(t, "ANNUAL") {
        "Annual"
    } else {
        t
    };
    let mut r = label.to_string();
    r.append(" subscription — ");
    r.append(member_name);
    r
}

/// What a membership payment's notes say.
#[derive(Debug, Clone)]
pub struct MembershipPaymentNotes {
    pub member_id: String,
    /// `SUBSCRIPTION` when the notes name no fee type.
    pub fee_type: String,
    pub membership_type: Option<String>,
    pub sender_name: Option<String>,
    pub includes_annual_fee: bool,
    pub includes_subscription: bool,
    /// Read from the `isApplicationFee` note.
    pub includes_application_fee: bool,
}

/// Reads a membership payment's notes; the member ID is required.
pub fn read_membership_notes(notes: &PaymentNotes) -> (r: Result<MembershipPaymentNotes, AppError>)
    ensures
        match notes.note("memberId"@) {
            None => r matches Err(AppError::BadRequest(m)) && m@ == "Missing memberId in payment notes"@,
            Some(id) => r matches Ok(p) && {
                &&& p.member_id@ == id
                &&& p.fee_type@ == fee_type_or_default(notes.note("feeType"@))
                &&& opt_view(p.membership_type) == notes.note("membershipType"@)
                &&& opt_view(p.sender_name) == notes.note("memberName"@)
                &&& p.includes_annual_fee == (notes.note("includesAnnualFee"@) == Some("true"@))
                &&& p.includes_subscription == (notes.note("includesSubscription"@) == Some("true"@))
                &&& p.includes_application_fee == (notes.note("isApplicationFee"@) == Some("true"@))
            },
        },
{
    let member_id = match notes.get("memberId") {
        Some(m) => m,
        None => return Err(AppError::BadRequest("Missing memberId in payment notes".to_string())),
    };
    let fee_type = match notes.get("feeType") {
        Some(f) => f,
        None => "SUBSCRIPTION".to_string(),
    };
    Ok(MembershipPaymentNotes {
        member_id,
        fee_type,
        membership_type: notes.get("membershipType"),
        sender_name: notes.get("memberName"),
        includes_annual_fee: parse_note_bool(notes, "includesAnnualFee"),
        includes_subscription: parse_note_bool(notes, "includesSubscription"),
        includes_application_fee: parse_note_bool(notes, "isApplicationFee"),
    })
}

/// The membership components a webhook payment applies.
pub fn webhook_membership_details(n: &MembershipPaymentNotes) -> (r: TransactionMembershipDetails)
    ensures
        r.membership_type == n.membership_type,
        r.fee_type matches Some(f) && f@ == n.fee_type@,
        r.is_application_fee == n.includes_application_fee,
        r.includes_application_fee == n.includes_application_fee,
        r.includes_subscription == n.includes_subscription,
        r.includes_annual_fee == n.includes_annual_fee,
{
    TransactionMembershipDetails {
        membership_type: n.membership_type.clone(),
        fee_type: Some(n.fee_type.clone()),
        is_application_fee: n.includes_application_fee,
        includes_subscription: n.includes_subscription,
        includes_annual_fee: n.includes_annual_fee,
        includes_application_fee: n.includes_application_fee,
    }
}

// ---------------------------------------------------------------------------
// Profile completion
// ---------------------------------------------------------------------------

/// Name, phone and address must each have something besides white space.
pub fn validate_profile(name: &String, phone: &String, address: &String) -> (r: Result<(), AppError>)
    ensures
        (trimmed(name@).len() == 0 || trimmed(phone@).len() == 0 || trimmed(address@).len() == 0)
            ==> (r matches Err(AppError::BadRequest(m)) && m@ == "name, phone, and address are required"@),
        !(trimmed(name@).len() == 0 || trimmed(phone@).len() == 0 || trimmed(address@).len() == 0) ==> r is Ok,
{
    let n = trim_string(name);
    let p = trim_string(phone);
    let a = trim_string(address);
    if n.as_str().unicode_len() == 0 || p.as_str().unicode_len() == 0 || a.as_str().unicode_len() == 0 {
        Err(AppError::BadRequest("name, phone, and address are required".to_string()))
    } else {
        Ok(())
    }
}

/// A sub-member as entered with a profile.
#[derive(Debug, Clone)]
pub struct SubMemberInput {
    pub name: String,
    pub email: String,
    pub phone: String,
    pub relation: String,
}

/// A sub-member to create, its fields trimmed.
#[derive(Debug, Clone)]
pub struct NewSubMember {
    /// 1-based position among the entries.
    pub index: u32,
    pub member_id: String,
    pub name: String,
    pub email: String,
    pub phone: String,
    pub relation: String,
}

/// Whether entry `e` is kept: its name and email are not blank.
pub open spec fn sub_member_kept(e: SubMemberInput) -> bool {
    trimmed(e.name@).len() > 0 && trimmed(e.email@).len() > 0
}

/// The sub-members created with a profile: of the first three entries, those
/// with a name and an email, each with the ID of its position.
/// The ID of the sub-member in position `index` of a profile whose member ID
/// is `member_id`: the member's ID with its last two bytes replaced by the
/// two-digit position, or, for an ID shorter than two bytes, the ID followed
/// by `-0` and the position.
pub open spec fn profile_sub_member_id(member_id: Seq<char>, index: nat) -> Seq<char> {
    if byte_len(member_id) >= 2 {
        byte_slice(member_id, 0, byte_len(member_id) - 2) + zero_padded(index, 2)
    } else {
        member_id + "-0"@ + decimal(index)
    }
}

pub fn plan_profile_sub_members(new_member_id: &str, entries: &Vec<SubMemberInput>) -> (r: Vec<NewSubMember>)
    requires
        byte_len(new_member_id@) >= 2 ==> boundary(new_member_id@, byte_len(new_member_id@) - 2),
    ensures
        r@.len() <= 3,
        forall|k: int| 0 <= k < r@.len() ==> {
            let s = #[trigger] r@[k];
            &&& 1 <= s.index <= 3
            &&& s.index <= entries@.len()
            &&& sub_member_kept(entries@[s.index - 1])
            &&& s.name@ == trimmed(entries@[s.index - 1].name@)
            &&& s.email@ == trimmed(entries@[s.index - 1].email@)
            &&& s.phone@ == trimmed(entries@[s.index - 1].phone@)
            &&& s.relation@ == trimmed(entries@[s.index - 1].relation@)
            &&& s.member_id@ == profile_sub_member_id(new_member_id@, s.index as nat)
        },
        forall|a: int, b: int| 0 <= a < b < r@.len() ==> r@[a].index < r@[b].index,
        forall|i: int| 0 <= i < 3 && i < entries@.len() && sub_member_kept(entries@[i])
            ==> exists|k: int| 0 <= k < r@.len() && r@[k].index == i + 1,
{
    let mut r: Vec<NewSubMember> = Vec::new();
    let mut i: usize = 0;
    while i < entries.len() && i < 3
        invariant
            byte_len(new_member_id@) >= 2 ==> boundary(new_member_id@, byte_len(new_member_id@) - 2),
            0 <= i <= 3,
            i <= entries@.len(),
            r@.len() <= i,
            forall|k: int| 0 <= k < r@.len() ==> {
                let s = #[trigger] r@[k];
                &&& 1 <= s.index <= i
                &&& sub_member_kept(entries@[s.index - 1])
                &&& s.name@ == trimmed(entries@[s.index - 1].name@)
                &&& s.email@ == trimmed(entries@[s.index - 1].email@)
                &&& s.phone@ == trimmed(entries@[s.index - 1].phone@)
                &&& s.relation@ == trimmed(entries@[s.index - 1].relation@)
                &&& s.member_id@ == profile_sub_member_id(new_member_id@, s.index as nat)
            },
            forall|a: int, b: int| 0 <= a < b < r@.len() ==> r@[a].index < r@[b].index,
            forall|j: int| 0 <= j < i && sub_member_kept(entries@[j])
                ==> exists|k: int| 0 <= k < r@.len() && r@[k].index == j + 1,
        decreases 3 - i,
    {
        let e = &entries[i];
        let name = trim_string(&e.name);
        let email = trim_string(&e.email);
        if name.as_str().unicode_len() > 0 && email.as_str().unicode_len() > 0 {
            let index: u32 = (i + 1) as u32;
            let member_id = match generate_sub_member_id(new_member_id, index) {
                Ok(id) => id,
                Err(_) => {
                    let mut id = new_member_id.to_string();
                    id.append("-0");
                    crate::text::push_decimal(&mut id, index as u64);
                    proof {
                        reveal_strlit("-0");
                    }
                    id
                },
            };
            let ghost old_r = r@;
            r.push(NewSubMember {
                index,
                member_id,
                name,
                email,
                phone: trim_string(&e.phone),
                relation: trim_string(&e.relation),
            });
            proof {
                assert forall|j: int| 0 <= j < i + 1 && sub_member_kept(entries@[j])
                    implies exists|k: int| 0 <= k < r@.len() && r@[k].index == j + 1 by {
                    if j < i {
                        let k = choose|k: int| 0 <= k < old_r.len() && old_r[k].index == j + 1;
                        assert(r@[k] == old_r[k]);
                    } else {
                        assert(r@[r@.len() - 1].index == j + 1);
                    }
                }
            }
        }
        i = i + 1;
    }
    r
}

/// The activity description of a completed profile.
pub fn profile_completed_description(name: &String, member_id: &str) -> (r: String)
    ensures
        r@ == "Member "@ + trimmed(name@) + " ("@ + member_id@ + ") completed their profile"@,
{
    let mut r = "Member ".to_string();
    let n = trim_string(name);
    r.append(n.as_str());
    r.append(" (");
    r.append(member_id);
    r.append(") completed their profile");
    r
}

// ---------------------------------------------------------------------------
// Dashboard
// ---------------------------------------------------------------------------

/// Staff (admins, operators, organisers) see the club's figures; anyone else
/// sees their own membership.
pub fn sees_club_stats(role: &str) -> (b: bool)
    ensures
        b == (role@ == "ADMIN"@ || role@ == "OPERATOR"@ || role@ == "ORGANISER"@),
{
    str_eq(role, "ADMIN") || str_eq(role, "OPERATOR") || str_eq(role, "ORGANISER")
}

/// Days from `today` to a membership expiry, read from its first ten bytes;
/// `None` when there are not ten bytes to read or they are not a date.
pub fn dashboard_days_left(expiry: &str, today: i32) -> (r: Option<i64>)
    ensures
        r == match crate::dates::read_date_prefix_spec(expiry@) {
            Some(Some(d)) => Some((d - today) as i64),
            _ => None::<i64>,
        },
{
    match crate::dates::read_date_prefix(expiry) {
        Some(Some(d)) => Some(d as i64 - today as i64),
        _ => None,
    }
}

// ---------------------------------------------------------------------------
// Access
// ---------------------------------------------------------------------------

/// The role a session carries; a label that does not parse counts as a
/// member's.
pub open spec fn session_role(role: Seq<char>) -> Role {
    match role_of_label(unicode_upper(role)) {
        Some(r) => r,
        None => Role::Member,
    }
}

pub fn role_or_member(role: &str) -> (r: Role)
    ensures
        r == session_role(role@),
{
    match Role::from_str(role) {
        Some(r) => r,
        None => Role::Member,
    }
}

/// A route open to `minimum` and the roles above it.
pub fn require_at_least(role: &str, minimum: Role) -> (r: Result<Role, AppError>)
    ensures
        role_level(session_role(role@)) >= role_level(minimum) ==> r == Ok::<Role, AppError>(session_role(role@)),
        role_level(session_role(role@)) < role_level(minimum) ==> r == Err::<Role, AppError>(AppError::Forbidden),
{
    let r = role_or_member(role);
    if r.has_at_least(minimum) { Ok(r) } else { Err(AppError::Forbidden) }
}

/// A route open to admins only.
pub fn require_admin(role: &str) -> (r: Result<(), AppError>)
    ensures
        r == if session_role(role@) == Role::Admin {
            Ok::<(), AppError>(())
        } else {
            Err::<(), AppError>(AppError::Forbidden)
        },
{
    match role_or_member(role) {
        Role::Admin => Ok(()),
        _ => Err(AppError::Forbidden),
    }
}

/// Sponsor management is open to admins and operators, by their exact role
/// label.
pub fn require_staff(role: &str) -> (r: Result<(), AppError>)
    ensures
        r == if role@ == "ADMIN"@ || role@ == "OPERATOR"@ {
            Ok::<(), AppError>(())
        } else {
            Err::<(), AppError>(AppError::Forbidden)
        },
{
    if str_eq(role, "ADMIN") || str_eq(role, "OPERATOR") { Ok(()) } else { Err(AppError::Forbidden) }
}

/// The daily run may be started with the configured cron secret (when one is
/// set and the request's `x-cron-secret` header equals it), or by a signed-in
/// admin.
pub fn cron_access(cron_secret: Option<&str>, header_secret: Option<&str>, session_role_label: Option<&str>) -> (r: Result<(), AppError>)
    ensures
        ({
            let by_secret = match (cron_secret, header_secret) {
                (Some(s), Some(h)) => s@.len() > 0 && h@ == s@,
                _ => false,
            };
            if by_secret {
                r == Ok::<(), AppError>(())
            } else {
                match session_role_label {
                    None => r == Err::<(), AppError>(AppError::Unauthorized),
                    Some(role) => r == if role@ == "ADMIN"@ {
                        Ok::<(), AppError>(())
                    } else {
                        Err::<(), AppError>(AppError::Forbidden)
                    },
                }
            }
        }),
{
    let by_secret = match (cron_secret, header_secret) {
        (Some(s), Some(h)) => s.unicode_len() > 0 && str_eq(h, s),
        _ => false,
    };
    if by_secret {
        return Ok(());
    }
    match session_role_label {
        None => Err(AppError::Unauthorized),
        Some(role) => if str_eq(role, "ADMIN") { Ok(()) } else { Err(AppError::Forbidden) },
    }
}

/// How a sponsor error is answered: a missing sponsor or link as not found,
/// the rest as a bad request with the error's message.
pub fn map_sponsor_error(e: SponsorServiceError) -> (r: AppError)
    ensures
        (e == SponsorServiceError::SponsorNotFound || e == SponsorServiceError::LinkNotFound) ==> r == AppError::NotFound,
        !(e == SponsorServiceError::SponsorNotFound || e == SponsorServiceError::LinkNotFound)
            ==> (r matches AppError::BadRequest(m) && m@ == sponsor_error_text(e)),
{
    match e {
        SponsorServiceError::SponsorNotFound | SponsorServiceError::LinkNotFound => AppError::NotFound,
        _ => AppError::BadRequest(e.message().to_string()),
    }
}

pub open spec fn sponsor_error_text(e: SponsorServiceError) -> Seq<char> {
    match e {
        SponsorServiceError::SponsorNotFound => "Sponsor not found"@,
        SponsorServiceError::LinkNotFound => "Sponsor link not found"@,
        SponsorServiceError::LinkAlreadyInactive => "Sponsor link is already inactive"@,
        SponsorServiceError::HasTransactions => "Cannot delete sponsor with existing transactions. Deactivate sponsor links instead."@,
        SponsorServiceError::NoFieldsProvided => "No fields provided for update"@,
    }
}

// ---------------------------------------------------------------------------
// Lists
// ---------------------------------------------------------------------------

/// The status shown for a member: the linked user's membership status, or,
/// without one, `PENDING_PAYMENT` for a member with a user and
/// `PENDING_APPROVAL` for one without.
pub fn display_membership_status(user_status: Option<&str>, has_user: bool) -> (r: &str)
    ensures
        r@ == match user_status {
            Some(s) => s@,
            None => if has_user { "PENDING_PAYMENT"@ } else { "PENDING_APPROVAL"@ },
        },
{
    match user_status {
        Some(s) => s,
        None => if has_user { "PENDING_PAYMENT" } else { "PENDING_APPROVAL" },
    }
}

/// A receipt is cancelled with its rejected transaction.
pub fn receipt_status_for(approval_status: &str) -> (r: &'static str)
    ensures
        r@ == if approval_status@ == "REJECTED"@ { "CANCELLED"@ } else { "ACTIVE"@ },
{
    if str_eq(approval_status, "REJECTED") { "CANCELLED" } else { "ACTIVE" }
}

/// Pages of `limit` rows needed for `total` rows (none when the limit is 0).
pub fn total_pages(total: u32, limit: u32) -> (r: u32)
    requires
        total + limit <= u32::MAX + 1,
    ensures
        limit == 0 ==> r == 0,
        limit > 0 ==> r as int == (total + limit - 1) / (limit as int),
{
    if limit > 0 { (total + (limit - 1)) / limit } else { 0 }
}

/// `?1<sep>?2<sep>...<sep>?n`: placeholders for `n` values.
pub open spec fn placeholder_list(n: nat, sep: Seq<char>) -> Seq<char>
    decreases n,
{
    if n == 0 {
        Seq::empty()
    } else if n == 1 {
        "?1"@
    } else {
        placeholder_list((n - 1) as nat, sep) + sep + seq!['?'] + crate::text::decimal(n)
    }
}

pub fn in_placeholders(n: u64, sep: &str) -> (r: String)
    ensures
        r@ == placeholder_list(n as nat, sep@),
{
    let mut r = String::new();
    let mut i: u64 = 0;
    while i < n
        invariant
            i <= n,
            r@ == placeholder_list(i as nat, sep@),
        decreases n - i,
    {
        if i > 0 {
            r.append(sep);
        }
        crate::text::push_char(&mut r, '?');
        crate::text::push_decimal(&mut r, i + 1);
        proof {
            if i == 0 {
                reveal_strlit("?1");
                assert(crate::text::decimal(1) == seq!['1']) by {
                    reveal_with_fuel(crate::text::decimal, 2);
                }
            }
        }
        assert(r@ =~= placeholder_list((i + 1) as nat, sep@));
        i = i + 1;
    }
    r
}

/// The page and page size of a list request: page 1 and 50 rows unless
/// given, and never below 1.
pub fn list_window(page: Option<u32>, limit: Option<u32>) -> (r: (u32, u32))
    ensures
        r.0 == (match page { Some(p) => if p >= 1 { p } else { 1 }, None => 1 }),
        r.1 == (match limit { Some(l) => if l >= 1 { l } else { 1 }, None => 50 }),
{
    let p = match page { Some(p) => if p >= 1 { p } else { 1 }, None => 1 };
    let l = match limit { Some(l) => if l >= 1 { l } else { 1 }, None => 50 };
    (p, l)
}

} // verus!
