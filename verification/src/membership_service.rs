//! Membership decisions: which fee components a payment covers, what it must
//! amount to, what it records, and what an approved membership payment grants.
//!
//! Fee rules: the annual membership fee, a subscription (monthly, half-yearly
//! or annual) and the one-time application fee, which comes only with a
//! subscription and only while it has not been paid. No partial payments:
//! the amount must match the selected components exactly.

use vstd::prelude::*;
use crate::membership_rules::{
    calculate_annual_fee_dates, calculate_membership_dates, duration_of, fee_of, membership_fee,
    membership_type_label, membership_type_of_label, period_fits, period_start, rupee, DateRange,
    MembershipType, ANNUAL_MEMBERSHIP_FEE, APPLICATION_FEE,
};
use crate::dates::MAX_DAY;
use crate::text::{decimal, push_decimal, str_eq};
use crate::text::opt_view;

verus! {

broadcast use vstd::string::group_string_axioms;

// ---------------------------------------------------------------------------
// Errors and records
// ---------------------------------------------------------------------------

/// Why a membership operation is refused.
#[derive(Debug, Clone, PartialEq, Eq)]
pub enum MembershipServiceError {
    MemberNotFound,
    MembershipNotFound,
    NoLinkedUser,
    ApplicationFeeAlreadyPaid,
    /// The membership has already been decided; carries its status.
    AlreadyProcessed(String),
    Validation(String),
}

/// A variant's tag and text, to state which error a function returns.
pub open spec fn membership_error_view(e: MembershipServiceError) -> (int, Seq<char>) {
    match e {
        MembershipServiceError::MemberNotFound => (0, Seq::empty()),
        MembershipServiceError::MembershipNotFound => (1, Seq::empty()),
        MembershipServiceError::NoLinkedUser => (2, Seq::empty()),
        MembershipServiceError::ApplicationFeeAlreadyPaid => (3, Seq::empty()),
        MembershipServiceError::AlreadyProcessed(s) => (4, s@),
        MembershipServiceError::Validation(s) => (5, s@),
    }
}

impl MembershipServiceError {
    /// The error's message.
    pub fn message(&self) -> (r: String)
        ensures
            r@ == match self {
                MembershipServiceError::MemberNotFound => "Member not found"@,
                MembershipServiceError::MembershipNotFound => "Membership not found"@,
                MembershipServiceError::NoLinkedUser => "Member has no linked user account"@,
                MembershipServiceError::ApplicationFeeAlreadyPaid => "Application fee has already been paid for this member"@,
                MembershipServiceError::AlreadyProcessed(s) => "Membership is already "@ + s@,
                MembershipServiceError::Validation(s) => s@,
            },
    {
        match self {
            MembershipServiceError::MemberNotFound => "Member not found".to_string(),
            MembershipServiceError::MembershipNotFound => "Membership not found".to_string(),
            MembershipServiceError::NoLinkedUser => "Member has no linked user account".to_string(),
            MembershipServiceError::ApplicationFeeAlreadyPaid => "Application fee has already been paid for this member".to_string(),
            MembershipServiceError::AlreadyProcessed(s) => {
                let mut r = "Membership is already ".to_string();
                r.append(s.as_str());
                r
            },
            MembershipServiceError::Validation(s) => s.clone(),
        }
    }
}

/// Caller identity.
#[derive(Debug, Clone)]
pub struct RequestedBy {
    pub id: String,
    pub role: String,
    pub name: String,
}

/// Result of recording a membership payment.
#[derive(Debug, Clone)]
pub struct CreateMembershipResult {
    /// `direct` or `pending_approval`.
    pub action: String,
    pub transaction_id: Option<String>,
    pub approval_id: Option<String>,
}

/// The membership components of a transaction.
#[derive(Debug, Clone, Default)]
pub struct TransactionMembershipDetails {
    pub membership_type: Option<String>,
    pub fee_type: Option<String>,
    pub is_application_fee: bool,
    pub includes_subscription: bool,
    pub includes_annual_fee: bool,
    pub includes_application_fee: bool,
}

/// Counts of the daily membership run.
#[derive(Debug, Clone, Copy, Default)]
pub struct MembershipCronSummary {
    pub processed: u32,
    pub reminded: u32,
    pub expired: u32,
}

// ---------------------------------------------------------------------------
// Fee components
// ---------------------------------------------------------------------------

/// The fee components a membership payment covers.
#[derive(Debug, Clone, Copy, PartialEq, Eq, Structural)]
pub struct FeeComponents {
    pub includes_annual_fee: bool,
    pub includes_subscription: bool,
    pub is_application_fee: bool,
}

pub open spec fn opt_str(o: Option<&str>) -> Option<Seq<char>> {
    match o {
        Some(s) => Some(s@),
        None => None,
    }
}

/// Explicit flags win over the older `fee_type` field: the annual fee is included
/// when flagged (or when `fee_type` is `ANNUAL_FEE`), the subscription unless
/// only the annual fee was asked for, and the application fee only beside a
/// subscription.
pub open spec fn fee_components_spec(
    fee_type: Option<Seq<char>>,
    includes_annual_fee: Option<bool>,
    includes_subscription: Option<bool>,
    is_application_fee: Option<bool>,
) -> FeeComponents {
    let annual = match includes_annual_fee {
        Some(b) => b,
        None => fee_type == Some("ANNUAL_FEE"@),
    };
    let subscription = match includes_subscription {
        Some(b) => b,
        None => !annual,
    };
    let application = if annual && !subscription {
        false
    } else {
        match is_application_fee {
            Some(b) => b,
            None => false,
        }
    };
    FeeComponents { includes_annual_fee: annual, includes_subscription: subscription, is_application_fee: application }
}

pub fn resolve_fee_components(
    fee_type: Option<&str>,
    includes_annual_fee: Option<bool>,
    includes_subscription: Option<bool>,
    is_application_fee: Option<bool>,
) -> (r: FeeComponents)
    ensures
        r == fee_components_spec(opt_str(fee_type), includes_annual_fee, includes_subscription, is_application_fee),
{
    let annual = match includes_annual_fee {
        Some(b) => b,
        None => match fee_type {
            Some(f) => str_eq(f, "ANNUAL_FEE"),
            None => false,
        },
    };
    let subscription = match includes_subscription {
        Some(b) => b,
        None => !annual,
    };
    let application = if annual && !subscription {
        false
    } else {
        match is_application_fee {
            Some(b) => b,
            None => false,
        }
    };
    FeeComponents { includes_annual_fee: annual, includes_subscription: subscription, is_application_fee: application }
}

/// The sum of the selected components' fees (the subscription's by `t`).
pub open spec fn fee_total(c: FeeComponents, t: MembershipType) -> nat {
    (if c.includes_annual_fee { ANNUAL_MEMBERSHIP_FEE as nat } else { 0 })
        + (if c.includes_subscription { fee_of(t) } else { 0 })
        + (if c.is_application_fee { APPLICATION_FEE as nat } else { 0 })
}

/// The fee of a membership type, written with an initial capital and the
/// rest in lower case.
pub open spec fn capitalized_type(t: MembershipType) -> Seq<char> {
    match t {
        MembershipType::Monthly => "Monthly"@,
        MembershipType::HalfYearly => "Half_yearly"@,
        MembershipType::Annual => "Annual"@,
    }
}

/// The names of the selected components, in order.
pub open spec fn component_names(c: FeeComponents, t: MembershipType) -> Seq<Seq<char>> {
    (if c.includes_annual_fee { seq!["Annual membership fee"@] } else { Seq::empty() })
        + (if c.includes_subscription { seq![capitalized_type(t) + " subscription"@] } else { Seq::empty() })
        + (if c.is_application_fee { seq!["application fee"@] } else { Seq::empty() })
}

/// The purpose recorded for a membership payment: the components joined with
/// ` + `, then ` — ` and the member's name.
pub open spec fn membership_purpose_spec(c: FeeComponents, t: MembershipType, member_name: Seq<char>) -> Seq<char> {
    crate::validation::join(component_names(c, t), " + "@) + " — "@ + member_name
}

/// The fee type recorded on the membership: `ANNUAL_FEE` for an annual fee
/// alone, `SUBSCRIPTION` otherwise.
pub open spec fn effective_fee_type_spec(c: FeeComponents) -> Seq<char> {
    if c.includes_annual_fee && !c.includes_subscription { "ANNUAL_FEE"@ } else { "SUBSCRIPTION"@ }
}

pub fn effective_fee_type(c: FeeComponents) -> (r: &'static str)
    ensures
        r@ == effective_fee_type_spec(c),
{
    if c.includes_annual_fee && !c.includes_subscription { "ANNUAL_FEE" } else { "SUBSCRIPTION" }
}

fn capitalized_type_str(t: MembershipType) -> (r: &'static str)
    ensures
        r@ == capitalized_type(t),
{
    match t {
        MembershipType::Monthly => "Monthly",
        MembershipType::HalfYearly => "Half_yearly",
        MembershipType::Annual => "Annual",
    }
}

/// The purpose text of a membership payment.
pub fn membership_purpose(c: FeeComponents, t: MembershipType, member_name: &str) -> (r: String)
    ensures
        r@ == membership_purpose_spec(c, t, member_name@),
{
    let ghost names = component_names(c, t);
    let ghost a: Seq<Seq<char>> = if c.includes_annual_fee { seq!["Annual membership fee"@] } else { Seq::empty() };
    let ghost s: Seq<Seq<char>> = if c.includes_subscription { seq![capitalized_type(t) + " subscription"@] } else { Seq::empty() };
    let ghost p: Seq<Seq<char>> = if c.is_application_fee { seq!["application fee"@] } else { Seq::empty() };
    let mut r = String::new();
    let mut count: usize = 0;
    if c.includes_annual_fee {
        r.append("Annual membership fee");
        count = 1;
    }
    assert(r@ == crate::validation::join(a, " + "@));
    assert(a.len() == count);
    if c.includes_subscription {
        if count > 0 {
            r.append(" + ");
        }
        r.append(capitalized_type_str(t));
        r.append(" subscription");
        proof {
            let q = a + s;
            assert(q.drop_last() =~= a);
            assert(q.last() == capitalized_type(t) + " subscription"@);
        }
        count = count + 1;
    }
    assert(a + s == (a + s));
    assert(r@ =~= crate::validation::join(a + s, " + "@));
    assert((a + s).len() == count);
    if c.is_application_fee {
        if count > 0 {
            r.append(" + ");
        }
        r.append("application fee");
        proof {
            let q = a + s + p;
            assert(q.drop_last() =~= a + s);
            assert(q.last() == "application fee"@);
        }
    }
    assert(names =~= a + s + p);
    assert(r@ =~= crate::validation::join(names, " + "@));
    r.append(" — ");
    r.append(member_name);
    r
}

// ---------------------------------------------------------------------------
// Recording a membership payment
// ---------------------------------------------------------------------------

/// A membership payment as submitted, with its amount in paise.
#[derive(Debug, Clone)]
pub struct CreateMembershipInput {
    pub member_id: String,
    /// Subscription type label (`MONTHLY`, `HALF_YEARLY`, `ANNUAL`).
    pub membership_type: String,
    pub amount_paise: u64,
    pub fee_type: Option<String>,
    pub is_application_fee: Option<bool>,
    pub includes_subscription: Option<bool>,
    pub includes_annual_fee: Option<bool>,
}

pub open spec fn input_components(data: CreateMembershipInput) -> FeeComponents {
    fee_components_spec(opt_view(data.fee_type), data.includes_annual_fee, data.includes_subscription, data.is_application_fee)
}

/// What recording a membership payment writes.
#[derive(Debug, Clone)]
pub struct CreateMembershipPlan {
    pub components: FeeComponents,
    /// The amount the components add up to, in whole rupees.
    pub expected_amount: u64,
    /// The transaction's purpose text.
    pub purpose: String,
    /// `ANNUAL_FEE` or `SUBSCRIPTION`.
    pub effective_fee_type: &'static str,
    /// Recorded by an operator: awaits an admin's approval.
    pub is_pending: bool,
    /// `PENDING` or `APPROVED`.
    pub approval_status: &'static str,
    /// The type named in the approval record: the subscription's, or `ANNUAL`
    /// for an annual fee alone.
    pub recorded_membership_type: String,
    /// The components, as applied once the payment is approved.
    pub details: TransactionMembershipDetails,
    /// `pending_approval` or `direct`.
    pub result_action: &'static str,
    /// `transaction_created_pending` or `transaction_created`.
    pub activity_action: &'static str,
}

/// The error recording a membership payment meets first, if any: the
/// application fee needs a linked user who has not paid it, the subscription
/// type must be known, some component must be selected, and the amount must
/// match their fees exactly, to the paisa: no partial payments.
pub open spec fn create_membership_error(data: CreateMembershipInput, application_fee_paid: Option<bool>) -> Option<(int, Seq<char>)> {
    let c = input_components(data);
    let t = membership_type_of_label(data.membership_type@);
    if c.is_application_fee && application_fee_paid is None {
        Some((2, Seq::empty()))
    } else if c.is_application_fee && application_fee_paid == Some(true) {
        Some((3, Seq::empty()))
    } else if c.includes_subscription && t is None {
        Some((5, "Invalid membership type: "@ + data.membership_type@))
    } else if fee_total(c, t.unwrap_or(MembershipType::Monthly)) == 0 {
        Some((5, "No fee components selected"@))
    } else if data.amount_paise != fee_total(c, t.unwrap_or(MembershipType::Monthly)) * 100 {
        Some((5, "Amount must be exactly "@ + rupee() + decimal(fee_total(c, t.unwrap_or(MembershipType::Monthly)))
            + " for the selected fee components"@))
    } else {
        None
    }
}

/// Decides how a membership payment is recorded. `application_fee_paid` is
/// whether the member's linked user has paid the application fee (`None`
/// without a linked user); an `ADMIN` records it approved, anyone else
/// records it for approval.
pub fn plan_create_membership(
    data: &CreateMembershipInput,
    application_fee_paid: Option<bool>,
    member_name: &str,
    requester_role: &str,
) -> (r: Result<CreateMembershipPlan, MembershipServiceError>)
    ensures
        match create_membership_error(*data, application_fee_paid) {
            Some(e) => r matches Err(err) && membership_error_view(err) == e,
            None => r is Ok,
        },
        r matches Ok(p) ==> {
            let c = input_components(*data);
            let t = membership_type_of_label(data.membership_type@).unwrap_or(MembershipType::Monthly);
            let admin = requester_role@ == "ADMIN"@;
            &&& p.components == c
            &&& p.expected_amount == fee_total(c, t)
            &&& p.expected_amount * 100 == data.amount_paise
            &&& p.purpose@ == membership_purpose_spec(c, t, member_name@)
            &&& p.effective_fee_type@ == effective_fee_type_spec(c)
            &&& p.is_pending == !admin
            &&& p.approval_status@ == (if admin { "APPROVED"@ } else { "PENDING"@ })
            &&& p.recorded_membership_type@ == (if c.includes_subscription { data.membership_type@ } else { "ANNUAL"@ })
            &&& opt_view(p.details.membership_type) == (if c.includes_subscription { Some(data.membership_type@) } else { None })
            &&& opt_view(p.details.fee_type) == Some(effective_fee_type_spec(c))
            &&& p.details.is_application_fee == c.is_application_fee
            &&& p.details.includes_application_fee == c.is_application_fee
            &&& p.details.includes_subscription == c.includes_subscription
            &&& p.details.includes_annual_fee == c.includes_annual_fee
            &&& p.result_action@ == (if admin { "direct"@ } else { "pending_approval"@ })
            &&& p.activity_action@ == (if admin { "transaction_created"@ } else { "transaction_created_pending"@ })
        },
{
    let c = resolve_fee_components(
        match &data.fee_type { Some(f) => Some(f.as_str()), None => None },
        data.includes_annual_fee,
        data.includes_subscription,
        data.is_application_fee,
    );
    if c.is_application_fee {
        match application_fee_paid {
            None => return Err(MembershipServiceError::NoLinkedUser),
            Some(true) => return Err(MembershipServiceError::ApplicationFeeAlreadyPaid),
            Some(false) => {},
        }
    }
    let parsed = MembershipType::from_str_label(data.membership_type.as_str());
    if c.includes_subscription && parsed.is_none() {
        let mut m = "Invalid membership type: ".to_string();
        m.append(data.membership_type.as_str());
        return Err(MembershipServiceError::Validation(m));
    }
    let t = match parsed { Some(t) => t, None => MembershipType::Monthly };
    let mut expected: u64 = 0;
    if c.includes_annual_fee {
        expected = expected + ANNUAL_MEMBERSHIP_FEE;
    }
    if c.includes_subscription {
        expected = expected + membership_fee(t);
    }
    if c.is_application_fee {
        expected = expected + APPLICATION_FEE;
    }
    assert(expected == fee_total(c, t));
    if expected == 0 {
        return Err(MembershipServiceError::Validation("No fee components selected".to_string()));
    }
    if data.amount_paise != expected * 100 {
        let mut m = "Amount must be exactly ".to_string();
        m.append("\u{20b9}");
        proof {
            reveal_strlit("\u{20b9}");
        }
        push_decimal(&mut m, expected);
        m.append(" for the selected fee components");
        return Err(MembershipServiceError::Validation(m));
    }
    let purpose = membership_purpose(c, t, member_name);
    let fee_type = effective_fee_type(c);
    let admin = str_eq(requester_role, "ADMIN");
    let recorded = if c.includes_subscription { data.membership_type.clone() } else { "ANNUAL".to_string() };
    let details = TransactionMembershipDetails {
        membership_type: if c.includes_subscription { Some(data.membership_type.clone()) } else { None },
        fee_type: Some(fee_type.to_string()),
        is_application_fee: c.is_application_fee,
        includes_subscription: c.includes_subscription,
        includes_annual_fee: c.includes_annual_fee,
        includes_application_fee: c.is_application_fee,
    };
    Ok(CreateMembershipPlan {
        components: c,
        expected_amount: expected,
        purpose,
        effective_fee_type: fee_type,
        is_pending: !admin,
        approval_status: if admin { "APPROVED" } else { "PENDING" },
        recorded_membership_type: recorded,
        details,
        result_action: if admin { "direct" } else { "pending_approval" },
        activity_action: if admin { "transaction_created" } else { "transaction_created_pending" },
    })
}

// ---------------------------------------------------------------------------
// Applying an approved membership payment
// ---------------------------------------------------------------------------

/// What is known of the member's linked user when a payment is applied.
#[derive(Debug, Clone, Copy, PartialEq, Eq, Structural)]
pub struct LinkedUserDates {
    /// Current annual fee expiry, as a day number.
    pub annual_fee_expiry: Option<i32>,
    /// Current subscription expiry, as a day number.
    pub membership_expiry: Option<i32>,
    pub application_fee_paid: bool,
}

/// A subscription period granted by a payment.
#[derive(Debug, Clone)]
pub struct SubscriptionGrant {
    pub membership_type: MembershipType,
    pub dates: DateRange,
    /// The membership record is marked as carrying the application fee.
    pub is_application_fee: bool,
    /// The user is to be marked as having paid the application fee.
    pub mark_application_fee_paid: bool,
}

/// What an approved membership payment grants.
#[derive(Debug, Clone)]
pub struct MembershipStatusPlan {
    /// The payment is added to the user's total and the user made active,
    /// once however many components it covers.
    pub count_payment: bool,
    /// The annual fee period granted, if any.
    pub annual: Option<DateRange>,
    /// The subscription granted, if any.
    pub subscription: Option<SubscriptionGrant>,
}

/// The subscription type an approved payment grants: its type, when it
/// includes a subscription and the type is known.
pub open spec fn granted_subscription(details: TransactionMembershipDetails) -> Option<MembershipType> {
    if details.includes_subscription {
        match details.membership_type {
            Some(t) => membership_type_of_label(t@),
            None => None,
        }
    } else {
        None
    }
}

pub open spec fn annual_expiry_of(user: Option<LinkedUserDates>) -> Option<i32> {
    match user {
        Some(u) => u.annual_fee_expiry,
        None => None,
    }
}

pub open spec fn membership_expiry_of(user: Option<LinkedUserDates>) -> Option<i32> {
    match user {
        Some(u) => u.membership_expiry,
        None => None,
    }
}

/// Decides what an approved payment of `category` with these components
/// grants, on day `today`. Only `MEMBERSHIP` payments grant anything. The
/// annual fee period and the subscription period each follow on from the
/// user's current one; the application fee is marked paid with the
/// subscription unless it already was.
pub fn plan_membership_status(
    category: &str,
    details: &TransactionMembershipDetails,
    user: Option<LinkedUserDates>,
    today: i32,
) -> (r: MembershipStatusPlan)
    requires
        period_fits(annual_expiry_of(user), today, 365),
        period_fits(membership_expiry_of(user), today, 365),
    ensures
        category@ != "MEMBERSHIP"@ ==> !r.count_payment && r.annual is None && r.subscription is None,
        category@ == "MEMBERSHIP"@ ==> {
            let app = details.is_application_fee || details.includes_application_fee;
            &&& r.count_payment == (details.includes_annual_fee || granted_subscription(*details) is Some)
            &&& match r.annual {
                Some(d) => details.includes_annual_fee
                    && d.start_date == period_start(annual_expiry_of(user), today)
                    && d.end_date == d.start_date + 364,
                None => !details.includes_annual_fee,
            }
            &&& match r.subscription {
                Some(g) => granted_subscription(*details) == Some(g.membership_type)
                    && g.dates.start_date == period_start(membership_expiry_of(user), today)
                    && g.dates.end_date == g.dates.start_date + duration_of(g.membership_type) - 1
                    && g.is_application_fee == app
                    && g.mark_application_fee_paid == (app && !(user matches Some(u) && u.application_fee_paid)),
                None => granted_subscription(*details) is None,
            }
        },
{
    if !str_eq(category, "MEMBERSHIP") {
        return MembershipStatusPlan { count_payment: false, annual: None, subscription: None };
    }
    let app = details.is_application_fee || details.includes_application_fee;
    let granted = if details.includes_subscription {
        match &details.membership_type {
            Some(t) => MembershipType::from_str_label(t.as_str()),
            None => None,
        }
    } else {
        None
    };
    let (annual_expiry, membership_expiry, already_paid) = match user {
        Some(u) => (u.annual_fee_expiry, u.membership_expiry, u.application_fee_paid),
        None => (None, None, false),
    };
    let annual = if details.includes_annual_fee {
        Some(calculate_annual_fee_dates(annual_expiry, today))
    } else {
        None
    };
    let subscription = match granted {
        Some(t) => {
            proof {
                assert(duration_of(t) <= 365);
            }
            let dates = calculate_membership_dates(t, membership_expiry, today);
            Some(SubscriptionGrant {
                membership_type: t,
                dates,
                is_application_fee: app,
                mark_application_fee_paid: app && !already_paid,
            })
        },
        None => None,
    };
    MembershipStatusPlan {
        count_payment: details.includes_annual_fee || granted.is_some(),
        annual,
        subscription,
    }
}

// ---------------------------------------------------------------------------
// Approving and rejecting memberships
// ---------------------------------------------------------------------------

/// Only a pending membership can be approved or rejected.
pub fn check_pending(status: &str) -> (r: Result<(), MembershipServiceError>)
    ensures
        status@ == "PENDING"@ ==> r is Ok,
        status@ != "PENDING"@ ==> (r matches Err(e) && membership_error_view(e) == (4int, status@)),
{
    if str_eq(status, "PENDING") {
        Ok(())
    } else {
        Err(MembershipServiceError::AlreadyProcessed(status.to_string()))
    }
}

/// How approving a membership updates its member's user.
#[derive(Debug, Clone, Copy, PartialEq, Eq, Structural)]
pub enum ApprovedMembershipUpdate {
    /// Set the annual fee period and mark the annual fee paid.
    AnnualFee,
    /// Set the subscription type and period, and mark the application fee
    /// paid when the membership carried it.
    Subscription { mark_application_fee_paid: bool },
}

/// How an approved membership of fee type `fee_type` updates its member's
/// user: an annual fee sets the annual fee period; anything else is a
/// subscription, marking the application fee paid when it carries it.
pub open spec fn approved_update_spec(fee_type: Seq<char>, is_application_fee: bool) -> ApprovedMembershipUpdate {
    if fee_type == "ANNUAL_FEE"@ {
        ApprovedMembershipUpdate::AnnualFee
    } else {
        ApprovedMembershipUpdate::Subscription { mark_application_fee_paid: is_application_fee }
    }
}

/// How approving a membership of fee type `fee_type` updates its member's user.
pub fn approved_membership_update(fee_type: &str, is_application_fee: bool) -> (r: ApprovedMembershipUpdate)
    ensures
        r == approved_update_spec(fee_type@, is_application_fee),
{
    if str_eq(fee_type, "ANNUAL_FEE") {
        ApprovedMembershipUpdate::AnnualFee
    } else {
        ApprovedMembershipUpdate::Subscription { mark_application_fee_paid: is_application_fee }
    }
}

/// Decides approving a membership of status `status`, fee type `fee_type`:
/// only a pending one can be.
pub fn plan_approve_membership(status: &str, fee_type: &str, is_application_fee: bool)
    -> (r: Result<ApprovedMembershipUpdate, MembershipServiceError>)
    ensures
        status@ != "PENDING"@ ==> (r matches Err(e) && membership_error_view(e) == (4int, status@)),
        status@ == "PENDING"@ ==> r == Ok::<ApprovedMembershipUpdate, MembershipServiceError>(
            approved_update_spec(fee_type@, is_application_fee)),
{
    check_pending(status)?;
    Ok(approved_membership_update(fee_type, is_application_fee))
}

/// Days from `today` to the end of a membership ending on `end_date`, when it
/// has not ended before today: a reminder is due for it.
pub fn reminder_days_left(end_date: i32, today: i32) -> (r: Option<i64>)
    ensures
        end_date >= today ==> r == Some((end_date - today) as i64),
        end_date < today ==> r is None,
{
    let days = end_date as i64 - today as i64;
    if days < 0 { None } else { Some(days) }
}

} // verus!
