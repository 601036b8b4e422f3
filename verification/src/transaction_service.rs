//! Transaction decisions. Transactions are append-only: a mistake is
//! corrected by rejecting the entry and recording a new one.
//!
//! An `OPERATOR`'s transaction waits for approval; anyone else's is approved
//! when recorded.

use vstd::prelude::*;
use crate::membership_service::TransactionMembershipDetails;
use crate::text::str_eq;

verus! {

broadcast use vstd::string::group_string_axioms;

/// Why a transaction operation is refused.
#[derive(Debug, Clone, PartialEq, Eq)]
pub enum TransactionServiceError {
    NotFound,
    /// Only admins reject transactions.
    Forbidden,
    AlreadyRejected,
    /// Transactions are never edited or deleted.
    Immutable,
    Validation(String),
}

impl TransactionServiceError {
    /// The error's message.
    pub fn message(&self) -> (r: String)
        ensures
            r@ == match self {
                TransactionServiceError::NotFound => "Transaction not found"@,
                TransactionServiceError::Forbidden => "Only admins can reject transactions"@,
                TransactionServiceError::AlreadyRejected => "Transaction is already rejected"@,
                TransactionServiceError::Immutable => "Transactions are immutable. Reject the existing payment and create a new one."@,
                TransactionServiceError::Validation(s) => s@,
            },
    {
        match self {
            TransactionServiceError::NotFound => "Transaction not found".to_string(),
            TransactionServiceError::Forbidden => "Only admins can reject transactions".to_string(),
            TransactionServiceError::AlreadyRejected => "Transaction is already rejected".to_string(),
            TransactionServiceError::Immutable => "Transactions are immutable. Reject the existing payment and create a new one.".to_string(),
            TransactionServiceError::Validation(s) => s.clone(),
        }
    }
}

/// Caller identity.
#[derive(Debug, Clone)]
pub struct RequestedBy {
    pub id: String,
    pub role: String,
    pub name: String,
}

/// Result of recording a transaction.
#[derive(Debug, Clone)]
pub struct CreateTransactionResult {
    /// `direct` or `pending_approval`.
    pub action: String,
    pub transaction_id: String,
    pub approval_id: Option<String>,
}

/// The membership flags a transaction is submitted with.
#[derive(Debug, Clone, Copy, Default)]
pub struct MembershipFlags {
    pub is_application_fee: Option<bool>,
    pub includes_subscription: Option<bool>,
    pub includes_annual_fee: Option<bool>,
    pub includes_application_fee: Option<bool>,
}

pub open spec fn flag(b: Option<bool>) -> bool {
    b == Some(true)
}

/// How a new transaction is recorded.
#[derive(Debug, Clone)]
pub struct CreateTransactionPlan {
    pub is_pending: bool,
    /// `PENDING` or `APPROVED`.
    pub approval_status: &'static str,
    /// The stored flags: an application fee is flagged by either field.
    pub includes_subscription: bool,
    pub includes_annual_fee: bool,
    pub includes_application_fee: bool,
    /// The components applied once approved.
    pub details: TransactionMembershipDetails,
    /// The membership is applied at once: approved, for a member, in the
    /// `MEMBERSHIP` category.
    pub apply_membership_now: bool,
    /// Also record an `APPROVED` audit event beside `CREATED`.
    pub audit_approved: bool,
    /// `transaction_requested` or `transaction_created`.
    pub activity_action: &'static str,
    /// `pending_approval` or `direct`.
    pub result_action: &'static str,
}

/// Decides how a transaction of `category` is recorded for `role`.
pub fn plan_create_transaction(
    role: &str,
    category: &str,
    has_member: bool,
    membership_type: Option<String>,
    fee_type: Option<String>,
    flags: MembershipFlags,
) -> (r: CreateTransactionPlan)
    ensures
        ({
            let pending = role@ == "OPERATOR"@;
            let app = flag(flags.is_application_fee) || flag(flags.includes_application_fee);
            &&& r.is_pending == pending
            &&& r.approval_status@ == (if pending { "PENDING"@ } else { "APPROVED"@ })
            &&& r.includes_subscription == flag(flags.includes_subscription)
            &&& r.includes_annual_fee == flag(flags.includes_annual_fee)
            &&& r.includes_application_fee == app
            &&& r.details.membership_type == membership_type
            &&& r.details.fee_type == fee_type
            &&& r.details.is_application_fee == app
            &&& r.details.includes_application_fee == app
            &&& r.details.includes_subscription == flag(flags.includes_subscription)
            &&& r.details.includes_annual_fee == flag(flags.includes_annual_fee)
            &&& r.apply_membership_now == (!pending && has_member && category@ == "MEMBERSHIP"@)
            &&& r.audit_approved == !pending
            &&& r.activity_action@ == (if pending { "transaction_requested"@ } else { "transaction_created"@ })
            &&& r.result_action@ == (if pending { "pending_approval"@ } else { "direct"@ })
        }),
{
    let pending = str_eq(role, "OPERATOR");
    let app = flags.is_application_fee == Some(true) || flags.includes_application_fee == Some(true);
    let subscription = flags.includes_subscription == Some(true);
    let annual = flags.includes_annual_fee == Some(true);
    CreateTransactionPlan {
        is_pending: pending,
        approval_status: if pending { "PENDING" } else { "APPROVED" },
        includes_subscription: subscription,
        includes_annual_fee: annual,
        includes_application_fee: app,
        details: TransactionMembershipDetails {
            membership_type,
            fee_type,
            is_application_fee: app,
            includes_subscription: subscription,
            includes_annual_fee: annual,
            includes_application_fee: app,
        },
        apply_membership_now: !pending && has_member && str_eq(category, "MEMBERSHIP"),
        audit_approved: !pending,
        activity_action: if pending { "transaction_requested" } else { "transaction_created" },
        result_action: if pending { "pending_approval" } else { "direct" },
    }
}

/// Whether a transaction can be rejected: only by an admin, only when it
/// exists (its status is known), and only once.
pub fn check_reject_transaction(role: &str, current_status: Option<&str>) -> (r: Result<(), TransactionServiceError>)
    ensures
        role@ != "ADMIN"@ ==> r == Err::<(), TransactionServiceError>(TransactionServiceError::Forbidden),
        role@ == "ADMIN"@ ==> r == match current_status {
            None => Err::<(), TransactionServiceError>(TransactionServiceError::NotFound),
            Some(s) => if s@ == "REJECTED"@ {
                Err::<(), TransactionServiceError>(TransactionServiceError::AlreadyRejected)
            } else {
                Ok::<(), TransactionServiceError>(())
            },
        },
{
    if !str_eq(role, "ADMIN") {
        return Err(TransactionServiceError::Forbidden);
    }
    match current_status {
        None => Err(TransactionServiceError::NotFound),
        Some(s) => if str_eq(s, "REJECTED") { Err(TransactionServiceError::AlreadyRejected) } else { Ok(()) },
    }
}

/// Editing a transaction is always refused.
pub fn update_transaction(_id: &str, _requested_by: &RequestedBy) -> (r: Result<(), TransactionServiceError>)
    ensures
        r == Err::<(), TransactionServiceError>(TransactionServiceError::Immutable),
{
    Err(TransactionServiceError::Immutable)
}

/// Deleting a transaction is always refused.
pub fn delete_transaction(_id: &str, _requested_by: &RequestedBy) -> (r: Result<(), TransactionServiceError>)
    ensures
        r == Err::<(), TransactionServiceError>(TransactionServiceError::Immutable),
{
    Err(TransactionServiceError::Immutable)
}

} // verus!
