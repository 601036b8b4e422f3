//! Audit event types, and the snapshot of a transaction that an audit
//! entry keeps.

use vstd::prelude::*;
use crate::text::str_eq;
use crate::text::opt_view;

verus! {

broadcast use vstd::string::group_string_axioms;

/// Allowed audit event types.
#[derive(Debug, Clone, Copy, PartialEq, Eq, Structural)]
pub enum AuditEventType {
    TransactionCreated,
    TransactionApproved,
    TransactionRejected,
}

pub open spec fn audit_label(e: AuditEventType) -> Seq<char> {
    match e {
        AuditEventType::TransactionCreated => "TRANSACTION_CREATED"@,
        AuditEventType::TransactionApproved => "TRANSACTION_APPROVED"@,
        AuditEventType::TransactionRejected => "TRANSACTION_REJECTED"@,
    }
}

pub open spec fn audit_of_label(s: Seq<char>) -> Option<AuditEventType> {
    if s == "TRANSACTION_CREATED"@ {
        Some(AuditEventType::TransactionCreated)
    } else if s == "TRANSACTION_APPROVED"@ {
        Some(AuditEventType::TransactionApproved)
    } else if s == "TRANSACTION_REJECTED"@ {
        Some(AuditEventType::TransactionRejected)
    } else {
        None
    }
}

impl AuditEventType {
    pub fn as_str(&self) -> (s: &'static str)
        ensures
            s@ == audit_label(*self),
    {
        match self {
            AuditEventType::TransactionCreated => "TRANSACTION_CREATED",
            AuditEventType::TransactionApproved => "TRANSACTION_APPROVED",
            AuditEventType::TransactionRejected => "TRANSACTION_REJECTED",
        }
    }

    pub fn from_str_label(s: &str) -> (r: Option<AuditEventType>)
        ensures
            r == audit_of_label(s@),
    {
        if str_eq(s, "TRANSACTION_CREATED") {
            Some(AuditEventType::TransactionCreated)
        } else if str_eq(s, "TRANSACTION_APPROVED") {
            Some(AuditEventType::TransactionApproved)
        } else if str_eq(s, "TRANSACTION_REJECTED") {
            Some(AuditEventType::TransactionRejected)
        } else {
            None
        }
    }
}

/// Parsing the label of an event type gives the type back.
pub proof fn lemma_audit_label_round_trip(e: AuditEventType)
    ensures
        audit_of_label(audit_label(e)) == Some(e),
{
    reveal_strlit("TRANSACTION_CREATED");
    reveal_strlit("TRANSACTION_APPROVED");
    reveal_strlit("TRANSACTION_REJECTED");
    assert("TRANSACTION_CREATED"@[12] == 'C');
    assert("TRANSACTION_APPROVED"@[12] == 'A');
    assert("TRANSACTION_REJECTED"@[12] == 'R');
}


/// The transaction fields an audit snapshot records.
#[derive(Debug, Clone)]
pub struct TransactionSnapshotSource {
    pub id: String,
    pub transaction_type: String,
    pub category: String,
    pub amount: String,
    pub payment_mode: String,
    pub purpose: String,
    pub remark: Option<String>,
    pub sponsor_purpose: Option<String>,
    pub approval_status: String,
    pub approval_source: String,
    pub entered_by_id: Option<String>,
    pub approved_by_id: Option<String>,
    pub approved_at: Option<String>,
    pub razorpay_payment_id: Option<String>,
    pub razorpay_order_id: Option<String>,
    pub sender_name: Option<String>,
    pub sender_phone: Option<String>,
    pub sender_upi_id: Option<String>,
    pub sender_bank_account: Option<String>,
    pub sender_bank_name: Option<String>,
    pub sponsor_sender_name: Option<String>,
    pub sponsor_sender_contact: Option<String>,
    pub receipt_number: Option<String>,
    pub member_id: Option<String>,
    pub sponsor_id: Option<String>,
    pub created_at: Option<String>,
}

/// The snapshot's entries, in order: each field under its camel-case name,
/// a missing optional field as `None`.
pub open spec fn snapshot_entries(s: TransactionSnapshotSource) -> Seq<(Seq<char>, Option<Seq<char>>)> {
    seq![
        ("id"@, Some(s.id@)),
        ("type"@, Some(s.transaction_type@)),
        ("category"@, Some(s.category@)),
        ("amount"@, Some(s.amount@)),
        ("paymentMode"@, Some(s.payment_mode@)),
        ("purpose"@, Some(s.purpose@)),
        ("remark"@, opt_view(s.remark)),
        ("sponsorPurpose"@, opt_view(s.sponsor_purpose)),
        ("approvalStatus"@, Some(s.approval_status@)),
        ("approvalSource"@, Some(s.approval_source@)),
        ("enteredById"@, opt_view(s.entered_by_id)),
        ("approvedById"@, opt_view(s.approved_by_id)),
        ("approvedAt"@, opt_view(s.approved_at)),
        ("razorpayPaymentId"@, opt_view(s.razorpay_payment_id)),
        ("razorpayOrderId"@, opt_view(s.razorpay_order_id)),
        ("senderName"@, opt_view(s.sender_name)),
        ("senderPhone"@, opt_view(s.sender_phone)),
        ("senderUpiId"@, opt_view(s.sender_upi_id)),
        ("senderBankAccount"@, opt_view(s.sender_bank_account)),
        ("senderBankName"@, opt_view(s.sender_bank_name)),
        ("sponsorSenderName"@, opt_view(s.sponsor_sender_name)),
        ("sponsorSenderContact"@, opt_view(s.sponsor_sender_contact)),
        ("receiptNumber"@, opt_view(s.receipt_number)),
        ("memberId"@, opt_view(s.member_id)),
        ("sponsorId"@, opt_view(s.sponsor_id)),
        ("createdAt"@, opt_view(s.created_at)),
    ]
}

pub open spec fn entry_views(v: Seq<(&'static str, Option<String>)>) -> Seq<(Seq<char>, Option<Seq<char>>)> {
    v.map_values(|e: (&'static str, Option<String>)| (e.0@, opt_view(e.1)))
}

/// The snapshot of a transaction that an audit entry keeps: every field,
/// under the name the web client reads.
pub fn build_transaction_audit_snapshot(source: &TransactionSnapshotSource) -> (r: Vec<(&'static str, Option<String>)>)
    ensures
        entry_views(r@) =~= snapshot_entries(*source),
{
    let mut r: Vec<(&'static str, Option<String>)> = Vec::new();
    r.push(("id", Some(source.id.clone())));
    r.push(("type", Some(source.transaction_type.clone())));
    r.push(("category", Some(source.category.clone())));
    r.push(("amount", Some(source.amount.clone())));
    r.push(("paymentMode", Some(source.payment_mode.clone())));
    r.push(("purpose", Some(source.purpose.clone())));
    r.push(("remark", source.remark.clone()));
    r.push(("sponsorPurpose", source.sponsor_purpose.clone()));
    r.push(("approvalStatus", Some(source.approval_status.clone())));
    r.push(("approvalSource", Some(source.approval_source.clone())));
    r.push(("enteredById", source.entered_by_id.clone()));
    r.push(("approvedById", source.approved_by_id.clone()));
    r.push(("approvedAt", source.approved_at.clone()));
    r.push(("razorpayPaymentId", source.razorpay_payment_id.clone()));
    r.push(("razorpayOrderId", source.razorpay_order_id.clone()));
    r.push(("senderName", source.sender_name.clone()));
    r.push(("senderPhone", source.sender_phone.clone()));
    r.push(("senderUpiId", source.sender_upi_id.clone()));
    r.push(("senderBankAccount", source.sender_bank_account.clone()));
    r.push(("senderBankName", source.sender_bank_name.clone()));
    r.push(("sponsorSenderName", source.sponsor_sender_name.clone()));
    r.push(("sponsorSenderContact", source.sponsor_sender_contact.clone()));
    r.push(("receiptNumber", source.receipt_number.clone()));
    r.push(("memberId", source.member_id.clone()));
    r.push(("sponsorId", source.sponsor_id.clone()));
    r.push(("createdAt", source.created_at.clone()));
    r
}

/// Where an audit entry's snapshot comes from.
#[derive(Debug, Clone, Copy, PartialEq, Eq, Structural)]
pub enum SnapshotSource {
    /// The snapshot stored with the entry.
    Stored,
    /// Built from the entry's transaction.
    Built,
    /// An empty object.
    Empty,
}

/// Resolves an audit entry's snapshot: a stored snapshot that is a JSON
/// object is kept; otherwise it is built from the transaction, if there is
/// one, else empty.
pub fn snapshot_source(stored_is_object: bool, has_transaction: bool) -> (r: SnapshotSource)
    ensures
        stored_is_object ==> r == SnapshotSource::Stored,
        !stored_is_object && has_transaction ==> r == SnapshotSource::Built,
        !stored_is_object && !has_transaction ==> r == SnapshotSource::Empty,
{
    if stored_is_object {
        SnapshotSource::Stored
    } else if has_transaction {
        SnapshotSource::Built
    } else {
        SnapshotSource::Empty
    }
}

} // verus!
