//! Stored records that the library's decisions read and write, and how an
//! edit is applied to them: the fields given replace the stored ones, the
//! others are kept.

use vstd::prelude::*;

verus! {

/// A club member (a primary member, or a family member under one).
#[derive(Debug, Clone)]
pub struct Member {
    pub id: String,
    pub user_id: Option<String>,
    pub name: String,
    pub phone: String,
    pub email: String,
    pub address: String,
    pub parent_member_id: Option<String>,
    pub joined_at: String,
    pub created_at: String,
    pub updated_at: String,
}

/// Member fields to change.
#[derive(Debug, Clone, Default)]
pub struct UpdateMemberData {
    pub name: Option<String>,
    pub phone: Option<String>,
    pub email: Option<String>,
    pub address: Option<String>,
}

pub open spec fn or_keep(given: Option<String>, stored: String) -> String {
    match given {
        Some(v) => v,
        None => stored,
    }
}

/// The member after an edit.
pub fn apply_member_update(existing: &Member, data: &UpdateMemberData) -> (r: Member)
    ensures
        r.name == or_keep(data.name, existing.name),
        r.phone == or_keep(data.phone, existing.phone),
        r.email == or_keep(data.email, existing.email),
        r.address == or_keep(data.address, existing.address),
        r.id == existing.id,
        r.user_id == existing.user_id,
        r.parent_member_id == existing.parent_member_id,
        r.joined_at == existing.joined_at,
        r.created_at == existing.created_at,
        r.updated_at == existing.updated_at,
{
    Member {
        id: existing.id.clone(),
        user_id: existing.user_id.clone(),
        name: match &data.name { Some(v) => v.clone(), None => existing.name.clone() },
        phone: match &data.phone { Some(v) => v.clone(), None => existing.phone.clone() },
        email: match &data.email { Some(v) => v.clone(), None => existing.email.clone() },
        address: match &data.address { Some(v) => v.clone(), None => existing.address.clone() },
        parent_member_id: existing.parent_member_id.clone(),
        joined_at: existing.joined_at.clone(),
        created_at: existing.created_at.clone(),
        updated_at: existing.updated_at.clone(),
    }
}

/// A sponsor: a company or person who supports the club.
#[derive(Debug, Clone)]
pub struct Sponsor {
    pub id: String,
    pub name: String,
    pub phone: String,
    pub email: String,
    pub company: Option<String>,
    pub created_by_id: String,
    pub created_at: String,
}

/// Sponsor fields to change; `company: Some(None)` clears the company.
#[derive(Debug, Clone, Default)]
pub struct UpdateSponsorData {
    pub name: Option<String>,
    pub phone: Option<String>,
    pub email: Option<String>,
    pub company: Option<Option<String>>,
}

/// The sponsor after an edit.
pub fn apply_sponsor_update(existing: &Sponsor, data: &UpdateSponsorData) -> (r: Sponsor)
    ensures
        r.name == or_keep(data.name, existing.name),
        r.phone == or_keep(data.phone, existing.phone),
        r.email == or_keep(data.email, existing.email),
        r.company == match data.company {
            Some(c) => c,
            None => existing.company,
        },
        r.id == existing.id,
        r.created_by_id == existing.created_by_id,
        r.created_at == existing.created_at,
{
    Sponsor {
        id: existing.id.clone(),
        name: match &data.name { Some(v) => v.clone(), None => existing.name.clone() },
        phone: match &data.phone { Some(v) => v.clone(), None => existing.phone.clone() },
        email: match &data.email { Some(v) => v.clone(), None => existing.email.clone() },
        company: match &data.company { Some(c) => c.clone(), None => existing.company.clone() },
        created_by_id: existing.created_by_id.clone(),
        created_at: existing.created_at.clone(),
    }
}

/// A transaction's approval fields to change.
#[derive(Debug, Clone, Default)]
pub struct UpdateTransactionData {
    pub approval_status: Option<String>,
    pub approved_by_id: Option<String>,
    pub approved_at: Option<String>,
    pub receipt_number: Option<String>,
}

/// A transaction's approval fields as stored.
#[derive(Debug, Clone)]
pub struct TransactionApproval {
    pub approval_status: String,
    pub approved_by_id: Option<String>,
    pub approved_at: Option<String>,
    pub receipt_number: Option<String>,
}

pub open spec fn or_keep_opt(given: Option<String>, stored: Option<String>) -> Option<String> {
    match given {
        Some(v) => Some(v),
        None => stored,
    }
}

/// The approval fields after an edit: each given field replaces the stored
/// one (an optional field is never cleared by a missing value).
pub fn apply_transaction_update(existing: &TransactionApproval, data: &UpdateTransactionData) -> (r: TransactionApproval)
    ensures
        r.approval_status == or_keep(data.approval_status, existing.approval_status),
        r.approved_by_id == or_keep_opt(data.approved_by_id, existing.approved_by_id),
        r.approved_at == or_keep_opt(data.approved_at, existing.approved_at),
        r.receipt_number == or_keep_opt(data.receipt_number, existing.receipt_number),
{
    TransactionApproval {
        approval_status: match &data.approval_status { Some(v) => v.clone(), None => existing.approval_status.clone() },
        approved_by_id: match &data.approved_by_id { Some(v) => Some(v.clone()), None => existing.approved_by_id.clone() },
        approved_at: match &data.approved_at { Some(v) => Some(v.clone()), None => existing.approved_at.clone() },
        receipt_number: match &data.receipt_number { Some(v) => Some(v.clone()), None => existing.receipt_number.clone() },
    }
}


/// A family member under a primary member's account.
#[derive(Debug, Clone)]
pub struct SubMember {
    pub id: String,
    pub member_id: String,
    pub parent_user_id: String,
    pub name: String,
    pub email: String,
    pub phone: String,
    pub password: String,
    pub is_temp_password: bool,
    pub relation: String,
    pub can_login: bool,
    pub created_at: String,
}

/// A change waiting for, or decided by, an admin.
#[derive(Debug, Clone)]
pub struct Approval {
    pub id: String,
    pub entity_type: String,
    pub entity_id: String,
    pub action: String,
    pub previous_data: Option<String>,
    pub new_data: Option<String>,
    pub requested_by_id: String,
    pub status: String,
    pub reviewed_by_id: Option<String>,
    pub reviewed_at: Option<String>,
    pub notes: Option<String>,
    pub created_at: String,
}

/// An event in a transaction's life, with the transaction as it then was.
#[derive(Debug, Clone)]
pub struct AuditLog {
    pub id: String,
    pub transaction_id: String,
    pub event_type: String,
    pub transaction_snapshot: String,
    pub performed_by_id: String,
    pub created_at: String,
}

/// Something a user did.
#[derive(Debug, Clone)]
pub struct ActivityLog {
    pub id: String,
    pub user_id: String,
    pub action: String,
    pub description: String,
    pub metadata: Option<String>,
    pub created_at: String,
}

} // verus!
