//! Approval queue decisions: which change an approval applies or discards,
//! how it is logged, and which sub-member slot an approved sub-member takes.

use vstd::prelude::*;
use crate::member_id::{first_free_slot, first_free_sub_member_slot};
use crate::text::string_views;
use crate::membership_service::TransactionMembershipDetails;
use crate::text::{str_eq, to_lower, unicode_lower};

verus! {

broadcast use vstd::string::group_string_axioms;

/// Why an approval cannot be decided.
#[derive(Debug, Clone, PartialEq, Eq)]
pub enum ApprovalServiceError {
    NotFound,
    /// The approval was decided before; carries its status in lower case.
    AlreadyProcessed(String),
    UnknownEntityType(String),
    Internal(String),
    PasswordHash(String),
}

impl ApprovalServiceError {
    /// The error's message.
    pub fn message(&self) -> (r: String)
        ensures
            r@ == match self {
                ApprovalServiceError::NotFound => "Approval not found"@,
                ApprovalServiceError::AlreadyProcessed(s) => "Approval is already "@ + s@,
                ApprovalServiceError::UnknownEntityType(s) => "Unknown entity type: "@ + s@,
                ApprovalServiceError::Internal(s) => s@,
                ApprovalServiceError::PasswordHash(s) => "Password hash error: "@ + s@,
            },
    {
        match self {
            ApprovalServiceError::NotFound => "Approval not found".to_string(),
            ApprovalServiceError::AlreadyProcessed(s) => {
                let mut r = "Approval is already ".to_string();
                r.append(s.as_str());
                r
            },
            ApprovalServiceError::UnknownEntityType(s) => {
                let mut r = "Unknown entity type: ".to_string();
                r.append(s.as_str());
                r
            },
            ApprovalServiceError::Internal(s) => s.clone(),
            ApprovalServiceError::PasswordHash(s) => {
                let mut r = "Password hash error: ".to_string();
                r.append(s.as_str());
                r
            },
        }
    }
}

/// The admin deciding an approval.
#[derive(Debug, Clone)]
pub struct ReviewedBy {
    pub id: String,
    pub name: String,
}

/// Only a pending approval can be decided; otherwise the error carries its
/// status in lower case.
pub fn check_approval_pending(status: &str) -> (r: Result<(), ApprovalServiceError>)
    ensures
        status@ == "PENDING"@ ==> r is Ok,
        status@ != "PENDING"@ ==> (r matches Err(ApprovalServiceError::AlreadyProcessed(s)) && s@ == unicode_lower(status@)),
{
    if str_eq(status, "PENDING") {
        Ok(())
    } else {
        Err(ApprovalServiceError::AlreadyProcessed(to_lower(status)))
    }
}

/// The change approving an entry applies, by entity type and action.
#[derive(Debug, Clone, Copy, PartialEq, Eq, Structural)]
pub enum ApproveStep {
    /// Create the member's user account (`add_sub_member`: a sub-member).
    AddMember { sub_member: bool },
    /// Apply the new fields (`edit_sub_member`: to a sub-member).
    EditMember { sub_member: bool },
    /// Suspend the member's user (`remove_sub_member`: delete the sub-member).
    DeleteMember { sub_member: bool },
    /// Approve the transaction and apply its membership components.
    ApproveTransaction,
    /// Approve the membership and update the member's user.
    ApproveMembership,
}

pub open spec fn approve_step_spec(entity_type: Seq<char>, action: Seq<char>) -> Option<ApproveStep> {
    if entity_type == "MEMBER_ADD"@ {
        Some(ApproveStep::AddMember { sub_member: action == "add_sub_member"@ })
    } else if entity_type == "MEMBER_EDIT"@ {
        Some(ApproveStep::EditMember { sub_member: action == "edit_sub_member"@ })
    } else if entity_type == "MEMBER_DELETE"@ {
        Some(ApproveStep::DeleteMember { sub_member: action == "remove_sub_member"@ })
    } else if entity_type == "TRANSACTION"@ {
        Some(ApproveStep::ApproveTransaction)
    } else if entity_type == "MEMBERSHIP"@ {
        Some(ApproveStep::ApproveMembership)
    } else {
        None
    }
}

/// What approving a pending entry does; an unknown entity type is refused.
pub fn approve_step(entity_type: &str, action: &str) -> (r: Result<ApproveStep, ApprovalServiceError>)
    ensures
        match approve_step_spec(entity_type@, action@) {
            Some(s) => r == Ok::<ApproveStep, ApprovalServiceError>(s),
            None => r matches Err(ApprovalServiceError::UnknownEntityType(t)) && t@ == entity_type@,
        },
{
    if str_eq(entity_type, "MEMBER_ADD") {
        Ok(ApproveStep::AddMember { sub_member: str_eq(action, "add_sub_member") })
    } else if str_eq(entity_type, "MEMBER_EDIT") {
        Ok(ApproveStep::EditMember { sub_member: str_eq(action, "edit_sub_member") })
    } else if str_eq(entity_type, "MEMBER_DELETE") {
        Ok(ApproveStep::DeleteMember { sub_member: str_eq(action, "remove_sub_member") })
    } else if str_eq(entity_type, "TRANSACTION") {
        Ok(ApproveStep::ApproveTransaction)
    } else if str_eq(entity_type, "MEMBERSHIP") {
        Ok(ApproveStep::ApproveMembership)
    } else {
        Err(ApprovalServiceError::UnknownEntityType(entity_type.to_string()))
    }
}

/// The change rejecting an entry makes.
#[derive(Debug, Clone, Copy, PartialEq, Eq, Structural)]
pub enum RejectStep {
    /// Cancel the transaction's active receipts and reject it.
    RejectTransaction,
    /// Reject the membership.
    RejectMembership,
    /// Delete the placeholder member (while no user is linked to it).
    DeletePlaceholderMember,
    /// Nothing to undo: the proposed change is dropped.
    Discard,
}

pub open spec fn reject_step_spec(entity_type: Seq<char>, action: Seq<char>) -> RejectStep {
    if entity_type == "TRANSACTION"@ {
        RejectStep::RejectTransaction
    } else if entity_type == "MEMBERSHIP"@ {
        RejectStep::RejectMembership
    } else if entity_type == "MEMBER_ADD"@ && action == "add_member"@ {
        RejectStep::DeletePlaceholderMember
    } else {
        RejectStep::Discard
    }
}

pub fn reject_step(entity_type: &str, action: &str) -> (r: RejectStep)
    ensures
        r == reject_step_spec(entity_type@, action@),
{
    if str_eq(entity_type, "TRANSACTION") {
        RejectStep::RejectTransaction
    } else if str_eq(entity_type, "MEMBERSHIP") {
        RejectStep::RejectMembership
    } else if str_eq(entity_type, "MEMBER_ADD") && str_eq(action, "add_member") {
        RejectStep::DeletePlaceholderMember
    } else {
        RejectStep::Discard
    }
}

/// Rejecting undoes what approving would apply: an entry that approving
/// applies as a membership approval is rejected as that membership, one that
/// approving applies as a transaction approval is rejected as that
/// transaction, whatever the entry's action.
pub proof fn lemma_reject_mirrors_approve(entity_type: Seq<char>, action: Seq<char>)
    ensures
        approve_step_spec(entity_type, action) == Some(ApproveStep::ApproveMembership)
            <==> reject_step_spec(entity_type, action) == RejectStep::RejectMembership,
        approve_step_spec(entity_type, action) == Some(ApproveStep::ApproveTransaction)
            <==> reject_step_spec(entity_type, action) == RejectStep::RejectTransaction,
{
    reveal_strlit("MEMBER_ADD");
    reveal_strlit("MEMBER_EDIT");
    reveal_strlit("MEMBER_DELETE");
    reveal_strlit("TRANSACTION");
    reveal_strlit("MEMBERSHIP");
    assert("MEMBERSHIP"@.len() == 10 && "MEMBER_ADD"@.len() == 10 && "MEMBERSHIP"@[6] != "MEMBER_ADD"@[6]);
    assert("TRANSACTION"@[0] != "MEMBER_ADD"@[0] && "TRANSACTION"@[0] != "MEMBER_EDIT"@[0]
        && "TRANSACTION"@[0] != "MEMBER_DELETE"@[0]);
}

/// A pending membership is rejected as a membership and a pending
/// transaction as a transaction, whatever action the entry names.
pub proof fn lemma_reject_by_entity(action: Seq<char>)
    ensures
        reject_step_spec("MEMBERSHIP"@, action) == RejectStep::RejectMembership,
        reject_step_spec("TRANSACTION"@, action) == RejectStep::RejectTransaction,
{
    reveal_strlit("TRANSACTION");
    reveal_strlit("MEMBERSHIP");
    assert("MEMBERSHIP"@.len() != "TRANSACTION"@.len());
}

/// The activity-log action of a decided approval: a name for the kind of
/// change, `_`, and the outcome.
pub open spec fn activity_action_name(entity_type: Seq<char>, action: Seq<char>) -> Seq<char> {
    if entity_type == "TRANSACTION"@ {
        "transaction"@
    } else if entity_type == "MEMBERSHIP"@ {
        "membership"@
    } else if entity_type == "MEMBER_ADD"@ {
        if action == "add_sub_member"@ { "sub_member_add"@ } else { "member_add"@ }
    } else if entity_type == "MEMBER_EDIT"@ {
        if action == "edit_sub_member"@ { "sub_member_edit"@ } else { "member_edit"@ }
    } else if entity_type == "MEMBER_DELETE"@ {
        if action == "remove_sub_member"@ { "sub_member_remove"@ } else { "member_delete"@ }
    } else {
        "approval"@
    }
}

pub fn get_approval_activity_action(entity_type: &str, action: &str, outcome: &str) -> (r: String)
    ensures
        r@ == activity_action_name(entity_type@, action@) + "_"@ + outcome@,
{
    let name = if str_eq(entity_type, "TRANSACTION") {
        "transaction"
    } else if str_eq(entity_type, "MEMBERSHIP") {
        "membership"
    } else if str_eq(entity_type, "MEMBER_ADD") {
        if str_eq(action, "add_sub_member") { "sub_member_add" } else { "member_add" }
    } else if str_eq(entity_type, "MEMBER_EDIT") {
        if str_eq(action, "edit_sub_member") { "sub_member_edit" } else { "member_edit" }
    } else if str_eq(entity_type, "MEMBER_DELETE") {
        if str_eq(action, "remove_sub_member") { "sub_member_remove" } else { "member_delete" }
    } else {
        "approval"
    };
    let mut r = name.to_string();
    r.append("_");
    r.append(outcome);
    r
}

/// The activity-log description of a decided approval.
pub open spec fn approval_description_spec(
    outcome: Seq<char>,
    admin: Seq<char>,
    entity_type: Seq<char>,
    entity_id: Seq<char>,
    action: Seq<char>,
) -> Seq<char> {
    let subject = if entity_type == "TRANSACTION"@ {
        " transaction "@ + entity_id
    } else {
        " "@ + entity_type + " request"@
    };
    "Admin "@ + admin + " "@ + outcome + subject + " ("@ + action + ")"@
}

pub fn approval_description(outcome: &str, admin_name: &str, entity_type: &str, entity_id: &str, action: &str) -> (r: String)
    ensures
        r@ == approval_description_spec(outcome@, admin_name@, entity_type@, entity_id@, action@),
{
    let mut r = "Admin ".to_string();
    r.append(admin_name);
    r.append(" ");
    r.append(outcome);
    if str_eq(entity_type, "TRANSACTION") {
        r.append(" transaction ");
        r.append(entity_id);
    } else {
        r.append(" ");
        r.append(entity_type);
        r.append(" request");
    }
    r.append(" (");
    r.append(action);
    r.append(")");
    assert(r@ =~= approval_description_spec(outcome@, admin_name@, entity_type@, entity_id@, action@));
    r
}

/// The membership components of an approved transaction: the flags stored
/// on it, and the type and fee type named in the approval's data (the type
/// only when it includes a subscription).
pub fn transaction_membership_details(
    includes_subscription: bool,
    includes_annual_fee: bool,
    includes_application_fee: bool,
    membership_type: Option<String>,
    fee_type: Option<String>,
) -> (r: TransactionMembershipDetails)
    ensures
        r.membership_type == (if includes_subscription { membership_type } else { None }),
        r.fee_type == fee_type,
        r.is_application_fee == includes_application_fee,
        r.includes_application_fee == includes_application_fee,
        r.includes_subscription == includes_subscription,
        r.includes_annual_fee == includes_annual_fee,
{
    TransactionMembershipDetails {
        membership_type: if includes_subscription { membership_type } else { None },
        fee_type,
        is_application_fee: includes_application_fee,
        includes_subscription,
        includes_annual_fee,
        includes_application_fee,
    }
}

/// The first of slots 1 to 3 that no existing sub-member ID claims; an
/// approved sub-member cannot be added when all three are taken.
pub fn next_sub_member_slot(existing_ids: &Vec<String>) -> (r: Result<u32, ApprovalServiceError>)
    ensures
        match first_free_slot(string_views(existing_ids@)) {
            Some(i) => r == Ok::<u32, ApprovalServiceError>(i),
            None => r matches Err(ApprovalServiceError::Internal(m)) && m@ == "Maximum of 3 sub-members already reached"@,
        },
{
    match first_free_sub_member_slot(existing_ids) {
        Some(i) => Ok(i),
        None => Err(ApprovalServiceError::Internal("Maximum of 3 sub-members already reached".to_string())),
    }
}

} // verus!
