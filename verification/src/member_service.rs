//! Member decisions: the checks a new member passes, the sub-member limit
//! and slots, and the updates an edit writes.
//!
//! An `OPERATOR`'s change is queued for an admin's approval; an `ADMIN`'s is
//! applied at once.

use vstd::prelude::*;
use crate::member_id::{first_free_slot, first_free_sub_member_slot, generate_sub_member_id};
use crate::text::string_views;
use crate::sql::{conditions_view, update_statement, update_text, bound_values, Condition, UpdateStatement};
use crate::text::{boundary, byte_len, byte_slice, decimal, str_eq, to_lower, trim_string, trimmed, unicode_lower, zero_padded};
use crate::validation::{email_ok, phone_ok, required_message, too_long_message, validate_email, validate_name, validate_phone, validate_required_string};

verus! {

broadcast use vstd::string::group_string_axioms;

/// Why a member operation is refused.
#[derive(Debug, Clone, PartialEq, Eq)]
pub enum MemberServiceError {
    NotFound,
    ParentNotFound,
    ParentNoUser,
    MaxSubMembers,
    Validation(String),
    PasswordHash(String),
}

impl MemberServiceError {
    /// The error's message.
    pub fn message(&self) -> (r: String)
        ensures
            r@ == match self {
                MemberServiceError::NotFound => "Member not found"@,
                MemberServiceError::ParentNotFound => "Parent member not found"@,
                MemberServiceError::ParentNoUser => "Parent member has no linked user account"@,
                MemberServiceError::MaxSubMembers => "Maximum of 3 sub-members allowed per primary member"@,
                MemberServiceError::Validation(s) => s@,
                MemberServiceError::PasswordHash(s) => "Password hashing error: "@ + s@,
            },
    {
        match self {
            MemberServiceError::NotFound => "Member not found".to_string(),
            MemberServiceError::ParentNotFound => "Parent member not found".to_string(),
            MemberServiceError::ParentNoUser => "Parent member has no linked user account".to_string(),
            MemberServiceError::MaxSubMembers => "Maximum of 3 sub-members allowed per primary member".to_string(),
            MemberServiceError::Validation(s) => s.clone(),
            MemberServiceError::PasswordHash(s) => {
                let mut r = "Password hashing error: ".to_string();
                r.append(s.as_str());
                r
            },
        }
    }
}

/// Caller identity for permission-gated operations.
#[derive(Debug, Clone)]
pub struct RequestedBy {
    pub id: String,
    pub role: String,
    pub name: String,
}

/// Result of a change that may wait for approval.
#[derive(Debug, Clone)]
pub struct MutationResult {
    /// `direct` when applied at once, `pending_approval` when queued.
    pub action: String,
    pub member_id: Option<String>,
    pub approval_id: Option<String>,
}

/// A sub-member to add.
#[derive(Debug, Clone)]
pub struct AddSubMemberInput {
    pub name: String,
    pub email: String,
    pub phone: String,
    pub relation: String,
}

/// A sub-member added directly.
#[derive(Debug, Clone)]
pub struct AddSubMemberResult {
    /// Row id of the new sub-member.
    pub sub_member_id: String,
    /// Its `BRAND-YYYY-NNNN-SS` member ID.
    pub member_id: String,
}

/// Fields of a sub-member to change.
#[derive(Debug, Clone, Default)]
pub struct UpdateSubMemberInput {
    pub name: Option<String>,
    pub phone: Option<String>,
    pub relation: Option<String>,
    pub can_login: Option<bool>,
}

/// Whether a change by `role` waits for approval: only an operator's does.
pub fn needs_approval(role: &str) -> (b: bool)
    ensures
        b == (role@ == "OPERATOR"@),
{
    str_eq(role, "OPERATOR")
}

/// The `action` of a change's result.
pub fn mutation_action(pending: bool) -> (r: String)
    ensures
        r@ == if pending { "pending_approval"@ } else { "direct"@ },
{
    if pending { "pending_approval".to_string() } else { "direct".to_string() }
}

/// An email as stored: lower case, without surrounding white space.
pub fn normalize_email(email: &str) -> (r: String)
    ensures
        r@ == trimmed(unicode_lower(email@)),
{
    let lower = to_lower(email);
    trim_string(&lower)
}

/// The first check a new member's fields fail, as its message.
pub open spec fn new_member_error(name: Seq<char>, phone: Seq<char>, email: Seq<char>, address: Seq<char>) -> Option<Seq<char>> {
    if name.len() == 0 {
        Some("Name is required"@)
    } else if byte_len(name) > 255 {
        Some("Name must be 255 characters or less"@)
    } else if !phone_ok(phone) {
        Some("Phone must be in +91XXXXXXXXXX format"@)
    } else if !email_ok(email) {
        Some("Must be a valid email address"@)
    } else if address.len() == 0 {
        Some(required_message("address"@))
    } else if byte_len(address) > 500 {
        Some(too_long_message("address"@, 500))
    } else {
        None
    }
}

/// Checks a new member's name, phone, email and address (at most 500
/// bytes); gives the email to store.
pub fn validate_new_member(name: &str, phone: &str, email: &str, address: &str) -> (r: Result<String, MemberServiceError>)
    ensures
        match new_member_error(name@, phone@, email@, address@) {
            Some(m) => r matches Err(MemberServiceError::Validation(e)) && e@ == m,
            None => r matches Ok(e) && e@ == trimmed(unicode_lower(email@)),
        },
{
    match validate_name(name) {
        Err(e) => return Err(MemberServiceError::Validation(e)),
        Ok(()) => {},
    }
    match validate_phone(phone) {
        Err(e) => return Err(MemberServiceError::Validation(e)),
        Ok(()) => {},
    }
    match validate_email(email) {
        Err(e) => return Err(MemberServiceError::Validation(e)),
        Ok(()) => {},
    }
    match validate_required_string(address, "address", 500) {
        Err(e) => return Err(MemberServiceError::Validation(e)),
        Ok(()) => {},
    }
    Ok(normalize_email(email))
}

/// A primary member has at most three sub-members.
pub fn check_sub_member_capacity(current_count: i64) -> (r: Result<(), MemberServiceError>)
    ensures
        r == if current_count >= 3 {
            Err::<(), MemberServiceError>(MemberServiceError::MaxSubMembers)
        } else {
            Ok::<(), MemberServiceError>(())
        },
{
    if current_count >= 3 { Err(MemberServiceError::MaxSubMembers) } else { Ok(()) }
}

/// The slot a directly added sub-member takes: the first of 1 to 3 that no
/// existing sub-member ID claims.
pub fn free_sub_member_slot(existing_ids: &Vec<String>) -> (r: Result<u32, MemberServiceError>)
    ensures
        r == match first_free_slot(string_views(existing_ids@)) {
            Some(i) => Ok::<u32, MemberServiceError>(i),
            None => Err::<u32, MemberServiceError>(MemberServiceError::MaxSubMembers),
        },
{
    match first_free_sub_member_slot(existing_ids) {
        Some(i) => Ok(i),
        None => Err(MemberServiceError::MaxSubMembers),
    }
}

/// The member ID of the sub-member in `slot` (1 to 3) of a parent.
pub fn sub_member_id_for(parent_member_id: &str, slot: u32) -> (r: Result<String, MemberServiceError>)
    requires
        1 <= slot <= 3,
        byte_len(parent_member_id@) >= 2 ==> boundary(parent_member_id@, byte_len(parent_member_id@) - 2),
    ensures
        byte_len(parent_member_id@) < 2 ==> (r matches Err(MemberServiceError::Validation(e))
            && e@ == "Parent member ID is too short"@),
        byte_len(parent_member_id@) >= 2 ==> (r matches Ok(s)
            && s@ == byte_slice(parent_member_id@, 0, byte_len(parent_member_id@) - 2) + zero_padded(slot as nat, 2)),
{
    match generate_sub_member_id(parent_member_id, slot) {
        Ok(s) => Ok(s),
        Err(e) => Err(MemberServiceError::Validation(e)),
    }
}

// ---------------------------------------------------------------------------
// Updates
// ---------------------------------------------------------------------------

pub open spec fn set_of(text: Seq<char>, value: Option<String>) -> Seq<(Seq<char>, Option<Seq<char>>)> {
    match value {
        Some(v) => seq![(text, Some(v@))],
        None => Seq::empty(),
    }
}

fn push_set(sets: &mut Vec<Condition>, text: &'static str, value: Option<String>)
    ensures
        conditions_view(final(sets)@) == conditions_view(old(sets)@) + set_of(text@, value),
{
    let ghost before = conditions_view(sets@);
    let ghost vv = value;
    match value {
        Some(v) => {
            sets.push(Condition { text, value: Some(v) });
        },
        None => {},
    }
    assert(conditions_view(sets@) =~= before + set_of(text@, vv));
}

/// The assignments of a profile edit: name, email, phone, address, each
/// when given.
pub open spec fn profile_sets(name: Option<String>, email: Option<String>, phone: Option<String>, address: Option<String>)
    -> Seq<(Seq<char>, Option<Seq<char>>)>
{
    set_of("name = $"@, name) + set_of("email = $"@, email) + set_of("phone = $"@, phone) + set_of("address = $"@, address)
}

/// The update mirroring a member's edited profile to the linked user (the
/// email already normalised), or `None` when nothing changes.
pub fn user_profile_update(name: Option<String>, email: Option<String>, phone: Option<String>, address: Option<String>)
    -> (r: Option<UpdateStatement>)
    ensures
        profile_sets(name, email, phone, address).len() == 0 ==> r is None,
        profile_sets(name, email, phone, address).len() > 0 ==> (r matches Some(u)
            && u.sql@ == update_text("users"@, profile_sets(name, email, phone, address), true)
            && crate::text::string_views(u.binds@) == bound_values(profile_sets(name, email, phone, address))),
{
    let ghost sets_view = profile_sets(name, email, phone, address);
    let mut sets: Vec<Condition> = Vec::new();
    push_set(&mut sets, "name = $", name);
    push_set(&mut sets, "email = $", email);
    push_set(&mut sets, "phone = $", phone);
    push_set(&mut sets, "address = $", address);
    assert(conditions_view(sets@) =~= sets_view);
    assert(conditions_view(sets@).len() == sets@.len());
    update_statement("users", &sets, true)
}

pub open spec fn login_text(b: bool) -> Seq<char> {
    if b { "1"@ } else { "0"@ }
}

/// The assignments of a sub-member edit: name, email, phone, relation and
/// whether it may log in (`1` or `0`), each when given.
pub open spec fn sub_member_sets(name: Option<String>, email: Option<String>, phone: Option<String>,
    relation: Option<String>, can_login: Option<bool>) -> Seq<(Seq<char>, Option<Seq<char>>)>
{
    set_of("name = $"@, name) + set_of("email = $"@, email) + set_of("phone = $"@, phone)
        + set_of("relation = $"@, relation)
        + match can_login {
            Some(b) => seq![("can_login = $"@, Some(login_text(b)))],
            None => Seq::empty(),
        }
}

/// The update of an approved sub-member edit, or `None` when nothing
/// changes.
pub fn sub_member_update(name: Option<String>, email: Option<String>, phone: Option<String>,
    relation: Option<String>, can_login: Option<bool>) -> (r: Option<UpdateStatement>)
    ensures
        sub_member_sets(name, email, phone, relation, can_login).len() == 0 ==> r is None,
        sub_member_sets(name, email, phone, relation, can_login).len() > 0 ==> (r matches Some(u)
            && u.sql@ == update_text("sub_members"@, sub_member_sets(name, email, phone, relation, can_login), false)
            && crate::text::string_views(u.binds@) == bound_values(sub_member_sets(name, email, phone, relation, can_login))),
{
    let ghost sets_view = sub_member_sets(name, email, phone, relation, can_login);
    let mut sets: Vec<Condition> = Vec::new();
    push_set(&mut sets, "name = $", name);
    push_set(&mut sets, "email = $", email);
    push_set(&mut sets, "phone = $", phone);
    push_set(&mut sets, "relation = $", relation);
    let ghost before = conditions_view(sets@);
    match can_login {
        Some(b) => {
            sets.push(Condition { text: "can_login = $", value: Some(if b { "1".to_string() } else { "0".to_string() }) });
        },
        None => {},
    }
    assert(conditions_view(sets@) =~= sets_view);
    assert(conditions_view(sets@).len() == sets@.len());
    update_statement("sub_members", &sets, false)
}

} // verus!
