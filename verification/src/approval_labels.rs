//! Approval types and money directions shown with approvals.

use vstd::prelude::*;
use crate::text::str_eq;

verus! {

broadcast use vstd::string::group_string_axioms;

pub const MEMBERSHIP_APPROVAL: &'static str = "MEMBERSHIP_APPROVAL";
pub const MEMBERSHIP_PAYMENT_APPROVAL: &'static str = "MEMBERSHIP_PAYMENT_APPROVAL";
pub const TRANSACTION_APPROVAL: &'static str = "TRANSACTION_APPROVAL";
pub const INCOMING: &'static str = "INCOMING";
pub const OUTGOING: &'static str = "OUTGOING";

pub open spec fn known_approval_type(v: Seq<char>) -> bool {
    v == "MEMBERSHIP_APPROVAL"@ || v == "MEMBERSHIP_PAYMENT_APPROVAL"@ || v == "TRANSACTION_APPROVAL"@
}

/// Whether `value` is one of the three approval types.
pub fn is_known_approval_type(value: &str) -> (b: bool)
    ensures
        b == known_approval_type(value@),
{
    str_eq(value, MEMBERSHIP_APPROVAL) || str_eq(value, MEMBERSHIP_PAYMENT_APPROVAL)
        || str_eq(value, TRANSACTION_APPROVAL)
}

/// Human-readable approval type; `Membership` unless it is a transaction approval.
pub fn approval_type_label(value: &str) -> (r: &'static str)
    ensures
        r@ == (if value@ == "TRANSACTION_APPROVAL"@ { "Transaction"@ } else { "Membership"@ }),
{
    proof {
        reveal_strlit("MEMBERSHIP_PAYMENT_APPROVAL");
        reveal_strlit("TRANSACTION_APPROVAL");
        assert("MEMBERSHIP_PAYMENT_APPROVAL"@.len() != "TRANSACTION_APPROVAL"@.len());
    }
    if str_eq(value, MEMBERSHIP_PAYMENT_APPROVAL) {
        "Membership"
    } else if str_eq(value, TRANSACTION_APPROVAL) {
        "Transaction"
    } else {
        "Membership"
    }
}

pub open spec fn approval_type_of(entity_type: Seq<char>, category: Option<Seq<char>>) -> Seq<char> {
    if entity_type == "TRANSACTION"@ {
        if category == Some("MEMBERSHIP"@) { "MEMBERSHIP_PAYMENT_APPROVAL"@ } else { "TRANSACTION_APPROVAL"@ }
    } else {
        "MEMBERSHIP_APPROVAL"@
    }
}

/// The approval type of an approval entry: transactions are membership
/// payments when their category is `MEMBERSHIP`; every other entity is a
/// membership approval.
pub fn approval_type_from_entity(entity_type: &str, transaction_category: Option<&str>) -> (r: &'static str)
    ensures
        r@ == approval_type_of(entity_type@, match transaction_category { Some(c) => Some(c@), None => None }),
{
    if str_eq(entity_type, "TRANSACTION") {
        let is_membership = match transaction_category {
            Some(c) => str_eq(c, "MEMBERSHIP"),
            None => false,
        };
        if is_membership { MEMBERSHIP_PAYMENT_APPROVAL } else { TRANSACTION_APPROVAL }
    } else {
        MEMBERSHIP_APPROVAL
    }
}

pub open spec fn direction_of(transaction_type: Option<Seq<char>>) -> Option<Seq<char>> {
    match transaction_type {
        Some(t) => if t == "CASH_IN"@ { Some("INCOMING"@) } else if t == "CASH_OUT"@ { Some("OUTGOING"@) } else { None },
        None => None,
    }
}

/// `INCOMING` for money in, `OUTGOING` for money out.
pub fn direction_from_transaction_type(transaction_type: Option<&str>) -> (r: Option<&'static str>)
    ensures
        match (r, direction_of(match transaction_type { Some(t) => Some(t@), None => None })) {
            (Some(a), Some(b)) => a@ == b,
            (None, None) => true,
            _ => false,
        },
{
    match transaction_type {
        Some(t) => if str_eq(t, "CASH_IN") { Some(INCOMING) } else if str_eq(t, "CASH_OUT") { Some(OUTGOING) } else { None },
        None => None,
    }
}

/// The approval type recorded in an activity's metadata, when it is a known one.
pub fn approval_type_from_metadata(field: Option<&str>) -> (r: Option<&str>)
    ensures
        match field {
            Some(v) => if known_approval_type(v@) { r == Some(v) } else { r is None },
            None => r is None,
        },
{
    match field {
        Some(v) => if is_known_approval_type(v) { Some(v) } else { None },
        None => None,
    }
}

/// The direction recorded in an activity's metadata, when it is a known one.
pub fn direction_from_metadata(field: Option<&str>) -> (r: Option<&'static str>)
    ensures
        match field {
            Some(v) => if v@ == "INCOMING"@ {
                r matches Some(x) && x@ == "INCOMING"@
            } else if v@ == "OUTGOING"@ {
                r matches Some(x) && x@ == "OUTGOING"@
            } else {
                r is None
            },
            None => r is None,
        },
{
    match field {
        Some(v) => if str_eq(v, INCOMING) { Some(INCOMING) } else if str_eq(v, OUTGOING) { Some(OUTGOING) } else { None },
        None => None,
    }
}

} // verus!
