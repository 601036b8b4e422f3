//! Initial staff accounts: which configured entries become accounts, and
//! what each new account holds.
//!
//! Accounts that already exist (by e-mail) are skipped, so bootstrapping can
//! be run again safely; every new account has a temporary password that must
//! be changed at first login.

use vstd::prelude::*;
use crate::text::{boundary, byte_len, byte_range, byte_slice, str_eq, to_lower, to_upper, trim_string,
    trimmed, unicode_lower, unicode_upper};

verus! {

broadcast use vstd::string::group_string_axioms;

/// The roles an account can be bootstrapped with.
pub open spec fn bootstrap_role_ok(role: Seq<char>) -> bool {
    role == "ADMIN"@ || role == "OPERATOR"@ || role == "ORGANISER"@ || role == "MEMBER"@
}

/// The account to create for a configured entry.
#[derive(Debug, Clone)]
pub struct BootstrapUser {
    pub user_id: String,
    /// Placeholder member ID until the profile is completed.
    pub member_id: String,
    pub name: String,
    pub email: String,
    pub phone: String,
    pub role: String,
    pub is_temp_password: bool,
    pub membership_status: String,
}

/// What to do with one configured entry.
#[derive(Debug, Clone)]
pub enum BootstrapStep {
    /// The role is not one of ADMIN, OPERATOR, ORGANISER, MEMBER.
    InvalidRole,
    /// An account with this e-mail already exists.
    Skip,
    /// Create this account.
    Create(BootstrapUser),
}

/// The e-mail an account is looked up and stored by: trimmed, lower-cased.
pub open spec fn bootstrap_email_spec(email: Seq<char>) -> Seq<char> {
    unicode_lower(trimmed(email))
}

/// The placeholder member ID of a new account: `PENDING-` and the first eight
/// bytes of its user ID, upper-cased.
pub open spec fn placeholder_member_id_spec(user_id: Seq<char>) -> Seq<char> {
    "PENDING-"@ + unicode_upper(byte_slice(user_id, 0, 8))
}

/// The e-mail under which an entry's account is looked up.
pub fn bootstrap_email(email: &str) -> (r: String)
    ensures
        r@ == bootstrap_email_spec(email@),
{
    let t = trim_string(&email.to_string());
    to_lower(t.as_str())
}

/// Decides a configured entry: an unknown role is refused, an existing
/// account (`already_exists`, found by `bootstrap_email`) is skipped, and
/// otherwise the account `user_id` is created with a temporary password,
/// awaiting payment.
pub fn plan_bootstrap_entry(role: &str, email: &str, name: &str, phone: &str, already_exists: bool, user_id: &str)
    -> (r: BootstrapStep)
    requires
        byte_len(user_id@) >= 8,
        boundary(user_id@, 8),
    ensures
        !bootstrap_role_ok(unicode_upper(role@)) ==> r is InvalidRole,
        bootstrap_role_ok(unicode_upper(role@)) && already_exists ==> r is Skip,
        bootstrap_role_ok(unicode_upper(role@)) && !already_exists ==> (r matches BootstrapStep::Create(u) && {
            &&& u.user_id@ == user_id@
            &&& u.role@ == unicode_upper(role@)
            &&& u.email@ == bootstrap_email_spec(email@)
            &&& u.name@ == trimmed(name@)
            &&& u.phone@ == trimmed(phone@)
            &&& u.is_temp_password
            &&& u.membership_status@ == "PENDING_PAYMENT"@
            &&& u.member_id@ == placeholder_member_id_spec(user_id@)
        }),
{
    let upper = to_upper(role);
    let ok = str_eq(upper.as_str(), "ADMIN") || str_eq(upper.as_str(), "OPERATOR")
        || str_eq(upper.as_str(), "ORGANISER") || str_eq(upper.as_str(), "MEMBER");
    if !ok {
        return BootstrapStep::InvalidRole;
    }
    if already_exists {
        return BootstrapStep::Skip;
    }
    proof {
        vstd::utf8::encode_utf8_valid_utf8(user_id@);
        vstd::utf8::is_char_boundary_start_end_of_seq(vstd::utf8::encode_utf8(user_id@));
    }
    let head = byte_range(user_id, 0, 8);
    let mut member_id = "PENDING-".to_string();
    let up = to_upper(head);
    member_id.append(up.as_str());
    proof {
        reveal_strlit("PENDING-");
    }
    BootstrapStep::Create(BootstrapUser {
        user_id: user_id.to_string(),
        member_id,
        name: trim_string(&name.to_string()),
        email: bootstrap_email(email),
        phone: trim_string(&phone.to_string()),
        role: upper,
        is_temp_password: true,
        membership_status: "PENDING_PAYMENT".to_string(),
    })
}

} // verus!
