//! Filters of the repositories' list queries and the statements they run.

use vstd::prelude::*;
use crate::sql::{conditions_view, offset_of, paged_query, Condition, PagedQuery};
use crate::text::str_eq;
use crate::approval_labels::{MEMBERSHIP_APPROVAL, MEMBERSHIP_PAYMENT_APPROVAL, TRANSACTION_APPROVAL};

verus! {

broadcast use vstd::string::group_string_axioms;

pub type ConditionsView = Seq<(Seq<char>, Option<Seq<char>>)>;

/// A condition binding `value`, when there is one.
pub open spec fn opt_cond(text: Seq<char>, value: Option<String>) -> ConditionsView {
    match value {
        Some(v) => seq![(text, Some(v@))],
        None => Seq::empty(),
    }
}

/// A condition binding `value` followed by `suffix`, when there is a value.
pub open spec fn opt_cond_suffixed(text: Seq<char>, value: Option<String>, suffix: Seq<char>) -> ConditionsView {
    match value {
        Some(v) => seq![(text, Some(v@ + suffix))],
        None => Seq::empty(),
    }
}

fn push_cond(conds: &mut Vec<Condition>, text: &'static str, value: &Option<String>)
    ensures
        conditions_view(final(conds)@) == conditions_view(old(conds)@) + opt_cond(text@, *value),
{
    let ghost before = conditions_view(conds@);
    match value {
        Some(v) => {
            conds.push(Condition { text, value: Some(v.clone()) });
            assert(conditions_view(conds@) =~= before + opt_cond(text@, *value));
        },
        None => {
            assert(conditions_view(conds@) =~= before + opt_cond(text@, *value));
        },
    }
}

fn push_cond_suffixed(conds: &mut Vec<Condition>, text: &'static str, value: &Option<String>, suffix: &str)
    ensures
        conditions_view(final(conds)@) == conditions_view(old(conds)@) + opt_cond_suffixed(text@, *value, suffix@),
{
    let ghost before = conditions_view(conds@);
    match value {
        Some(v) => {
            let mut t = v.clone();
            t.append(suffix);
            conds.push(Condition { text, value: Some(t) });
            assert(conditions_view(conds@) =~= before + opt_cond_suffixed(text@, *value, suffix@));
        },
        None => {
            assert(conditions_view(conds@) =~= before + opt_cond_suffixed(text@, *value, suffix@));
        },
    }
}

fn push_fixed(conds: &mut Vec<Condition>, text: &'static str)
    ensures
        conditions_view(final(conds)@) == conditions_view(old(conds)@) + seq![(text@, None::<Seq<char>>)],
{
    let ghost before = conditions_view(conds@);
    conds.push(Condition { text, value: None });
    assert(conditions_view(conds@) =~= before + seq![(text@, None::<Seq<char>>)]);
}

// ---------------------------------------------------------------------------
// Transactions
// ---------------------------------------------------------------------------

/// The columns read from `transactions` (the amount cast to a real).
pub const TX_COLS: &'static str = "id, \"type\", category, CAST(amount AS REAL) as amount, payment_mode, purpose, remark, sponsor_purpose, member_id, sponsor_id, entered_by_id, approval_status, approval_source, approved_by_id, approved_at, razorpay_payment_id, razorpay_order_id, sender_name, sender_phone, sender_upi_id, sender_bank_account, sender_bank_name, sponsor_sender_name, sponsor_sender_contact, receipt_number, includes_subscription, includes_annual_fee, includes_application_fee, created_at";

/// Filters for listing transactions.
#[derive(Debug, Clone, Default)]
pub struct TransactionListFilters {
    pub transaction_type: Option<String>,
    pub category: Option<String>,
    pub payment_mode: Option<String>,
    pub status: Option<String>,
    /// First day, `YYYY-MM-DD`.
    pub date_from: Option<String>,
    /// Last day, `YYYY-MM-DD`, included whole.
    pub date_to: Option<String>,
    pub page: u32,
    pub limit: u32,
}

pub open spec fn transaction_conditions_spec(f: TransactionListFilters) -> ConditionsView {
    opt_cond("type = $"@, f.transaction_type)
        + opt_cond("category = $"@, f.category)
        + opt_cond("payment_mode = $"@, f.payment_mode)
        + opt_cond("approval_status = $"@, f.status)
        + opt_cond("created_at >= $"@, f.date_from)
        + opt_cond_suffixed("created_at <= $"@, f.date_to, "T23:59:59Z"@)
}

pub fn transaction_conditions(f: &TransactionListFilters) -> (r: Vec<Condition>)
    ensures
        conditions_view(r@) == transaction_conditions_spec(*f),
        r@.len() <= 6,
{
    let mut c: Vec<Condition> = Vec::new();
    push_cond(&mut c, "type = $", &f.transaction_type);
    push_cond(&mut c, "category = $", &f.category);
    push_cond(&mut c, "payment_mode = $", &f.payment_mode);
    push_cond(&mut c, "approval_status = $", &f.status);
    push_cond(&mut c, "created_at >= $", &f.date_from);
    push_cond_suffixed(&mut c, "created_at <= $", &f.date_to, "T23:59:59Z");
    assert(conditions_view(c@).len() == c@.len());
    c
}

/// The statements listing transactions, newest first.
pub fn transaction_list_query(f: &TransactionListFilters) -> (r: PagedQuery)
    requires
        offset_of(f.page, f.limit) <= u32::MAX,
    ensures
        r.count_sql@ == "SELECT COUNT(*) FROM transactions WHERE "@ + crate::sql::where_text(transaction_conditions_spec(*f)),
        r.list_sql@ == crate::sql::paged_list_text("SELECT "@ + TX_COLS@ + " FROM transactions WHERE "@,
            " ORDER BY created_at DESC"@, transaction_conditions_spec(*f)),
        crate::text::string_views(r.binds@) == crate::sql::bound_values(transaction_conditions_spec(*f)),
        r.limit == f.limit,
        r.offset == offset_of(f.page, f.limit),
{
    let c = transaction_conditions(f);
    let mut prefix = "SELECT ".to_string();
    prefix.append(TX_COLS);
    prefix.append(" FROM transactions WHERE ");
    paged_query("SELECT COUNT(*) FROM transactions WHERE ", prefix.as_str(), " ORDER BY created_at DESC", &c, f.page, f.limit)
}

// ---------------------------------------------------------------------------
// Approvals
// ---------------------------------------------------------------------------

/// Filters for listing approvals.
#[derive(Debug, Clone, Default)]
pub struct ApprovalListFilters {
    pub entity_type: Option<String>,
    /// `None` lists pending approvals, `ALL` every status.
    pub status: Option<String>,
    pub date_from: Option<String>,
    pub date_to: Option<String>,
    pub page: u32,
    pub limit: u32,
}

pub open spec fn approval_status_condition(status: Option<String>) -> ConditionsView {
    match status {
        None => seq![("status = 'PENDING'"@, None)],
        Some(s) => if s@ == "ALL"@ { Seq::empty() } else { seq![("status = $"@, Some(s@))] },
    }
}

pub open spec fn approval_conditions_spec(f: ApprovalListFilters) -> ConditionsView {
    opt_cond("entity_type = $"@, f.entity_type)
        + approval_status_condition(f.status)
        + opt_cond("created_at >= $"@, f.date_from)
        + opt_cond_suffixed("created_at <= $"@, f.date_to, "T23:59:59Z"@)
}

pub fn approval_conditions(f: &ApprovalListFilters) -> (r: Vec<Condition>)
    ensures
        conditions_view(r@) == approval_conditions_spec(*f),
        r@.len() <= 4,
{
    let mut c: Vec<Condition> = Vec::new();
    push_cond(&mut c, "entity_type = $", &f.entity_type);
    let ghost before = conditions_view(c@);
    match &f.status {
        None => push_fixed(&mut c, "status = 'PENDING'"),
        Some(s) => {
            if !str_eq(s.as_str(), "ALL") {
                push_cond(&mut c, "status = $", &f.status);
            }
        },
    }
    assert(conditions_view(c@) =~= before + approval_status_condition(f.status));
    push_cond(&mut c, "created_at >= $", &f.date_from);
    push_cond_suffixed(&mut c, "created_at <= $", &f.date_to, "T23:59:59Z");
    assert(conditions_view(c@).len() == c@.len());
    c
}

/// The statements listing approvals, newest first.
pub fn approval_list_query(f: &ApprovalListFilters) -> (r: PagedQuery)
    requires
        offset_of(f.page, f.limit) <= u32::MAX,
    ensures
        r.count_sql@ == "SELECT COUNT(*) FROM approvals WHERE "@ + crate::sql::where_text(approval_conditions_spec(*f)),
        r.list_sql@ == crate::sql::paged_list_text("SELECT * FROM approvals WHERE "@,
            " ORDER BY created_at DESC"@, approval_conditions_spec(*f)),
        crate::text::string_views(r.binds@) == crate::sql::bound_values(approval_conditions_spec(*f)),
        r.limit == f.limit,
        r.offset == offset_of(f.page, f.limit),
{
    let c = approval_conditions(f);
    paged_query("SELECT COUNT(*) FROM approvals WHERE ", "SELECT * FROM approvals WHERE ", " ORDER BY created_at DESC", &c, f.page, f.limit)
}

// ---------------------------------------------------------------------------
// Activity and audit logs
// ---------------------------------------------------------------------------

/// Filters for listing activity logs.
#[derive(Debug, Clone, Default)]
pub struct ActivityLogListFilters {
    pub user_id: Option<String>,
    pub action: Option<String>,
    pub page: u32,
    pub limit: u32,
}

pub open spec fn activity_conditions_spec(f: ActivityLogListFilters) -> ConditionsView {
    opt_cond("user_id = $"@, f.user_id) + opt_cond("action = $"@, f.action)
}

/// The statements listing activity logs, newest first.
pub fn activity_log_list_query(f: &ActivityLogListFilters) -> (r: PagedQuery)
    requires
        offset_of(f.page, f.limit) <= u32::MAX,
    ensures
        r.count_sql@ == "SELECT COUNT(*) FROM activity_logs WHERE "@ + crate::sql::where_text(activity_conditions_spec(*f)),
        r.list_sql@ == crate::sql::paged_list_text("SELECT * FROM activity_logs WHERE "@,
            " ORDER BY created_at DESC"@, activity_conditions_spec(*f)),
        crate::text::string_views(r.binds@) == crate::sql::bound_values(activity_conditions_spec(*f)),
        r.limit == f.limit,
        r.offset == offset_of(f.page, f.limit),
{
    let mut c: Vec<Condition> = Vec::new();
    push_cond(&mut c, "user_id = $", &f.user_id);
    push_cond(&mut c, "action = $", &f.action);
    assert(conditions_view(c@).len() == c@.len());
    paged_query("SELECT COUNT(*) FROM activity_logs WHERE ", "SELECT * FROM activity_logs WHERE ", " ORDER BY created_at DESC", &c, f.page, f.limit)
}

/// Filters for listing audit logs.
#[derive(Debug, Clone, Default)]
pub struct AuditLogListFilters {
    pub transaction_id: Option<String>,
    pub event_type: Option<String>,
    pub performed_by_id: Option<String>,
    pub page: u32,
    pub limit: u32,
}

pub open spec fn audit_conditions_spec(f: AuditLogListFilters) -> ConditionsView {
    opt_cond("transaction_id = $"@, f.transaction_id)
        + opt_cond("event_type = $"@, f.event_type)
        + opt_cond("performed_by_id = $"@, f.performed_by_id)
}

/// The statements listing audit logs, newest first.
pub fn audit_log_list_query(f: &AuditLogListFilters) -> (r: PagedQuery)
    requires
        offset_of(f.page, f.limit) <= u32::MAX,
    ensures
        r.count_sql@ == "SELECT COUNT(*) FROM audit_logs WHERE "@ + crate::sql::where_text(audit_conditions_spec(*f)),
        r.list_sql@ == crate::sql::paged_list_text("SELECT * FROM audit_logs WHERE "@,
            " ORDER BY created_at DESC"@, audit_conditions_spec(*f)),
        crate::text::string_views(r.binds@) == crate::sql::bound_values(audit_conditions_spec(*f)),
        r.limit == f.limit,
        r.offset == offset_of(f.page, f.limit),
{
    let mut c: Vec<Condition> = Vec::new();
    push_cond(&mut c, "transaction_id = $", &f.transaction_id);
    push_cond(&mut c, "event_type = $", &f.event_type);
    push_cond(&mut c, "performed_by_id = $", &f.performed_by_id);
    assert(conditions_view(c@).len() == c@.len());
    paged_query("SELECT COUNT(*) FROM audit_logs WHERE ", "SELECT * FROM audit_logs WHERE ", " ORDER BY created_at DESC", &c, f.page, f.limit)
}

// ---------------------------------------------------------------------------
// Members
// ---------------------------------------------------------------------------

/// Filters for listing top-level members.
#[derive(Debug, Clone, Default)]
pub struct MemberListFilters {
    /// Membership status of the linked user; `PENDING_APPROVAL` selects
    /// members with no linked user.
    pub status: Option<String>,
    /// Text searched in the name, the email and the linked user's member ID.
    pub search: Option<String>,
    pub page: u32,
    pub limit: u32,
}

pub open spec fn member_status_condition(status: Option<String>) -> ConditionsView {
    match status {
        None => Seq::empty(),
        Some(s) => if s@ == "PENDING_APPROVAL"@ {
            seq![("m.user_id IS NULL"@, None)]
        } else {
            seq![("EXISTS (SELECT 1 FROM users u WHERE u.id = m.user_id AND u.membership_status = $)"@, Some(s@))]
        },
    }
}

pub open spec fn member_search_condition(search: Option<String>) -> ConditionsView {
    match search {
        None => Seq::empty(),
        Some(s) => seq![(
            "(m.name LIKE $ COLLATE NOCASE OR m.email LIKE $ COLLATE NOCASE OR EXISTS (SELECT 1 FROM users u WHERE u.id = m.user_id AND u.member_id LIKE $ COLLATE NOCASE))"@,
            Some("%"@ + s@ + "%"@),
        )],
    }
}

pub open spec fn member_conditions_spec(f: MemberListFilters) -> ConditionsView {
    seq![("m.parent_member_id IS NULL"@, None::<Seq<char>>)]
        + member_status_condition(f.status)
        + member_search_condition(f.search)
}

/// The statements listing top-level members, newest first.
pub fn member_list_query(f: &MemberListFilters) -> (r: PagedQuery)
    requires
        offset_of(f.page, f.limit) <= u32::MAX,
    ensures
        r.count_sql@ == "SELECT COUNT(*) as count FROM members m WHERE "@ + crate::sql::where_text(member_conditions_spec(*f)),
        r.list_sql@ == crate::sql::paged_list_text("SELECT m.* FROM members m WHERE "@,
            " ORDER BY m.created_at DESC"@, member_conditions_spec(*f)),
        crate::text::string_views(r.binds@) == crate::sql::bound_values(member_conditions_spec(*f)),
        r.limit == f.limit,
        r.offset == offset_of(f.page, f.limit),
{
    let mut c: Vec<Condition> = Vec::new();
    push_fixed(&mut c, "m.parent_member_id IS NULL");
    let ghost b1 = conditions_view(c@);
    match &f.status {
        None => {},
        Some(s) => {
            if str_eq(s.as_str(), "PENDING_APPROVAL") {
                push_fixed(&mut c, "m.user_id IS NULL");
            } else {
                push_cond(&mut c, "EXISTS (SELECT 1 FROM users u WHERE u.id = m.user_id AND u.membership_status = $)", &f.status);
            }
        },
    }
    assert(conditions_view(c@) =~= b1 + member_status_condition(f.status));
    let ghost b2 = conditions_view(c@);
    match &f.search {
        None => {},
        Some(s) => {
            let mut like = "%".to_string();
            like.append(s.as_str());
            like.append("%");
            c.push(Condition {
                text: "(m.name LIKE $ COLLATE NOCASE OR m.email LIKE $ COLLATE NOCASE OR EXISTS (SELECT 1 FROM users u WHERE u.id = m.user_id AND u.member_id LIKE $ COLLATE NOCASE))",
                value: Some(like),
            });
        },
    }
    assert(conditions_view(c@) =~= b2 + member_search_condition(f.search));
    assert(conditions_view(c@).len() == c@.len());
    paged_query("SELECT COUNT(*) as count FROM members m WHERE ", "SELECT m.* FROM members m WHERE ", " ORDER BY m.created_at DESC", &c, f.page, f.limit)
}


// ---------------------------------------------------------------------------
// The lists the web client pages through
// ---------------------------------------------------------------------------

/// The approval queue's status filter: pending requests unless a status is
/// asked for, every request for `ALL`.
pub open spec fn queue_status_condition(status: Option<String>) -> ConditionsView {
    match status {
        None => seq![("a.status = 'PENDING'"@, None)],
        Some(s) => if s@ == "ALL"@ { Seq::empty() } else { seq![("a.status = $"@, Some(s@))] },
    }
}

/// The approval queue's type filter: membership changes, membership
/// payments, or other transactions; any other value filters nothing.
pub open spec fn queue_type_condition(approval_type: Option<String>) -> ConditionsView {
    match approval_type {
        Some(t) => if t@ == MEMBERSHIP_APPROVAL@ {
            seq![("a.entity_type != 'TRANSACTION'"@, None)]
        } else if t@ == MEMBERSHIP_PAYMENT_APPROVAL@ {
            seq![("a.entity_type = 'TRANSACTION' AND COALESCE(t.category, '') = 'MEMBERSHIP'"@, None)]
        } else if t@ == TRANSACTION_APPROVAL@ {
            seq![("a.entity_type = 'TRANSACTION' AND COALESCE(t.category, '') != 'MEMBERSHIP'"@, None)]
        } else {
            Seq::empty()
        },
        None => Seq::empty(),
    }
}

/// The conditions of the approval queue (`a` the approvals, `t` the
/// transaction an approval is about).
pub fn approval_queue_conditions(status: &Option<String>, approval_type: &Option<String>) -> (r: Vec<Condition>)
    ensures
        conditions_view(r@) == queue_status_condition(*status) + queue_type_condition(*approval_type),
        r@.len() <= 2,
{
    let mut c: Vec<Condition> = Vec::new();
    match status {
        None => push_fixed(&mut c, "a.status = 'PENDING'"),
        Some(s) => {
            if !str_eq(s.as_str(), "ALL") {
                push_cond(&mut c, "a.status = $", status);
            }
        },
    }
    assert(conditions_view(c@) =~= queue_status_condition(*status));
    let ghost before = conditions_view(c@);
    match approval_type {
        None => {},
        Some(t) => {
            if str_eq(t.as_str(), MEMBERSHIP_APPROVAL) {
                push_fixed(&mut c, "a.entity_type != 'TRANSACTION'");
            } else if str_eq(t.as_str(), MEMBERSHIP_PAYMENT_APPROVAL) {
                push_fixed(&mut c, "a.entity_type = 'TRANSACTION' AND COALESCE(t.category, '') = 'MEMBERSHIP'");
            } else if str_eq(t.as_str(), TRANSACTION_APPROVAL) {
                push_fixed(&mut c, "a.entity_type = 'TRANSACTION' AND COALESCE(t.category, '') != 'MEMBERSHIP'");
            }
        },
    }
    assert(conditions_view(c@) =~= before + queue_type_condition(*approval_type));
    assert(conditions_view(c@).len() == c@.len());
    c
}

/// The audit log's filters: by transaction, event, performer and category,
/// and from the start of `date_from` to the end of `date_to`.
pub open spec fn audit_entry_conditions_spec(
    transaction_id: Option<String>,
    event_type: Option<String>,
    performed_by_id: Option<String>,
    category: Option<String>,
    date_from: Option<String>,
    date_to: Option<String>,
) -> ConditionsView {
    opt_cond("al.transaction_id = $"@, transaction_id)
        + opt_cond("al.event_type = $"@, event_type)
        + opt_cond("al.performed_by_id = $"@, performed_by_id)
        + opt_cond("t.category = $"@, category)
        + opt_cond_suffixed("al.created_at >= $"@, date_from, "T00:00:00Z"@)
        + opt_cond_suffixed("al.created_at <= $"@, date_to, "T23:59:59Z"@)
}

/// The conditions of the audit log page (`al` the entries, `t` their
/// transactions).
pub fn audit_entry_conditions(
    transaction_id: &Option<String>,
    event_type: &Option<String>,
    performed_by_id: &Option<String>,
    category: &Option<String>,
    date_from: &Option<String>,
    date_to: &Option<String>,
) -> (r: Vec<Condition>)
    ensures
        conditions_view(r@) == audit_entry_conditions_spec(*transaction_id, *event_type, *performed_by_id, *category,
            *date_from, *date_to),
        r@.len() <= 6,
{
    let mut c: Vec<Condition> = Vec::new();
    push_cond(&mut c, "al.transaction_id = $", transaction_id);
    push_cond(&mut c, "al.event_type = $", event_type);
    push_cond(&mut c, "al.performed_by_id = $", performed_by_id);
    push_cond(&mut c, "t.category = $", category);
    push_cond_suffixed(&mut c, "al.created_at >= $", date_from, "T00:00:00Z");
    push_cond_suffixed(&mut c, "al.created_at <= $", date_to, "T23:59:59Z");
    assert(conditions_view(c@).len() == c@.len());
    c
}

/// The activity log's filters: by action, and from the start of
/// `date_from` to the end of `date_to`.
pub open spec fn activity_entry_conditions_spec(action: Option<String>, date_from: Option<String>, date_to: Option<String>)
    -> ConditionsView
{
    opt_cond("al.action = $"@, action)
        + opt_cond_suffixed("al.created_at >= $"@, date_from, "T00:00:00Z"@)
        + opt_cond_suffixed("al.created_at <= $"@, date_to, "T23:59:59Z"@)
}

/// The conditions of the activity log page (`al` the entries).
pub fn activity_entry_conditions(action: &Option<String>, date_from: &Option<String>, date_to: &Option<String>)
    -> (r: Vec<Condition>)
    ensures
        conditions_view(r@) == activity_entry_conditions_spec(*action, *date_from, *date_to),
        r@.len() <= 3,
{
    let mut c: Vec<Condition> = Vec::new();
    push_cond(&mut c, "al.action = $", action);
    push_cond_suffixed(&mut c, "al.created_at >= $", date_from, "T00:00:00Z");
    push_cond_suffixed(&mut c, "al.created_at <= $", date_to, "T23:59:59Z");
    assert(conditions_view(c@).len() == c@.len());
    c
}

// ---------------------------------------------------------------------------
// New rows
// ---------------------------------------------------------------------------

/// A new activity log entry.
#[derive(Debug, Clone)]
pub struct CreateActivityLogData {
    pub user_id: String,
    pub action: String,
    pub description: String,
    /// JSON text.
    pub metadata: Option<String>,
}

/// A new approval request.
#[derive(Debug, Clone)]
pub struct CreateApprovalData {
    pub entity_type: String,
    pub entity_id: String,
    pub action: String,
    /// JSON text.
    pub previous_data: Option<String>,
    /// JSON text.
    pub new_data: Option<String>,
    pub requested_by_id: String,
    pub status: String,
}

/// A new audit log entry.
#[derive(Debug, Clone)]
pub struct CreateAuditLogData {
    pub transaction_id: String,
    pub event_type: String,
    /// JSON text.
    pub transaction_snapshot: String,
    pub performed_by_id: String,
}

/// A new member record.
#[derive(Debug, Clone)]
pub struct CreateMemberData {
    pub user_id: Option<String>,
    pub name: String,
    pub phone: String,
    pub email: String,
    pub address: String,
    pub parent_member_id: Option<String>,
}

/// A new sponsor.
#[derive(Debug, Clone)]
pub struct CreateSponsorData {
    pub name: String,
    pub phone: String,
    pub email: String,
    pub company: Option<String>,
    pub created_by_id: String,
}

} // verus!
