use bsds_core::notification_service::{
    approval_request_params, days_until_expiry, expiry_reminder_params, format_date_display, login_url,
    notification_summary, password_shown, payment_received_params, plan_resend, tally, NotificationKind,
    NotificationResult,
};
use bsds_core::api::AppError;
use bsds_core::repositories::{
    approval_list_query, member_list_query, transaction_list_query, ApprovalListFilters, MemberListFilters,
    TransactionListFilters, TX_COLS,
};
use bsds_core::sql::{build_where, update_statement, Condition};

#[test]
fn where_clause_numbers_placeholders_in_order() {
    let conds = vec![
        Condition { text: "a = $", value: Some("1".to_string()) },
        Condition { text: "b IS NULL", value: None },
        Condition { text: "(c = $ OR d = $)", value: Some("2".to_string()) },
    ];
    let w = build_where(&conds);
    assert_eq!(w.clause, "a = ?1 AND b IS NULL AND (c = ?2 OR d = ?2)");
    assert_eq!(w.binds, vec!["1".to_string(), "2".to_string()]);
    assert_eq!(build_where(&vec![]).clause, "1=1");
    let u = update_statement("t", &conds[..1].to_vec(), false).unwrap();
    assert_eq!(u.sql, "UPDATE t SET a = ?1 WHERE id = ?2");
}

#[test]
fn transaction_list_statements() {
    let f = TransactionListFilters {
        transaction_type: Some("CASH_IN".to_string()),
        date_to: Some("2026-03-31".to_string()),
        page: 3,
        limit: 20,
        ..Default::default()
    };
    let q = transaction_list_query(&f);
    assert_eq!(q.count_sql, "SELECT COUNT(*) FROM transactions WHERE type = ?1 AND created_at <= ?2");
    assert_eq!(
        q.list_sql,
        format!("SELECT {TX_COLS} FROM transactions WHERE type = ?1 AND created_at <= ?2 ORDER BY created_at DESC LIMIT ?3 OFFSET ?4")
    );
    assert_eq!(q.binds, vec!["CASH_IN".to_string(), "2026-03-31T23:59:59Z".to_string()]);
    assert_eq!((q.limit, q.offset), (20, 40));
    let empty = transaction_list_query(&TransactionListFilters { page: 0, limit: 10, ..Default::default() });
    assert_eq!(empty.count_sql, "SELECT COUNT(*) FROM transactions WHERE 1=1");
    assert_eq!(empty.offset, 0);
}

#[test]
fn approval_list_statuses() {
    let pending = approval_list_query(&ApprovalListFilters { page: 1, limit: 10, ..Default::default() });
    assert_eq!(pending.count_sql, "SELECT COUNT(*) FROM approvals WHERE status = 'PENDING'");
    let all = approval_list_query(&ApprovalListFilters { status: Some("ALL".to_string()), page: 1, limit: 10, ..Default::default() });
    assert_eq!(all.count_sql, "SELECT COUNT(*) FROM approvals WHERE 1=1");
    let some = approval_list_query(&ApprovalListFilters {
        entity_type: Some("TRANSACTION".to_string()),
        status: Some("REJECTED".to_string()),
        page: 1,
        limit: 10,
        ..Default::default()
    });
    assert_eq!(some.count_sql, "SELECT COUNT(*) FROM approvals WHERE entity_type = ?1 AND status = ?2");
    assert_eq!(some.list_sql, "SELECT * FROM approvals WHERE entity_type = ?1 AND status = ?2 ORDER BY created_at DESC LIMIT ?3 OFFSET ?4");
}

#[test]
fn member_list_search() {
    let q = member_list_query(&MemberListFilters {
        status: Some("PENDING_APPROVAL".to_string()),
        search: Some("ria".to_string()),
        page: 2,
        limit: 5,
    });
    assert_eq!(
        q.count_sql,
        "SELECT COUNT(*) as count FROM members m WHERE m.parent_member_id IS NULL AND m.user_id IS NULL AND (m.name LIKE ?1 COLLATE NOCASE OR m.email LIKE ?1 COLLATE NOCASE OR EXISTS (SELECT 1 FROM users u WHERE u.id = m.user_id AND u.member_id LIKE ?1 COLLATE NOCASE))"
    );
    assert_eq!(q.binds, vec!["%ria%".to_string()]);
    assert_eq!(q.offset, 5);
}

#[test]
fn notification_tallies() {
    let r = tally(&vec![true, false, true]);
    assert_eq!(r, NotificationResult { sent: 2, failed: 1 });
    let mut total = NotificationResult::new();
    total.add(r);
    total.record(false);
    assert_eq!(total, NotificationResult { sent: 2, failed: 2 });
    assert_eq!(
        notification_summary("Payment received", total),
        "Payment received notification: sent=2 failed=2"
    );
}

#[test]
fn notification_parameters() {
    assert_eq!(format_date_display("2026-03-15T00:00:00Z"), "15/03/2026");
    assert_eq!(format_date_display("soon"), "soon");
    assert_eq!(format_date_display("2026/03/15"), "2026/03/15");
    assert_eq!(approval_request_params("MEMBER_ADD", "Ria"), vec!["MEMBER ADD".to_string(), "Ria".to_string()]);
    assert_eq!(
        payment_received_params(1500, None, None, "CASH"),
        vec!["Rs. 1500".to_string(), "Unknown".to_string(), "CASH".to_string()]
    );
    assert_eq!(
        expiry_reminder_params("Asha", 5, Some("2026-04-01")),
        vec!["Asha".to_string(), "5".to_string(), "01/04/2026".to_string()]
    );
    assert_eq!(expiry_reminder_params("Asha", -2, None)[1], "-2");
    assert_eq!(days_until_expiry(Some(10), 4), 6);
    assert_eq!(days_until_expiry(Some(1), 4), 0);
    assert_eq!(password_shown(None), "(check with admin)");
    assert_eq!(login_url("https://x.org"), "https://x.org/login");
}

#[test]
fn resend_requests() {
    assert_eq!(plan_resend("OPERATOR", Some("payment"), Some("id")), Err(AppError::Forbidden));
    assert_eq!(plan_resend("admin", Some("payment"), Some("id")), Ok(NotificationKind::Payment));
    assert_eq!(plan_resend("ADMIN", None, Some("id")), Err(AppError::BadRequest("`type` is required".to_string())));
    assert_eq!(plan_resend("ADMIN", Some("payment"), None), Err(AppError::BadRequest("`entityId` is required".to_string())));
    assert_eq!(
        plan_resend("ADMIN", Some("rejection"), Some("id")),
        Err(AppError::BadRequest("Unknown notification type: rejection".to_string()))
    );
}
