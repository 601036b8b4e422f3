use bsds_core::audit::{build_transaction_audit_snapshot, AuditEventType, TransactionSnapshotSource};

fn entry<'a>(snapshot: &'a [(&'static str, Option<String>)], key: &str) -> &'a Option<String> {
    &snapshot.iter().find(|(k, _)| *k == key).expect("key present").1
}

#[test]
fn test_build_snapshot_includes_all_fields() {
    let source = TransactionSnapshotSource {
        id: "tx-1".into(),
        transaction_type: "CASH_IN".into(),
        category: "MEMBERSHIP".into(),
        amount: "1500".into(),
        payment_mode: "UPI".into(),
        purpose: "Monthly subscription".into(),
        remark: None,
        sponsor_purpose: None,
        approval_status: "APPROVED".into(),
        approval_source: "ADMIN".into(),
        entered_by_id: Some("user-1".into()),
        approved_by_id: Some("user-2".into()),
        approved_at: Some("2026-03-01T00:00:00Z".into()),
        razorpay_payment_id: None,
        razorpay_order_id: None,
        sender_name: None,
        sender_phone: None,
        sender_upi_id: None,
        sender_bank_account: None,
        sender_bank_name: None,
        sponsor_sender_name: None,
        sponsor_sender_contact: None,
        receipt_number: None,
        member_id: Some("member-1".into()),
        sponsor_id: None,
        created_at: Some("2026-03-01T00:00:00Z".into()),
    };

    let snapshot = build_transaction_audit_snapshot(&source);
    assert_eq!(entry(&snapshot, "id").as_deref(), Some("tx-1"));
    assert_eq!(entry(&snapshot, "amount").as_deref(), Some("1500"));
    assert!(entry(&snapshot, "remark").is_none());
    assert_eq!(entry(&snapshot, "memberId").as_deref(), Some("member-1"));
}

#[test]
fn snapshot_lists_every_field_once_in_order() {
    let source = TransactionSnapshotSource {
        id: "t".into(),
        transaction_type: "CASH_OUT".into(),
        category: "EXPENSE".into(),
        amount: "10".into(),
        payment_mode: "CASH".into(),
        purpose: "p".into(),
        remark: Some("r".into()),
        sponsor_purpose: None,
        approval_status: "PENDING".into(),
        approval_source: "MANUAL".into(),
        entered_by_id: None,
        approved_by_id: None,
        approved_at: None,
        razorpay_payment_id: None,
        razorpay_order_id: None,
        sender_name: None,
        sender_phone: None,
        sender_upi_id: None,
        sender_bank_account: None,
        sender_bank_name: None,
        sponsor_sender_name: None,
        sponsor_sender_contact: None,
        receipt_number: None,
        member_id: None,
        sponsor_id: None,
        created_at: None,
    };
    let snapshot = build_transaction_audit_snapshot(&source);
    assert_eq!(snapshot.len(), 26);
    assert_eq!(snapshot[0].0, "id");
    assert_eq!(snapshot[1], ("type", Some("CASH_OUT".to_string())));
    assert_eq!(snapshot[6], ("remark", Some("r".to_string())));
    assert_eq!(snapshot[25].0, "createdAt");
}

#[test]
fn audit_labels_round_trip() {
    for e in [AuditEventType::TransactionCreated, AuditEventType::TransactionApproved, AuditEventType::TransactionRejected] {
        assert_eq!(AuditEventType::from_str_label(e.as_str()), Some(e));
    }
    assert_eq!(AuditEventType::TransactionApproved.as_str(), "TRANSACTION_APPROVED");
    assert_eq!(AuditEventType::from_str_label("TRANSACTION_DELETED"), None);
}
