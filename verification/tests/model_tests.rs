use bsds_core::models::{
    apply_member_update, apply_sponsor_update, apply_transaction_update, Member, Sponsor, TransactionApproval,
    UpdateMemberData, UpdateSponsorData, UpdateTransactionData,
};

fn member() -> Member {
    Member {
        id: "m1".to_string(),
        user_id: Some("u1".to_string()),
        name: "Asha Sen".to_string(),
        phone: "9876543210".to_string(),
        email: "asha@example.com".to_string(),
        address: "12 Lake Road".to_string(),
        parent_member_id: None,
        joined_at: "2025-01-01".to_string(),
        created_at: "2025-01-01".to_string(),
        updated_at: "2025-01-02".to_string(),
    }
}

#[test]
fn member_edit_replaces_given_fields_only() {
    let data = UpdateMemberData { name: Some("Asha Roy".to_string()), address: Some("3 Park Street".to_string()), ..Default::default() };
    let m = apply_member_update(&member(), &data);
    assert_eq!(m.name, "Asha Roy");
    assert_eq!(m.address, "3 Park Street");
    assert_eq!(m.phone, "9876543210");
    assert_eq!(m.email, "asha@example.com");
    assert_eq!(m.id, "m1");
    assert_eq!(m.user_id.as_deref(), Some("u1"));
    assert_eq!(m.updated_at, "2025-01-02");
}

#[test]
fn empty_member_edit_keeps_everything() {
    let m = apply_member_update(&member(), &UpdateMemberData::default());
    let before = member();
    assert_eq!(m.name, before.name);
    assert_eq!(m.phone, before.phone);
    assert_eq!(m.email, before.email);
    assert_eq!(m.address, before.address);
}

fn sponsor() -> Sponsor {
    Sponsor {
        id: "s1".to_string(),
        name: "Ravi".to_string(),
        phone: "9000000000".to_string(),
        email: "ravi@example.com".to_string(),
        company: Some("Ravi Traders".to_string()),
        created_by_id: "u9".to_string(),
        created_at: "2025-05-05".to_string(),
    }
}

#[test]
fn sponsor_company_can_be_cleared_or_kept() {
    let kept = apply_sponsor_update(&sponsor(), &UpdateSponsorData { phone: Some("9111111111".to_string()), ..Default::default() });
    assert_eq!(kept.company.as_deref(), Some("Ravi Traders"));
    assert_eq!(kept.phone, "9111111111");
    assert_eq!(kept.name, "Ravi");
    let cleared = apply_sponsor_update(&sponsor(), &UpdateSponsorData { company: Some(None), ..Default::default() });
    assert_eq!(cleared.company, None);
    assert_eq!(cleared.created_by_id, "u9");
}

#[test]
fn transaction_approval_edit() {
    let stored = TransactionApproval {
        approval_status: "PENDING".to_string(),
        approved_by_id: None,
        approved_at: None,
        receipt_number: Some("BSDS-REC-2026-0001".to_string()),
    };
    let data = UpdateTransactionData {
        approval_status: Some("APPROVED".to_string()),
        approved_by_id: Some("admin".to_string()),
        ..Default::default()
    };
    let t = apply_transaction_update(&stored, &data);
    assert_eq!(t.approval_status, "APPROVED");
    assert_eq!(t.approved_by_id.as_deref(), Some("admin"));
    assert_eq!(t.approved_at, None);
    assert_eq!(t.receipt_number.as_deref(), Some("BSDS-REC-2026-0001"));
}
