use bsds_core::member_id::{
    brand_code, build_member_id, build_member_order_receipt_reference, build_sponsor_order_receipt_reference,
    build_sponsor_payment_fallback_receipt, first_free_sub_member_slot, generate_member_id, generate_sub_member_id,
    is_valid_member_id, member_id_prefix, parse_sequence_number, receipt_number_prefix,
};

#[test]
fn test_build_member_id() {
    let id = build_member_id("BSDS", 2026, 1, 0);
    assert_eq!(id, "BSDS-2026-0001-00");
}

#[test]
fn test_generate_member_id_first() {
    let id = generate_member_id("BSDS", 2026, None);
    assert_eq!(id, "BSDS-2026-0001-00");
}

#[test]
fn test_generate_member_id_next() {
    let id = generate_member_id("BSDS", 2026, Some(5));
    assert_eq!(id, "BSDS-2026-0006-00");
}

#[test]
fn test_generate_sub_member_id() {
    let id = generate_sub_member_id("BSDS-2026-0001-00", 2).unwrap();
    assert_eq!(id, "BSDS-2026-0001-02");
}

#[test]
fn test_sub_member_id_invalid_index() {
    assert!(generate_sub_member_id("BSDS-2026-0001-00", 0).is_err());
    assert!(generate_sub_member_id("BSDS-2026-0001-00", 4).is_err());
}

#[test]
fn test_is_valid_member_id() {
    assert!(is_valid_member_id("BSDS", "BSDS-2026-0001-00"));
    assert!(is_valid_member_id("BSDS", "BSDS-2026-0042-03"));
    assert!(!is_valid_member_id("BSDS", "BSDS-26-0001-00"));
    assert!(!is_valid_member_id("BSDS", "invalid"));
    assert!(!is_valid_member_id("BSDS", "BSDS-2026-001-00"));
}

#[test]
fn test_parse_sequence_number() {
    assert_eq!(parse_sequence_number("BSDS", "BSDS-2026-0042-00"), Some(42));
    assert_eq!(parse_sequence_number("BSDS", "invalid"), None);
}

#[test]
fn member_id_round_trips_through_parse() {
    for seq in [1u32, 42, 999, 9999] {
        let id = build_member_id("BSDS", 2026, seq, 0);
        assert_eq!(parse_sequence_number("BSDS", &id), Some(seq));
    }
}

#[test]
fn brand_code_from_setting() {
    assert_eq!(brand_code(None), "BSDS");
    assert_eq!(brand_code(Some("  dps ")), "DPS");
    assert_eq!(brand_code(Some("   ")), "BSDS");
}

#[test]
fn id_and_receipt_prefixes() {
    assert_eq!(member_id_prefix("BSDS", 2026), "BSDS-2026-");
    assert_eq!(receipt_number_prefix("BSDS", 2026), "BSDS-REC-2026-");
}

#[test]
fn sub_member_id_too_short_parent() {
    assert_eq!(generate_sub_member_id("X", 1), Err("Parent member ID is too short".to_string()));
    assert_eq!(generate_sub_member_id("X", 9), Err("Sub-member index must be 1-3, got 9".to_string()));
}

#[test]
fn order_receipt_references() {
    assert_eq!(
        build_member_order_receipt_reference("BSDS", "0123456789abcdef", 1700000000000),
        "BSDS-01234567-1700000000000"
    );
    assert_eq!(
        build_sponsor_order_receipt_reference("BSDS", "tok", 42),
        "BSDS-SP-tok-42"
    );
    let long = build_member_order_receipt_reference("BSDS", "abcdefghij", 123456789012345678);
    assert!(long.len() <= 40);
    assert_eq!(build_sponsor_payment_fallback_receipt("BSDS", "pay_abcdefgh1234"), "BSDS-PAY-ABCDEFGH");
}

#[test]
fn free_slot_after_used_ones() {
    let ids = vec!["BSDS-2026-0001-01".to_string(), "BSDS-2026-0001-03".to_string()];
    assert_eq!(first_free_sub_member_slot(&ids), Some(2));
    let full = vec![
        "BSDS-2026-0001-02".to_string(),
        "BSDS-2026-0001-01".to_string(),
        "BSDS-2026-0001-03".to_string(),
    ];
    assert_eq!(first_free_sub_member_slot(&full), None);
    assert_eq!(first_free_sub_member_slot(&vec![]), Some(1));
}

#[test]
fn member_id_parts_are_plain_digits() {
    assert!(!is_valid_member_id("BSDS", "BSDS-2026-+042-00"));
    assert!(!is_valid_member_id("BSDS", "BSDS-+026-0042-00"));
    assert!(!is_valid_member_id("BSDS", "BSDS-2026-0042-+3"));
    assert_eq!(parse_sequence_number("BSDS", "BSDS-2026-+042-00"), None);
    assert_eq!(parse_sequence_number("BSDS", "BSDS-2026-9999-99"), Some(9999));
}
