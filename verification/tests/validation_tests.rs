use bsds_core::validation::{
    sanitize_string, validate_email, validate_enum, validate_ifsc, validate_name, validate_optional_string,
    validate_pagination, validate_password_change, validate_phone, validate_required_string, validate_uuid,
    PAYMENT_MODES, TRANSACTION_TYPES,
};

#[test]
fn test_sanitize_string() {
    assert_eq!(sanitize_string("  hello\x00world  "), "helloworld");
    assert_eq!(sanitize_string("clean"), "clean");
}

#[test]
fn test_validate_phone() {
    assert!(validate_phone("+919830012345").is_ok());
    assert!(validate_phone("9830012345").is_err());
    assert!(validate_phone("+91983001234").is_err());
    assert!(validate_phone("+9198300123456").is_err());
}

#[test]
fn test_validate_email() {
    assert!(validate_email("user@example.com").is_ok());
    assert!(validate_email("invalid").is_err());
    assert!(validate_email("@example.com").is_err());
    assert!(validate_email("user@").is_err());
    assert!(validate_email("user@domain").is_err());
}

#[test]
fn test_validate_name() {
    assert!(validate_name("John").is_ok());
    assert!(validate_name("").is_err());
    assert!(validate_name(&"x".repeat(256)).is_err());
}

#[test]
fn test_validate_uuid() {
    assert!(validate_uuid("550e8400-e29b-41d4-a716-446655440000", "id").is_ok());
    assert!(validate_uuid("not-a-uuid", "id").is_err());
    assert_eq!(validate_uuid("x", "memberId"), Err("memberId must be a valid UUID".to_string()));
}

#[test]
fn test_validate_enum() {
    assert!(validate_enum("CASH_IN", &TRANSACTION_TYPES, "type").is_ok());
    assert!(validate_enum("INVALID", &TRANSACTION_TYPES, "type").is_err());
}

#[test]
fn enum_error_lists_the_options() {
    assert_eq!(
        validate_enum("CHEQUE", &PAYMENT_MODES, "paymentMode"),
        Err("paymentMode must be one of: UPI, BANK_TRANSFER, CASH".to_string())
    );
}

#[test]
fn test_validate_password_change() {
    assert!(validate_password_change("oldpass12", "newpass99").is_ok());
    assert!(validate_password_change("short", "newpass99").is_err());
    assert!(validate_password_change("oldpass12", "oldpass12").is_err());
    assert!(validate_password_change("oldpass12", "password123").is_err());
}

#[test]
fn password_errors_are_listed_in_order() {
    let errs = validate_password_change("short", "short").unwrap_err();
    assert_eq!(
        errs,
        vec![
            "Current password must be at least 8 characters".to_string(),
            "New password must be at least 8 characters".to_string(),
            "New password must be different from current password".to_string(),
        ]
    );
    let common = validate_password_change("oldpass12", "PASSWORD123").unwrap_err();
    assert_eq!(common, vec!["This password is too common \u{2014} please choose a stronger password".to_string()]);
}

#[test]
fn test_validate_ifsc() {
    assert!(validate_ifsc("SBIN0001234").is_ok());
    assert!(validate_ifsc("sbin0001234").is_err());
    assert!(validate_ifsc("SHORT").is_err());
}

#[test]
fn test_validate_pagination() {
    let p = validate_pagination(None, None);
    assert_eq!(p.page, 1);
    assert_eq!(p.limit, 20);
    assert_eq!(p.offset, 0);
    let p = validate_pagination(Some(3), Some(50));
    assert_eq!(p.offset, 100);
    let p = validate_pagination(Some(0), Some(200));
    assert_eq!(p.page, 1);
    assert_eq!(p.limit, 100);
}

#[test]
fn string_length_checks() {
    assert_eq!(validate_required_string("", "address", 500), Err("address is required".to_string()));
    assert_eq!(
        validate_required_string("abcd", "code", 3),
        Err("code must be 3 characters or less".to_string())
    );
    assert!(validate_optional_string(None, "remark", 2).is_ok());
    assert!(validate_optional_string(Some("abc"), "remark", 2).is_err());
}

#[test]
fn email_with_second_at_is_refused() {
    assert!(validate_email("a@b@c.com").is_err());
    assert!(validate_email("a@b.c@d").is_err());
    assert!(validate_email("a.b@c.d").is_ok());
}
