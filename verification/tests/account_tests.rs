use bsds_core::auth::{
    check_login_input, check_login_password, check_password_change, hash_password, login_username,
    session_claims_for, AccountFailure,
};

#[test]
fn login_name_is_trimmed_lower_case() {
    assert_eq!(login_username(&"  Asha@Example.COM ".to_string()), "asha@example.com");
}

#[test]
fn login_needs_both_fields() {
    assert_eq!(check_login_input("", "secret"), Err(AccountFailure::MissingCredentials));
    assert_eq!(check_login_input("asha@example.com", ""), Err(AccountFailure::MissingCredentials));
    assert_eq!(check_login_input("asha@example.com", "secret"), Ok(()));
}

#[test]
fn login_password_outcomes() {
    let hash = hash_password("secret").unwrap();
    assert_eq!(check_login_password("secret", Some(&hash)), Ok(()));
    assert_eq!(check_login_password("wrong", Some(&hash)), Err(AccountFailure::InvalidCredentials));
    assert_eq!(check_login_password("secret", None), Err(AccountFailure::InvalidCredentials));
    assert_eq!(check_login_password("secret", Some("not a bcrypt hash")), Err(AccountFailure::Internal));
}

#[test]
fn password_change_outcomes() {
    let hash = hash_password("old-pass").unwrap();
    assert_eq!(check_password_change("old-pass", "", Some(&hash)), Err(AccountFailure::EmptyNewPassword));
    assert_eq!(check_password_change("old-pass", "new-pass", None), Err(AccountFailure::AccountNotFound));
    assert_eq!(check_password_change("bad", "new-pass", Some(&hash)), Err(AccountFailure::WrongCurrentPassword));
    assert_eq!(check_password_change("old-pass", "new-pass", Some(&hash)), Ok(()));
}

#[test]
fn account_failures_answer_status_and_message() {
    assert_eq!(AccountFailure::MissingCredentials.status(), 400);
    assert_eq!(AccountFailure::InvalidCredentials.status(), 401);
    assert_eq!(AccountFailure::AccountNotFound.status(), 404);
    assert_eq!(AccountFailure::Internal.status(), 500);
    assert_eq!(AccountFailure::InvalidCredentials.message(), "invalid credentials");
    assert_eq!(AccountFailure::WrongCurrentPassword.message(), "current password is incorrect");
}

#[test]
fn claims_of_a_new_session() {
    let c = session_claims_for(
        "u1".to_string(),
        "asha@example.com".to_string(),
        "MEMBER".to_string(),
        "BSDS-2026-0001-00".to_string(),
        true,
    );
    assert_eq!(c.user_id, "u1");
    assert_eq!(c.username, "asha@example.com");
    assert_eq!(c.role, "MEMBER");
    assert_eq!(c.member_id.as_deref(), Some("BSDS-2026-0001-00"));
    assert!(c.must_change_password);
}
