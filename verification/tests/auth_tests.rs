use bsds_core::auth::{
    authenticate, clear_cookie, create_session_token, extract_session_token, hash_password, make_cookie,
    verify_password, verify_session_token, AuthRejection,
};
use bsds_core::permissions::{can_access_route, has_role, is_admin, is_member, is_operator, Role};
use bsds_core::temp_password::{generate_temp_password, generate_temp_password_default, TEMP_PASSWORD_CHARS};

const CLAIMS_JSON: &str = r#"{"user_id":"u1","username":"alice","role":"ADMIN","member_id":"BSDS-2026-0001-00","must_change_password":false}"#;

#[test]
fn round_trip_session_token() {
    let secret = "test-secret-key";
    let token = create_session_token(CLAIMS_JSON, secret);
    let decoded = verify_session_token(&token, secret).expect("should verify");
    let value: serde_json::Value = serde_json::from_slice(&decoded).unwrap();
    assert_eq!(value["user_id"], "u1");
    assert_eq!(value["username"], "alice");
    assert_eq!(value["role"], "ADMIN");
    assert_eq!(value["member_id"], "BSDS-2026-0001-00");
    assert_eq!(value["must_change_password"], false);
}

#[test]
fn tampered_token_rejected() {
    let json = r#"{"user_id":"u1","username":"alice","role":"ADMIN","member_id":null,"must_change_password":false}"#;
    let token = create_session_token(json, "secret-a");
    assert!(verify_session_token(&token, "secret-b").is_none());
}

#[test]
fn password_hash_and_verify() {
    let hash = hash_password("hunter2").unwrap();
    assert!(verify_password("hunter2", &hash).unwrap());
    assert!(!verify_password("wrong", &hash).unwrap());
}

#[test]
fn cookie_helpers() {
    let c = make_cookie("tok123");
    assert!(c.contains("bsds_session=tok123"));
    assert!(c.contains("HttpOnly"));
    assert!(c.contains("SameSite=Strict"));
    assert!(c.contains("Path=/"));

    let cl = clear_cookie();
    assert!(cl.contains("Max-Age=0"));
}

#[test]
fn session_token_layout() {
    let token = create_session_token("{}", "k");
    let (payload, sig) = token.rsplit_once('.').unwrap();
    assert_eq!(payload, "e30");
    assert_eq!(sig.len(), 64);
    assert!(sig.chars().all(|c| c.is_ascii_hexdigit()));
}

#[test]
fn session_token_with_bad_signature_hex() {
    let token = create_session_token("{}", "k");
    let (payload, _) = token.rsplit_once('.').unwrap();
    assert!(verify_session_token(&format!("{payload}.zz"), "k").is_none());
    assert!(verify_session_token("no-dot-here", "k").is_none());
}

#[test]
fn cookie_header_parsing() {
    assert_eq!(extract_session_token("a=1; bsds_session= tok ; b=2"), Some("tok".to_string()));
    assert_eq!(extract_session_token("a=1"), None);
    assert_eq!(extract_session_token("bsds_session=; bsds_session=later"), Some(String::new()));
    assert_eq!(extract_session_token("bsds_session=x=y"), Some("x=y".to_string()));
}

#[test]
fn authenticate_outcomes() {
    let token = create_session_token(CLAIMS_JSON, "s");
    let header = format!("theme=dark; bsds_session={token}");
    assert_eq!(authenticate(&header, "s").unwrap(), CLAIMS_JSON.as_bytes().to_vec());
    assert_eq!(authenticate(&header, "other"), Err(AuthRejection::Invalid));
    assert_eq!(authenticate("theme=dark", "s"), Err(AuthRejection::Missing));
    assert_eq!(authenticate("bsds_session=  ", "s"), Err(AuthRejection::Missing));
}

#[test]
fn role_from_str_roundtrip() {
    for role in [Role::Admin, Role::Operator, Role::Organiser, Role::Member] {
        assert_eq!(Role::from_str(role.as_str()), Some(role));
    }
    assert_eq!(Role::from_str("unknown"), None);
}

#[test]
fn role_from_str_ignores_case() {
    assert_eq!(Role::from_str("admin"), Some(Role::Admin));
    assert_eq!(Role::from_str("Operator"), Some(Role::Operator));
}

#[test]
fn role_hierarchy() {
    assert!(Role::Admin.has_at_least(Role::Operator));
    assert!(Role::Operator.has_at_least(Role::Organiser));
    assert!(Role::Organiser.has_at_least(Role::Member));
    assert!(!Role::Member.has_at_least(Role::Admin));
}

#[test]
fn admin_only_routes() {
    assert!(can_access_route(Role::Admin, "/dashboard/approvals"));
    assert!(!can_access_route(Role::Operator, "/dashboard/approvals"));
    assert!(!can_access_route(Role::Member, "/api/approvals/123"));
}

#[test]
fn all_auth_routes() {
    assert!(can_access_route(Role::Member, "/dashboard"));
    assert!(can_access_route(Role::Organiser, "/api/memberships"));
}

#[test]
fn unlisted_route_allows_authenticated() {
    assert!(can_access_route(Role::Member, "/api/some-unlisted-thing"));
}

#[test]
fn role_predicates() {
    assert!(is_admin(Role::Admin));
    assert!(!is_admin(Role::Operator));
    assert!(is_operator(Role::Operator));
    assert!(is_member(Role::Member));
    assert!(has_role(Role::Organiser, &[Role::Admin, Role::Organiser]));
    assert!(!has_role(Role::Member, &[Role::Admin, Role::Organiser]));
}

#[test]
fn default_length_is_eight() {
    let pw = generate_temp_password_default();
    assert_eq!(pw.len(), 8);
}

#[test]
fn custom_length() {
    let pw = generate_temp_password(16);
    assert_eq!(pw.len(), 16);
}

#[test]
fn only_allowed_chars() {
    let charset: Vec<char> = TEMP_PASSWORD_CHARS.chars().collect();
    for _ in 0..100 {
        let pw = generate_temp_password(8);
        for ch in pw.chars() {
            assert!(charset.contains(&ch), "unexpected char: {ch}");
        }
    }
}
