use bsds_core::whatsapp::{format_indian_phone, messages_url, template_language, whatsapp_configured};

#[test]
fn test_format_indian_phone_already_correct() {
    assert_eq!(format_indian_phone("+919830012345"), "+919830012345");
}

#[test]
fn test_format_indian_phone_without_plus() {
    assert_eq!(format_indian_phone("919830012345"), "+919830012345");
}

#[test]
fn test_format_indian_phone_10_digits() {
    assert_eq!(format_indian_phone("9830012345"), "+919830012345");
}

#[test]
fn test_format_indian_phone_with_spaces() {
    assert_eq!(format_indian_phone("+91 98300 12345"), "+919830012345");
}

#[test]
fn test_format_indian_phone_other_country() {
    assert_eq!(format_indian_phone("441234567890"), "+441234567890");
}

#[test]
fn whatsapp_configuration_and_addresses() {
    assert!(whatsapp_configured(Some("t"), Some("123")));
    assert!(!whatsapp_configured(Some(""), Some("123")));
    assert!(!whatsapp_configured(Some("t"), None));
    assert_eq!(messages_url("123"), "https://graph.facebook.com/v18.0/123/messages");
    assert_eq!(template_language(None), "en");
    assert_eq!(template_language(Some("bn")), "bn");
}
