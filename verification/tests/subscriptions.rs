use zero2prod::routes::subscriptions::{
    handle_subscriptions, parse_form, subscribe, FormData, FormError,
};

#[test]
fn valid_form_returns_200_with_empty_body() {
    let reply = handle_subscriptions("email=ursula@example.com&name=Ursula");
    assert_eq!(reply.status, 200);
    assert_eq!(reply.body, String::new());
}

#[test]
fn valid_form_decodes_both_fields() {
    let form = parse_form("email=ursula@example.com&name=Ursula").unwrap();
    assert_eq!(form.email, "ursula@example.com".to_string());
    assert_eq!(form.name, "Ursula".to_string());
}

#[test]
fn missing_name_is_rejected_with_400() {
    let reply = handle_subscriptions("email=ursula@example.com");
    assert_eq!(reply.status, 400);
    assert_eq!(reply.body, String::new());
}

#[test]
fn missing_email_is_rejected_with_400() {
    let reply = handle_subscriptions("name=Ursula");
    assert_eq!(reply.status, 400);
    assert_eq!(reply.body, String::new());
}

#[test]
fn missing_field_error_is_reported() {
    let err = parse_form("email=ursula@example.com").unwrap_err();
    assert_eq!(err, FormError::MissingField);
}

#[test]
fn empty_body_misses_both_fields() {
    let err = parse_form("").unwrap_err();
    assert_eq!(err, FormError::MissingField);
}

#[test]
fn plus_and_percent_escapes_are_decoded() {
    let form = parse_form("name=Ursula+K%2E+Le+Guin&email=ursula%40example.com").unwrap();
    assert_eq!(form.name, "Ursula K. Le Guin".to_string());
    assert_eq!(form.email, "ursula@example.com".to_string());
}

#[test]
fn key_without_equals_sign_has_empty_value() {
    let form = parse_form("email&name=Ursula").unwrap();
    assert_eq!(form.email, String::new());
    assert_eq!(form.name, "Ursula".to_string());
}

#[test]
fn empty_segments_are_skipped() {
    let form = parse_form("&email=a&&name=b&").unwrap();
    assert_eq!(form.email, "a".to_string());
    assert_eq!(form.name, "b".to_string());
}

#[test]
fn unknown_fields_are_ignored() {
    let form = parse_form("spam=1&email=a&name=b&more=2").unwrap();
    assert_eq!(form.email, "a".to_string());
    assert_eq!(form.name, "b".to_string());
}

#[test]
fn duplicate_field_is_rejected() {
    let err = parse_form("email=a&email=b&name=c").unwrap_err();
    assert_eq!(err, FormError::DuplicateField);
}

#[test]
fn truncated_percent_escape_is_malformed() {
    let err = parse_form("email=a%2&name=b").unwrap_err();
    assert_eq!(err, FormError::Malformed);
}

#[test]
fn non_hex_percent_escape_is_malformed() {
    let err = parse_form("email=a%zz&name=b").unwrap_err();
    assert_eq!(err, FormError::Malformed);
}

#[test]
fn utf8_percent_escapes_are_decoded() {
    let form = parse_form("email=a&name=%C3%BC").unwrap();
    assert_eq!(form.name, "\u{00fc}".to_string());
}

#[test]
fn raw_utf8_in_the_body_is_accepted() {
    let form = parse_form("email=a&name=\u{00fc}").unwrap();
    assert_eq!(form.name, "\u{00fc}".to_string());
}

#[test]
fn invalid_utf8_escape_value_is_malformed() {
    let err = parse_form("email=a&name=%FF").unwrap_err();
    assert_eq!(err, FormError::Malformed);
}

#[test]
fn subscribe_always_succeeds_with_empty_body() {
    let reply = subscribe(FormData {
        email: "anything".to_string(),
        name: "at all".to_string(),
    });
    assert_eq!(reply.status, 200);
    assert_eq!(reply.body, String::new());
}
