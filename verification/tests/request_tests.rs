use auth_endpoint::request::AuthRequest;
use auth_endpoint::request::ResponseType;
use auth_endpoint::text::as_opt_str;
use auth_endpoint::text::str_eq;

#[test]
fn response_type_answers_to_its_name_and_its_alias() {
    assert_eq!(ResponseType::from_name("code"), Some(ResponseType::Code));
    assert_eq!(ResponseType::from_name("Code"), Some(ResponseType::Code));
    assert_eq!(ResponseType::from_name("token"), Some(ResponseType::Token));
    assert_eq!(ResponseType::from_name("Token"), Some(ResponseType::Token));
}

#[test]
fn other_names_are_no_response_type() {
    for name in ["", "CODE", "TOKEN", "bearer", "code ", " token", "id_token", "cod"] {
        assert_eq!(ResponseType::from_name(name), None, "for {:?}", name);
    }
}

#[test]
fn fields_decode_to_a_request() {
    let request = AuthRequest::from_fields(
        "code",
        Some("read".to_string()),
        Some("https://example.com/cb".to_string()),
    )
    .expect("a code request");
    assert_eq!(request.response_type(), ResponseType::Code);
    assert_eq!(request.scope(), Some("read"));
    assert_eq!(request.redirect_uri(), Some("https://example.com/cb"));
}

#[test]
fn decoding_relates_no_fields() {
    let request = AuthRequest::from_fields("code", None, None).expect("a code request");
    assert_eq!(request.response_type(), ResponseType::Code);
    assert_eq!(request.scope(), None);
    assert_eq!(request.redirect_uri(), None);
    let request = AuthRequest::from_fields("token", None, Some("anything".to_string()))
        .expect("a token request");
    assert_eq!(request.response_type(), ResponseType::Token);
    assert_eq!(request.redirect_uri(), Some("anything"));
}

#[test]
fn unknown_response_type_decodes_to_nothing() {
    assert!(AuthRequest::from_fields("password", None, None).is_none());
    assert!(AuthRequest::from_fields("", Some("read".to_string()), None).is_none());
}

#[test]
fn new_request_keeps_its_fields() {
    let request = AuthRequest::new(ResponseType::Token, Some("a b".to_string()), None);
    assert_eq!(request.response_type(), ResponseType::Token);
    assert_eq!(request.scope(), Some("a b"));
    assert_eq!(request.redirect_uri(), None);
}

#[test]
fn strings_compare_by_their_characters() {
    assert!(str_eq("", ""));
    assert!(str_eq("code", "code"));
    assert!(!str_eq("code", "Code"));
    assert!(!str_eq("code", "codes"));
    assert!(!str_eq("codes", "code"));
    assert!(str_eq("\u{e9}t\u{e9}", "\u{e9}t\u{e9}"));
    assert!(!str_eq("\u{e9}t\u{e9}", "ete"));
    assert!(!str_eq("\u{e9}", "\u{e8}"));
}

#[test]
fn optional_string_is_borrowed_as_it_is() {
    assert_eq!(as_opt_str(&Some("read".to_string())), Some("read"));
    assert_eq!(as_opt_str(&None), None);
}
