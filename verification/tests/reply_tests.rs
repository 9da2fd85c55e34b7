use auth_endpoint::dispatch::AuthResponse;
use auth_endpoint::dispatch::AuthorizationOutcome;
use auth_endpoint::endpoint::login;
use auth_endpoint::error::ServerError;
use auth_endpoint::error::REDIRECT_URI_MALFORMED;
use auth_endpoint::error::REDIRECT_URI_REQUIRED;
use auth_endpoint::error::REDIRECT_URI_TOO_LONG;
use auth_endpoint::reply::Field;
use auth_endpoint::reply::HttpReply;
use auth_endpoint::reply::ReplyBody;
use auth_endpoint::request::AuthRequest;
use auth_endpoint::request::ResponseType;

fn pairs_of(fields: &[Field]) -> Vec<(&str, &str)> {
    fields.iter().map(|field| (field.name.as_str(), field.value.as_str())).collect()
}

fn text_of(reply: &HttpReply) -> &str {
    match &reply.body {
        ReplyBody::Text(text) => text.as_str(),
        other => panic!("no text: {:?}", other),
    }
}

fn members_of(reply: &HttpReply) -> Vec<(&str, &str)> {
    match &reply.body {
        ReplyBody::Json(members) => pairs_of(members),
        other => panic!("no JSON: {:?}", other),
    }
}

#[test]
fn redirect_is_presented_as_found_with_the_location() {
    let outcome = AuthorizationOutcome::Redirect { location: "https://example.com/cb?x=1".to_string() };
    let reply = outcome.reply();
    assert_eq!(reply.status, 302);
    assert_eq!(pairs_of(&reply.headers), vec![("Location", "https://example.com/cb?x=1")]);
    assert_eq!(text_of(&reply), "Redirecting to https://example.com/cb?x=1");
}

#[test]
fn token_body_is_presented_as_json_that_no_cache_may_store() {
    let outcome = AuthorizationOutcome::Body(AuthResponse {
        token_type: "Bearer",
        access_token: "abc",
        refresh_token: Some("xyz"),
        scope: Some("read"),
    });
    let reply = outcome.reply();
    assert_eq!(reply.status, 200);
    assert_eq!(pairs_of(&reply.headers), vec![("Cache-Control", "no-store")]);
    assert_eq!(
        members_of(&reply),
        vec![
            ("token_type", "Bearer"),
            ("access_token", "abc"),
            ("refresh_token", "xyz"),
            ("scope", "read")
        ]
    );
}

#[test]
fn absent_optional_fields_have_no_member() {
    let body =
        AuthResponse { token_type: "Bearer", access_token: "abc", refresh_token: None, scope: None };
    assert_eq!(pairs_of(&body.members()), vec![("token_type", "Bearer"), ("access_token", "abc")]);
    let scoped = AuthResponse {
        token_type: "Bearer",
        access_token: "abc",
        refresh_token: None,
        scope: Some(""),
    };
    assert_eq!(
        pairs_of(&scoped.members()),
        vec![("token_type", "Bearer"), ("access_token", "abc"), ("scope", "")]
    );
    let refreshed = AuthResponse {
        token_type: "Bearer",
        access_token: "abc",
        refresh_token: Some("xyz"),
        scope: None,
    };
    assert_eq!(
        pairs_of(&refreshed.members()),
        vec![("token_type", "Bearer"), ("access_token", "abc"), ("refresh_token", "xyz")]
    );
}

#[test]
fn input_error_is_reported_as_bad_request_in_plain_text() {
    let reply = ServerError::InputError(REDIRECT_URI_REQUIRED).error_response();
    assert_eq!(reply.status, 400);
    assert!(reply.headers.is_empty());
    assert_eq!(text_of(&reply), "Input error: redirect_uri is required when code is requested");
    let reply = ServerError::InputError(REDIRECT_URI_MALFORMED).error_response();
    assert_eq!(text_of(&reply), "Input error: redirect_uri must be an absolute URL");
    let reply = ServerError::InputError(REDIRECT_URI_TOO_LONG).error_response();
    assert_eq!(text_of(&reply), "Input error: redirect_uri is too long");
}

#[test]
fn field_holds_its_name_and_value() {
    let field = Field::new("Location", "https://example.com/");
    assert_eq!(field.name, "Location");
    assert_eq!(field.value, "https://example.com/");
}

#[test]
fn login_answers_a_code_request_with_a_redirect() {
    let request = AuthRequest::new(
        ResponseType::Code,
        Some("read".to_string()),
        Some("https://example.com/cb".to_string()),
    );
    let reply = login(request).expect("a reply");
    let location = "https://example.com/cb?access_token=access_token&token_type=code&scope=read";
    assert_eq!(reply.status, 302);
    assert_eq!(pairs_of(&reply.headers), vec![("Location", location)]);
    assert_eq!(text_of(&reply), format!("Redirecting to {}", location));
}

#[test]
fn login_answers_a_token_request_with_a_body_that_is_not_stored() {
    for scope in [None, Some("read"), Some("")] {
        let request = AuthRequest::new(ResponseType::Token, scope.map(|s| s.to_string()), None);
        let reply = login(request).expect("a reply");
        assert_eq!(reply.status, 200);
        assert!(pairs_of(&reply.headers).contains(&("Cache-Control", "no-store")));
        let mut expected = vec![("token_type", "Bearer"), ("access_token", "access_token")];
        if let Some(scope) = scope {
            expected.push(("scope", scope));
        }
        assert_eq!(members_of(&reply), expected);
    }
}

#[test]
fn login_fails_a_code_request_without_redirect_uri() {
    let request = AuthRequest::new(ResponseType::Code, Some("read".to_string()), None);
    match login(request) {
        Err(ServerError::InputError(message)) => assert_eq!(message, REDIRECT_URI_REQUIRED),
        other => panic!("no input error: {:?}", other),
    }
}

#[test]
fn login_fails_a_code_request_with_a_malformed_redirect_uri() {
    let request = AuthRequest::new(ResponseType::Code, None, Some("::nowhere".to_string()));
    match login(request) {
        Err(ServerError::InputError(message)) => assert_eq!(message, REDIRECT_URI_MALFORMED),
        other => panic!("no input error: {:?}", other),
    }
}
