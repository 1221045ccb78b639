//! Tests of the wire layer on its own: Basic-credential parsing, form-body
//! extraction, and the error taxonomy's code strings and statuses.

use oauth2_core::models::authorization_token::AuthorizationToken;
use oauth2_core::models::responses::OAuth2ErrorResponse;
use oauth2_core::utils::introspection_error;
use oauth2_core::web::utils::{extract_access_token_request, extract_introspection_request};

#[test]
// base64 and UTF-8 really run under the parser: the encoded credentials
// come back decoded.
fn auth_header_parses_basic_credentials() {
    let t = AuthorizationToken::from_header_value("Basic YWJjZDEyMzQ6YWJjZDEyMzQ=")
        .expect("a well-formed Basic header parses");
    assert_eq!(t.user, "abcd1234");
    assert_eq!(t.pass, "abcd1234");
}

#[test]
fn auth_header_empty_password() {
    let t = AuthorizationToken::from_header_value("Basic YWJjZDo=")
        .expect("a trailing colon gives an empty password");
    assert_eq!(t.user, "abcd");
    assert_eq!(t.pass, "");
}

#[test]
// A password is the text between the first and second colon.
fn auth_header_password_cut_at_colon() {
    let t = AuthorizationToken::from_header_value("Basic dTpwOnE=").expect("parses");
    assert_eq!(t.user, "u");
    assert_eq!(t.pass, "p");
}

#[test]
fn auth_header_malformed_forms() {
    // Wrong scheme.
    assert!(AuthorizationToken::from_header_value("Bearer YWJjZDo=").is_none());
    // No credentials part at all.
    assert!(AuthorizationToken::from_header_value("Basic").is_none());
    // Not base64.
    assert!(AuthorizationToken::from_header_value("Basic !!!").is_none());
    // Decodes, but holds no colon.
    assert!(AuthorizationToken::from_header_value("Basic bm9jb2xvbg==").is_none());
    // Empty header value.
    assert!(AuthorizationToken::from_header_value("").is_none());
}

#[test]
// Plus and percent decoding of form fields, and absent fields staying None.
fn access_token_request_decoding() {
    let q = extract_access_token_request("scope=a+b%20c&grant_type=x%41").expect("parses");
    assert_eq!(q.scope.as_deref(), Some("a b c"));
    assert_eq!(q.grant_type.as_deref(), Some("xA"));
    assert_eq!(q.refresh_token, None);
    assert_eq!(q.code, None);
}

#[test]
// The first occurrence of a repeated key wins; a valueless key is empty.
fn access_token_request_first_occurrence() {
    let q = extract_access_token_request("scope=one&scope=two&code").expect("parses");
    assert_eq!(q.scope.as_deref(), Some("one"));
    assert_eq!(q.code.as_deref(), Some(""));
}

#[test]
fn access_token_request_empty_body() {
    assert!(matches!(
        extract_access_token_request(""),
        Err(OAuth2ErrorResponse::InvalidRequest)
    ));
}

#[test]
fn introspection_request_extraction() {
    let q = extract_introspection_request("token=abc&token_type_hint=access_token")
        .expect("parses");
    assert_eq!(q.token, "abc");
    assert_eq!(q.token_type_hint.as_deref(), Some("access_token"));
    // The token field is required.
    assert!(matches!(
        extract_introspection_request("token_type_hint=access_token"),
        Err(OAuth2ErrorResponse::InvalidRequest)
    ));
    assert!(matches!(
        extract_introspection_request(""),
        Err(OAuth2ErrorResponse::InvalidRequest)
    ));
}

#[test]
// The wire form of each taxonomy value: code string and HTTP status.
fn error_taxonomy_wire_mapping() {
    assert_eq!(OAuth2ErrorResponse::InvalidRequest.message(), "invalid_request");
    assert_eq!(OAuth2ErrorResponse::InvalidClient.message(), "invalid_client");
    assert_eq!(OAuth2ErrorResponse::InvalidGrant.message(), "invalid_grant");
    assert_eq!(OAuth2ErrorResponse::UnauthorizedClient.message(), "unauthorized_client");
    assert_eq!(OAuth2ErrorResponse::UnsupportedGrantType.message(), "unsupported_grant_type");
    assert_eq!(OAuth2ErrorResponse::InvalidScope.message(), "invalid_scope");
    assert_eq!(OAuth2ErrorResponse::InvalidClient.http_status(), 401);
    assert_eq!(OAuth2ErrorResponse::InvalidRequest.http_status(), 400);
    assert_eq!(OAuth2ErrorResponse::InvalidGrant.http_status(), 400);
    assert_eq!(OAuth2ErrorResponse::UnauthorizedClient.http_status(), 400);
    assert_eq!(OAuth2ErrorResponse::UnsupportedGrantType.http_status(), 400);
    assert_eq!(OAuth2ErrorResponse::InvalidScope.http_status(), 400);
}

#[test]
fn introspection_error_is_inactive() {
    assert_eq!(introspection_error().active, false);
}
