//! End-to-end tests of the token and introspection endpoints, driven the
//! way the transport would drive them: a form-encoded body, an optional
//! Basic `Authorization` header, and the handlers' responses.

use oauth2_core::handlers::introspect;
use oauth2_core::handlers::token;
use oauth2_core::models::authorization_token::AuthorizationToken;
use oauth2_core::models::configuration::OauthSettings;
use oauth2_core::models::db::{Client, GrantType};
use oauth2_core::models::responses::{AccessTokenResponse, OAuth2ErrorResponse};
use oauth2_core::persistence::TokenStore;
use oauth2_core::web::headers::{cache_control_value, pragma_value, www_authenticate_required,
    WWWAuthenticate};
use oauth2_core::web::utils::{extract_access_token_request, extract_introspection_request};

const TEST_SCOPE: &str = "all+generics+test-scope";

fn test_config() -> OauthSettings {
    OauthSettings { access_token_ttl: 3600, refresh_token_ttl: 7200 }
}

fn test_store() -> TokenStore {
    let mut store = TokenStore::new();
    let hash = bcrypt::hash("abcd1234", 4).expect("hashing the test secret failed");
    let added = store.add_client(Client {
        id: 1,
        identifier: "abcd1234".to_string(),
        secret: hash.clone(),
        response_type: "confidential".to_string(),
    });
    assert!(added);
    let added = store.add_client(Client {
        id: 2,
        identifier: "abcd4321".to_string(),
        secret: hash,
        response_type: "public".to_string(),
    });
    assert!(added);
    let added = store.add_grant_type(GrantType { id: 1, name: "client_credentials".to_string() });
    assert!(added);
    let added = store.add_grant_type(GrantType { id: 2, name: "refresh_token".to_string() });
    assert!(added);
    store
}

fn auth(user: &str, pass: &str) -> AuthorizationToken {
    AuthorizationToken { user: user.to_string(), pass: pass.to_string() }
}

// Drives the token endpoint from a raw form body, as the transport would.
fn common_mock_token(
    store: &mut TokenStore,
    body: &str,
    auth: Option<AuthorizationToken>,
) -> Result<AccessTokenResponse, OAuth2ErrorResponse> {
    let config = test_config();
    let req = extract_access_token_request(body).ok();
    token::post(store, &config, req, auth).expect("service failure in test")
}

// Drives the introspection endpoint from a raw form body.
fn common_mock_introspect(
    store: &TokenStore,
    body: &str,
    auth: Option<AuthorizationToken>,
) -> Result<oauth2_core::models::responses::IntrospectionOkResponse, oauth2_core::models::responses::IntrospectionErrResponse>
{
    let req = extract_introspection_request(body).ok();
    introspect::post(store, req, auth)
}

// Checks the fixed headers a response carries, and the challenge on 401.
fn assert_headers(status: u16, www_header_expected: bool) {
    if www_header_expected {
        assert_eq!(status, 401, "Incorrect response code.");
        assert!(www_authenticate_required(status));
        assert_eq!(WWWAuthenticate::basic().0, "Basic", "Incorrect WWW-Authenticate value.");
        assert_eq!(WWWAuthenticate::header_name(), "WWW-Authenticate");
    }
    assert_eq!(cache_control_value(), "no-cache, no-store", "Incorrect Cache-Control value.");
    assert_eq!(pragma_value(), "no-cache", "Incorrect Pragma value.");
}

fn assert_introspect_err_valid(
    r: &Result<oauth2_core::models::responses::IntrospectionOkResponse, oauth2_core::models::responses::IntrospectionErrResponse>,
) {
    match r {
        Err(e) => assert_eq!(e.active, false),
        Ok(_) => panic!("expected an inactive introspection response"),
    }
}

// Issues a valid client_credentials request, tests the response, and returns it.
fn fetch_access_token_for_client(
    store: &mut TokenStore,
    at: &AuthorizationToken,
) -> AccessTokenResponse {
    let body = format!("scope={}&grant_type={}", TEST_SCOPE, "client_credentials");
    let result = common_mock_token(store, &body, Some(at.clone()));
    let resp = result.expect("Incorrect response code.");
    assert_headers(200, false);
    assert_eq!(resp.token_type, "Bearer");
    assert!(resp.refresh_token.is_some(), "The test expects to find a refresh token.");
    resp
}

#[test]
// Token Request, Client Credentials, Missing Auth Header
fn token_missing_auth_header() {
    let mut store = test_store();
    let body = format!("scope={}&grant_type={}", TEST_SCOPE, "client_credentials");
    let result = common_mock_token(&mut store, &body, None);
    match result {
        Err(e) => {
            assert_eq!(e, OAuth2ErrorResponse::InvalidClient);
            assert_headers(e.http_status(), true);
        }
        Ok(_) => panic!("Incorrect response code."),
    }
}

#[test]
// Token, Client Credentials, Malformed Auth Header
fn token_client_malformed_auth_header() {
    let mut store = test_store();
    let body = format!("scope={}&grant_type={}", TEST_SCOPE, "client_credentials");
    let result = common_mock_token(&mut store, &body, Some(auth("abcd", "")));
    match result {
        Err(e) => {
            assert_eq!(e, OAuth2ErrorResponse::InvalidClient);
            assert_headers(e.http_status(), true);
        }
        Ok(_) => panic!("Incorrect response code."),
    }
}

#[test]
// Token, Client Credentials, Non-Confidential Client
fn token_client_non_confidential_client() {
    let mut store = test_store();
    let body = format!("scope={}&grant_type={}", TEST_SCOPE, "client_credentials");
    let result = common_mock_token(&mut store, &body, Some(auth("abcd4321", "abcd1234")));
    match result {
        Err(e) => {
            assert_eq!(e, OAuth2ErrorResponse::UnauthorizedClient);
            assert_eq!(e.http_status(), 400, "Incorrect response code.");
            assert_headers(e.http_status(), false);
        }
        Ok(_) => panic!("Incorrect response code."),
    }
}

#[test]
// Token, Client Credentials, Missing Params
fn token_client_missing_params() {
    let mut store = test_store();
    let body = format!("scope={}", TEST_SCOPE);
    let result = common_mock_token(&mut store, &body, Some(auth("abcd1234", "abcd1234")));
    match result {
        Err(e) => {
            assert_eq!(e.http_status(), 400, "Incorrect response code.");
            assert_headers(e.http_status(), false);
        }
        Ok(_) => panic!("Incorrect response code."),
    }
}

#[test]
// Token, Client Credentials, Proper Request
fn token_client_proper_request() {
    let mut store = test_store();
    let body = format!("scope={}&grant_type={}", TEST_SCOPE, "client_credentials");
    let result = common_mock_token(&mut store, &body, Some(auth("abcd1234", "abcd1234")));
    assert_headers(200, false);
    let resp = result.expect("Incorrect response code.");
    assert_eq!(resp.token_type, "Bearer");
    assert_eq!(resp.scope, "all generics test-scope");
    assert_eq!(resp.expires_in, 3600);
    assert!(!resp.access_token.is_empty());
    assert!(resp.refresh_token.is_some());
}

#[test]
// Token, Refresh Token, Missing Auth Header
fn token_refresh_missing_auth_header() {
    let mut store = test_store();
    let body = format!(
        "scope={}&grant_type={}&refresh_token={}",
        TEST_SCOPE, "refresh_token", "effb66ba-6990-4314-9fd5-b140ac9482ee"
    );
    let result = common_mock_token(&mut store, &body, None);
    match result {
        Err(e) => {
            assert_eq!(e, OAuth2ErrorResponse::InvalidClient);
            assert_headers(e.http_status(), true);
        }
        Ok(_) => panic!("Incorrect response code."),
    }
}

#[test]
// Token, Refresh Token, Malformed Auth Header
fn token_refresh_malformed_auth_header() {
    let mut store = test_store();
    let body = format!(
        "scope={}&grant_type={}&refresh_token={}",
        TEST_SCOPE, "refresh_token", "effb66ba-6990-4314-9fd5-b140ac9482ee"
    );
    let result = common_mock_token(&mut store, &body, Some(auth("abcd", "")));
    match result {
        Err(e) => {
            assert_eq!(e, OAuth2ErrorResponse::InvalidClient);
            assert_headers(e.http_status(), true);
        }
        Ok(_) => panic!("Incorrect response code."),
    }
}

#[test]
// Token, Refresh Token, Non-Confidential client
fn token_refresh_not_confidential_client() {
    let mut store = test_store();
    let body = format!(
        "scope={}&grant_type={}&refresh_token={}",
        TEST_SCOPE, "refresh_token", "effb66ba-6990-4314-9fd5-b140ac9482ee"
    );
    let result = common_mock_token(&mut store, &body, Some(auth("abcd4321", "abcd1234")));
    match result {
        Err(e) => {
            assert_eq!(e.http_status(), 400, "Incorrect response code.");
            assert_headers(e.http_status(), false);
        }
        Ok(_) => panic!("Incorrect response code."),
    }
}

#[test]
// Token, Refresh Token, Missing Params
fn token_refresh_missing_params() {
    let auth_token = auth("abcd1234", "abcd1234");
    let mut store = test_store();
    let atr = fetch_access_token_for_client(&mut store, &auth_token);
    let refresh_token = atr.refresh_token.expect("The test expects to find a refresh token.");
    let body = format!("grant_type={}&refresh_token={}", "refresh_token", refresh_token);
    let result = common_mock_token(&mut store, &body, Some(auth_token));
    match result {
        Err(e) => {
            assert_eq!(e, OAuth2ErrorResponse::InvalidRequest);
            assert_eq!(e.http_status(), 400, "Incorrect response code.");
            assert_headers(e.http_status(), false);
        }
        Ok(_) => panic!("Incorrect response code."),
    }
}

#[test]
// Token, Refresh Token, Missing Refresh Token in Request
fn token_refresh_missing_refresh_token() {
    let mut store = test_store();
    let body = format!("scope={}&grant_type={}", TEST_SCOPE, "refresh_token");
    let result = common_mock_token(&mut store, &body, Some(auth("abcd1234", "abcd1234")));
    match result {
        Err(e) => {
            assert_eq!(e, OAuth2ErrorResponse::InvalidRequest);
            assert_eq!(e.http_status(), 400, "Incorrect response code.");
            assert_headers(e.http_status(), false);
        }
        Ok(_) => panic!("Incorrect response code."),
    }
}

#[test]
// Token, Refresh Token, Invalid Refresh Token in Request
fn token_refresh_invalid_token_in_request() {
    let mut store = test_store();
    let body = format!(
        "scope={}&grant_type={}&refresh_token={}",
        TEST_SCOPE, "refresh_token", "12345678-1234-1234-1234-123456789012"
    );
    let result = common_mock_token(&mut store, &body, Some(auth("abcd1234", "abcd1234")));
    match result {
        Err(e) => {
            assert_eq!(e, OAuth2ErrorResponse::InvalidRequest);
            assert_eq!(e.http_status(), 400, "Incorrect response code.");
            assert_headers(e.http_status(), false);
        }
        Ok(_) => panic!("Incorrect response code."),
    }
}

#[test]
// Token, Refresh Token, Proper Request
fn token_refresh_proper_request() {
    let auth_token = auth("abcd1234", "abcd1234");
    let mut store = test_store();
    let atr = fetch_access_token_for_client(&mut store, &auth_token);
    let refresh_token = atr.refresh_token.expect("The test expects to find a refresh token.");
    let body = format!(
        "grant_type={}&refresh_token={}&scope={}",
        "refresh_token", refresh_token, "all"
    );
    let result = common_mock_token(&mut store, &body, Some(auth_token));
    assert_headers(200, false);
    let resp = result.expect("Incorrect response code.");
    assert_eq!(resp.token_type, "Bearer");
    assert_eq!(resp.scope, "all");
    assert!(!resp.access_token.is_empty());
    assert_ne!(resp.access_token, atr.access_token);
}

#[test]
// Introspect, Missing Auth Header
fn introspect_missing_auth_header() {
    let store = test_store();
    let body = format!("token={}", "8858caff-67bf-4860-8abb-ccf1c8f18192");
    let response = common_mock_introspect(&store, &body, None);
    assert_headers(200, false);
    assert_introspect_err_valid(&response);
}

#[test]
// Introspect, Malformed Auth Header
fn introspect_malformed_auth_header() {
    let store = test_store();
    let body = format!("token={}", "12345678-1234-1234-1234-123456789012");
    let response = common_mock_introspect(&store, &body, Some(auth("abcd1234", "")));
    assert_headers(200, false);
    assert_introspect_err_valid(&response);
}

#[test]
// Introspect, Invalid Token
fn introspect_invalid_token() {
    let store = test_store();
    let body = format!("token={}", "12345678-1234-1234-1234-123456789012");
    let response = common_mock_introspect(&store, &body, Some(auth("abcd1234", "abcd1234")));
    assert_headers(200, false);
    assert_introspect_err_valid(&response);
}

#[test]
// Introspect, Missing Token
fn introspect_missing_token() {
    let store = test_store();
    let response = common_mock_introspect(&store, "", Some(auth("abcd1234", "")));
    assert_headers(200, false);
    assert_introspect_err_valid(&response);
}

#[test]
// Introspect, Client Mismatch
fn introspect_client_mismatch() {
    let auth_token_one = auth("abcd1234", "abcd1234");
    let auth_token_two = auth("abcd4321", "abcd1234");
    let mut store = test_store();
    let atr = fetch_access_token_for_client(&mut store, &auth_token_one);
    let body = format!("token={}", atr.access_token);
    let response = common_mock_introspect(&store, &body, Some(auth_token_two));
    assert_headers(200, false);
    assert_introspect_err_valid(&response);
}

#[test]
// Introspect, Proper Request
fn introspect_proper_request() {
    let auth_token = auth("abcd1234", "abcd1234");
    let mut store = test_store();
    let atr = fetch_access_token_for_client(&mut store, &auth_token);
    let body = format!("token={}", atr.access_token);
    let response = common_mock_introspect(&store, &body, Some(auth_token));
    assert_headers(200, false);
    let ok = response.expect("Incorrect response code.");
    assert_eq!(ok.active, true);
    assert_eq!(ok.scope.as_deref(), Some("all generics test-scope"));
    assert_eq!(ok.client_id.as_deref(), Some("abcd1234"));
    let exp = ok.exp.expect("expected an expiry timestamp");
    let iat = ok.iat.expect("expected an issue timestamp");
    assert_eq!(exp, iat + 3600);
}
