//! End-to-end tests of the route layer: raw `Authorization` header values
//! and form bodies in, responses out.

use oauth2_core::models::configuration::OauthSettings;
use oauth2_core::models::db::{Client, GrantType};
use oauth2_core::models::responses::OAuth2ErrorResponse;
use oauth2_core::persistence::TokenStore;
use oauth2_core::web::routes;

// base64("abcd1234:abcd1234")
const GOOD_HEADER: &str = "Basic YWJjZDEyMzQ6YWJjZDEyMzQ=";

fn route_store() -> TokenStore {
    let mut store = TokenStore::new();
    let hash = bcrypt::hash("abcd1234", 4).expect("hashing the test secret failed");
    assert!(store.add_client(Client {
        id: 1,
        identifier: "abcd1234".to_string(),
        secret: hash,
        response_type: "confidential".to_string(),
    }));
    assert!(store.add_grant_type(GrantType { id: 1, name: "client_credentials".to_string() }));
    assert!(store.add_grant_type(GrantType { id: 2, name: "refresh_token".to_string() }));
    store
}

fn route_config() -> OauthSettings {
    OauthSettings { access_token_ttl: 3600, refresh_token_ttl: 7200 }
}

#[test]
fn route_token_grant_with_basic_header() {
    let mut store = route_store();
    let config = route_config();
    let resp = routes::token(
        &mut store,
        &config,
        Some(GOOD_HEADER),
        "grant_type=client_credentials&scope=read+write",
    )
    .expect("no service failure")
    .expect("the grant should succeed");
    assert_eq!(resp.scope, "read write");
    assert_eq!(resp.token_type, "Bearer");
    assert_eq!(store.access_tokens.len(), 1);
    assert_eq!(store.refresh_tokens.len(), 1);
    assert_eq!(store.access_tokens[0].token, resp.access_token);
}

#[test]
fn route_token_missing_or_malformed_header() {
    let mut store = route_store();
    let config = route_config();
    let body = "grant_type=client_credentials&scope=read";
    for header in [None, Some("Basic !!!"), Some("Bearer YWJjZDEyMzQ6YWJjZDEyMzQ="), Some("")] {
        let result = routes::token(&mut store, &config, header, body)
            .expect("no service failure");
        assert_eq!(result.unwrap_err(), OAuth2ErrorResponse::InvalidClient);
        assert_eq!(store.access_tokens.len(), 0, "a refused request must store nothing");
    }
}

#[test]
fn route_token_unusable_body() {
    let mut store = route_store();
    let config = route_config();
    let result = routes::token(&mut store, &config, Some(GOOD_HEADER), "")
        .expect("no service failure");
    assert_eq!(result.unwrap_err(), OAuth2ErrorResponse::InvalidRequest);
}

#[test]
fn route_introspect_full_flow() {
    let mut store = route_store();
    let config = route_config();
    let granted = routes::token(
        &mut store,
        &config,
        Some(GOOD_HEADER),
        "grant_type=client_credentials&scope=read",
    )
    .expect("no service failure")
    .expect("the grant should succeed");

    let body = format!("token={}", granted.access_token);
    let ok = routes::introspect(&store, Some(GOOD_HEADER), &body)
        .expect("the freshly issued token should be active");
    assert_eq!(ok.active, true);
    assert_eq!(ok.scope.as_deref(), Some("read"));
    assert_eq!(ok.client_id.as_deref(), Some("abcd1234"));

    let body = format!("token={}", granted.access_token);
    let inactive = routes::introspect(&store, None, &body);
    assert!(inactive.is_err(), "no credentials, no answer");
    let inactive = routes::introspect(&store, Some(GOOD_HEADER), "");
    assert!(inactive.is_err(), "an empty body is a failure like any other");
}
